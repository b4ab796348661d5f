//! The file service: the pure decisions of the upload path — kind and
//! size checks, digest naming, deduplication against the store — apart
//! from the byte transport and disk writes the surrounding application
//! performs.

use vstd::prelude::*;
use vstd::string::StringExecFns;

use crate::common::{is_image_file, is_image_extension};
use crate::custom_error::{E, Status};
use crate::models::file::FileInfo;
use crate::rel_store::RelStore;
use crate::text::{ext_of, get_file_extension};
use crate::trusted::{md5_hex, md5_hex_of};

verus! {

/// What an upload is stored as: avatars and images must look like
/// images and obey their size caps; other files obey the file cap.
pub struct FileService {}

/// The upload kinds the platform distinguishes.
#[derive(PartialEq, Eq, Structural, Clone, Copy)]
pub enum UploadKind {
    Avatar,
    Image,
    Other,
}

/// The first rule an upload breaks, if any: an avatar must carry an
/// image extension, and each kind obeys its size cap in megabytes.
pub open spec fn upload_error(
    kind: UploadKind,
    file_name: Seq<char>,
    size: int,
    max_file_mb: int,
    max_image_mb: int,
) -> Option<int> {
    match kind {
        UploadKind::Avatar => if !is_image_extension(ext_of(file_name)) {
            Some(Status::CHECK_DATA_ERROR as int)
        } else if size > max_file_mb * 1024 * 1024 {
            Some(Status::CHECK_DATA_ERROR as int)
        } else {
            None
        },
        UploadKind::Image => if size > max_image_mb * 1024 * 1024 {
            Some(Status::CHECK_DATA_ERROR as int)
        } else {
            None
        },
        UploadKind::Other => if size > max_file_mb * 1024 * 1024 {
            Some(Status::CHECK_DATA_ERROR as int)
        } else {
            None
        },
    }
}

impl FileService {
    pub fn new() -> FileService {
        FileService {}
    }

    /// The per-file decision of the upload path: validate the name and
    /// size for the upload kind, digest the bytes, and describe the row
    /// to store. The path and URL fields stay empty until the caller
    /// has placed the bytes.
    pub fn upload_file(
        &self,
        kind: UploadKind,
        is_pub: bool,
        user_id: i64,
        file_name: &String,
        file_bytes: &Vec<u8>,
        max_file_mb: i64,
        max_image_mb: i64,
    ) -> (r: Result<FileInfo, E>)
        requires
            file_bytes@.len() <= i64::MAX,
            0 <= max_file_mb <= 8192,
            0 <= max_image_mb <= 8192,
        ensures
            upload_error(
                kind,
                file_name@,
                file_bytes@.len() as int,
                max_file_mb as int,
                max_image_mb as int,
            ) is Some ==> (r matches Err(e) && e.code == Status::CHECK_DATA_ERROR),
            upload_error(
                kind,
                file_name@,
                file_bytes@.len() as int,
                max_file_mb as int,
                max_image_mb as int,
            ) is None ==> (r matches Ok(info) && {
                &&& info.user_id == user_id
                &&& info.is_public == is_pub
                &&& info.old_name@ == file_name@
                &&& info.size == file_bytes@.len()
                &&& info.suffix@ == ext_of(file_name@)
                &&& info.md5@ == md5_hex_of(file_bytes@)
                &&& info.new_name@ == md5_hex_of(file_bytes@) + "."@ + ext_of(file_name@)
                &&& info.url@.len() == 0
                &&& info.absolute_path@.len() == 0
            }),
    {
        let size = file_bytes.len() as i64;
        match kind {
            UploadKind::Avatar => {
                if !is_image_file(file_name.as_str()) {
                    return Err(
                        E::error(Status::CHECK_DATA_ERROR, "这不是一个图片文件".to_owned()),
                    );
                }
                if size > max_file_mb * 1024 * 1024 {
                    return Err(
                        E::error(Status::CHECK_DATA_ERROR, "图片文件大小超出".to_owned()),
                    );
                }
            },
            UploadKind::Image => {
                if size > max_image_mb * 1024 * 1024 {
                    return Err(E::error(Status::CHECK_DATA_ERROR, "文件大小超出".to_owned()));
                }
            },
            UploadKind::Other => {
                if size > max_file_mb * 1024 * 1024 {
                    return Err(E::error(Status::CHECK_DATA_ERROR, "文件大小超出".to_owned()));
                }
            },
        }
        let md5 = md5_hex(file_bytes.as_slice());
        let suffix = get_file_extension(file_name.as_str());
        let mut new_name = md5.clone();
        new_name.append(".");
        new_name.append(suffix.as_str());
        proof {
            reveal_strlit(".");
            assert("."@ =~= seq!['.']);
            assert(new_name@ =~= md5_hex_of(file_bytes@) + "."@ + ext_of(file_name@));
        }
        Ok(
            FileInfo {
                id: 0,
                user_id,
                old_name: file_name.clone(),
                new_name,
                create_at: 0,
                size,
                suffix,
                absolute_path: String::new(),
                is_public: is_pub,
                md5,
                url: String::new(),
            },
        )
    }

    /// The stored URL of a file with this digest, if any.
    pub fn find_by_md5(&self, rel: &mut RelStore, md5: &String) -> (r: Option<String>)
        requires
            old(rel).wf(),
            old(rel).query_count < u64::MAX,
        ensures
            final(rel).wf(),
            RelStore::same_data(*old(rel), *final(rel)),
            final(rel).query_count == old(rel).query_count + 1,
            match r {
                Some(u) => old(rel).files@.contains_key(md5@) && u == old(rel).files@[md5@],
                None => !old(rel).files@.contains_key(md5@),
            },
    {
        rel.find_by_md5_to_url(md5)
    }

    /// Records a stored file under its digest.
    pub fn insert_already_file(&self, rel: &mut RelStore, file_info: &FileInfo) -> (r: Option<E>)
        requires
            old(rel).wf(),
            old(rel).query_count < u64::MAX,
        ensures
            final(rel).wf(),
            final(rel).query_count == old(rel).query_count + 1,
            final(rel).files@ == old(rel).files@.insert(file_info.md5@, file_info.url),
            r is None,
    {
        rel.insert_file(&file_info.md5, &file_info.url);
        None
    }
}

} // verus!
