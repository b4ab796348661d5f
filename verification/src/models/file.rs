use vstd::prelude::*;

verus! {

/// Row describing one stored upload.
///
/// The creation time is carried as epoch milliseconds; the collaborator
/// that renders dates converts at the boundary.
#[derive(Debug)]
pub struct FileInfo {
    pub id: i64,
    pub user_id: i64,
    pub old_name: String,
    pub new_name: String,
    pub create_at: i64,
    pub size: i64,
    pub suffix: String,
    pub absolute_path: String,
    pub is_public: bool,
    pub md5: String,
    pub url: String,
}

impl FileInfo {
    pub fn new() -> (r: Self)
        ensures
            r.id == 0,
            r.user_id == 0,
            r.old_name@.len() == 0,
            r.new_name@.len() == 0,
            r.create_at == 0,
            r.size == 0,
            r.suffix@.len() == 0,
            r.absolute_path@.len() == 0,
            !r.is_public,
            r.md5@.len() == 0,
            r.url@.len() == 0,
    {
        FileInfo {
            id: 0,
            user_id: 0,
            old_name: String::new(),
            new_name: String::new(),
            create_at: 0,
            size: 0,
            suffix: String::new(),
            absolute_path: String::new(),
            is_public: false,
            md5: String::new(),
            url: String::new(),
        }
    }
}

/// Deduplication probe: a name and the digest of the bytes behind it.
pub struct FileCheckRequest {
    pub name: String,
    pub md5: String,
}

} // verus!
