//! Configuration shapes, constructed by the surrounding application at
//! start-up and handed in explicitly — no process-wide singletons.

use vstd::prelude::*;

use crate::text::{split_seq, split_on};

verus! {

/// Credentials and endpoint of the chat relay.
pub struct GptToken {
    pub token: String,
    pub api: String,
    pub cookie: String,
}

/// Relational store connection settings.
pub struct DbConfig {
    pub username: String,
    pub password: String,
    pub host: String,
    pub path: String,
    pub port: i32,
    pub max_content: u32,
}

/// Log file locations and filters.
pub struct LoggerConfig {
    pub log_path: String,
    pub disable_error: bool,
    pub copy_path: String,
    pub regex: String,
    pub excludes: String,
}

/// Key-value store connection settings.
pub struct RedisConfig {
    pub db: i32,
    pub port: i64,
    pub host: String,
    pub password: String,
    pub min_idle: u32,
    pub max_size: u32,
}

/// Search index endpoint and key.
pub struct MeiliSearchConfig {
    pub host: String,
    pub api_key: String,
}

/// Mail transport credentials.
pub struct SmtpConfig {
    pub username: String,
    pub password: String,
    pub host: String,
    pub addr: String,
}

/// Token signing secret and validity in days.
pub struct TokenConfig {
    pub secret: String,
    pub expire: i64,
}

/// Upload size caps, locations, and the kind names.
pub struct UploadConfig {
    pub max_image_size: i64,
    pub max_file_size: i64,
    pub prefix: String,
    pub uri: String,
    pub path: String,
    pub avatar: String,
    pub image: String,
    pub files: String,
}

/// Bind address of the server.
pub struct ServerConfig {
    pub addr: String,
    pub port: i64,
}

/// Allowed cross-origin callers and methods.
pub struct OriginConfig {
    pub urls: String,
    pub methods: String,
}

impl OriginConfig {
    /// The allowed origins, one per comma-separated entry.
    pub fn to_url_vec(&self) -> (r: Vec<String>)
        ensures
            r@.map_values(|p: String| p@) == split_seq(self.urls@, ','),
            r@.len() >= 1,
    {
        split_on(self.urls.as_str(), ',')
    }
}

/// Everything the platform is configured with.
pub struct Config {
    pub ip2region_path: String,
    pub blog_search_index: String,
    pub db: DbConfig,
    pub meilisearch: MeiliSearchConfig,
    pub token: TokenConfig,
    pub smtp: SmtpConfig,
    pub redis: RedisConfig,
    pub logger: LoggerConfig,
    pub my_email: String,
    pub blog_page_cache: bool,
    pub blog_page_cache_expire: u64,
    pub upload: UploadConfig,
    pub gpt: GptToken,
    pub server: ServerConfig,
    pub origin: OriginConfig,
}

} // verus!
