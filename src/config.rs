//! Server configuration and its defaults.
use vstd::prelude::*;

verus! {

/// Largest upload to local storage by default: 2 MiB.
pub const DEFAULT_MAX_BYTES: usize = 2097152;

#[derive(Debug, Clone)]
pub struct Config {
    /// Batch size of the write queues; a bulk insert of the store takes at most 999 rows.
    pub buffer_size: usize,
    /// Largest page a listing request may ask for.
    pub fetch_limit: usize,
    /// Longest time, in milliseconds, that a write queue holds an item before it flushes.
    pub task_trigger_ms: usize,
    /// How long a login stays valid, in days.
    pub auth_active_days: usize,
    /// Expiry of resources, in seconds.
    pub resource_expiry_seconds: usize,
    /// Expiry of temporary resources, in seconds.
    pub temporary_expiry_seconds: usize,
    /// Expiry of presigned upload URLs, in seconds.
    pub presign_expiry_seconds: usize,
    /// Interval of the periodic checks, in seconds.
    pub check_task_interval_seconds: usize,
    /// Most entries a cache holds.
    pub cache_max_capacity: u64,
    /// Time to live of a cache entry, in seconds.
    pub ttl_seconds: u64,
    /// Time to idle of a cache entry, in seconds.
    pub tti_seconds: u64,
    /// How long a post or comment stays editable, in seconds.
    pub editable_seconds: u64,
    /// Largest pin index of posts and comments, administrators aside.
    pub top_index_max: u64,
    /// Take a post's cover from its first image when none is given.
    pub auto_fetch_post_cover: bool,
    /// Whether users may upload post covers.
    pub custom_post_cover_supported: bool,
    /// Whether new users may register.
    pub open_register: bool,
    /// Local storage, used when S3 is not configured.
    pub local: LocalStorageConfig,
    /// S3-compatible object storage; configured means enabled.
    pub s3: Option<S3Config>,
    /// Take the client address from `x-forwarded-for` instead of the peer.
    pub forwarded_ip: bool,
    /// A request whose `x-bypass-key` header equals this key skips the rate limit.
    pub bypass_key: Option<String>,
    /// Console log level.
    pub log_level: String,
    /// Image format, of captchas for one.
    pub image_format: String,
}

#[derive(Debug, Clone)]
pub struct S3Config {
    pub bucket: Option<String>,
    pub region: Option<String>,
    pub endpoint: Option<String>,
    pub public_url: Option<String>,
    pub access_key: Option<String>,
    pub secret_key: Option<String>,
}

#[derive(Debug, Clone)]
pub struct LocalStorageConfig {
    /// Public URL of local storage.
    pub public_url: String,
    /// Largest upload, in bytes.
    pub max_bytes: usize,
}

impl LocalStorageConfig {
    pub fn default_public_url() -> (r: String)
        ensures
            r@ == Seq::<char>::empty(),
    {
        Self::default().public_url
    }

    pub fn default_max_bytes() -> (r: usize)
        ensures
            r == DEFAULT_MAX_BYTES,
    {
        Self::default().max_bytes
    }
}

impl Default for LocalStorageConfig {
    fn default() -> (r: Self)
        ensures
            r.public_url@ == Seq::<char>::empty(),
            r.max_bytes == DEFAULT_MAX_BYTES,
    {
        LocalStorageConfig { public_url: String::new(), max_bytes: DEFAULT_MAX_BYTES }
    }
}

impl Default for Config {
    fn default() -> (r: Self)
        ensures
            r.buffer_size == 999,
            r.fetch_limit == 30,
            r.task_trigger_ms == 500,
            r.auth_active_days == 180,
            r.resource_expiry_seconds == 3600,
            r.temporary_expiry_seconds == 60,
            r.presign_expiry_seconds == 8,
            r.check_task_interval_seconds == 3600,
            r.cache_max_capacity == 1000,
            r.ttl_seconds == 5,
            r.tti_seconds == 5,
            r.editable_seconds == 1800,
            r.top_index_max == 9,
            r.auto_fetch_post_cover,
            !r.custom_post_cover_supported,
            r.open_register,
            r.local.public_url@ == Seq::<char>::empty(),
            r.local.max_bytes == DEFAULT_MAX_BYTES,
            r.s3 is None,
            r.bypass_key is None,
            !r.forwarded_ip,
            r.log_level@ == "info"@,
            r.image_format@ == "jpeg"@,
    {
        Config {
            buffer_size: 999,
            fetch_limit: 30,
            task_trigger_ms: 500,
            auth_active_days: 180,
            resource_expiry_seconds: 3600,
            temporary_expiry_seconds: 60,
            presign_expiry_seconds: 8,
            check_task_interval_seconds: 3600,
            cache_max_capacity: 1000,
            ttl_seconds: 5,
            tti_seconds: 5,
            editable_seconds: 30 * 60,
            top_index_max: 9,
            auto_fetch_post_cover: true,
            custom_post_cover_supported: false,
            open_register: true,
            local: LocalStorageConfig::default(),
            s3: None,
            bypass_key: None,
            forwarded_ip: false,
            log_level: "info".to_owned(),
            image_format: "jpeg".to_owned(),
        }
    }
}

} // verus!
