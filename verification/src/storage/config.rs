//! Storage settings.
use vstd::prelude::*;
use vstd::string::*;

verus! {

/// The local disk: its root directory and the URL it is served under.
pub struct LocalDiskConfig {
    pub root: String,
    pub url: String,
}

/// The configured disks.
pub struct Disks {
    pub local: LocalDiskConfig,
}

/// Settings of an S3 disk.
pub struct S3DiskConfig {
    pub key: String,
    pub secret: String,
    pub region: String,
    pub bucket: String,
    pub url: Option<String>,
    pub endpoint: Option<String>,
}

/// Settings of an R2 disk.
pub struct R2DiskConfig {
    pub account_id: String,
    pub access_key_id: String,
    pub secret_access_key: String,
    pub bucket: String,
    pub url: Option<String>,
}

/// Which disk is used, and the disks.
pub struct StorageConfig {
    pub default: String,
    pub disks: Disks,
}

/// The value of a setting, or its default when unset.
pub open spec fn or_default(value: Option<String>, default: Seq<char>) -> Seq<char> {
    match value {
        Some(v) => v@,
        None => default,
    }
}

fn setting(value: Option<String>, default: &str) -> (s: String)
    ensures
        s@ == or_default(value, default@),
{
    match value {
        Some(v) => v,
        None => String::from_str(default),
    }
}

/// The driver named by `STORAGE_DRIVER`, or `local`.
pub fn default_driver(storage_driver: Option<String>) -> (s: String)
    ensures
        s@ == or_default(storage_driver, "local"@),
{
    setting(storage_driver, "local")
}

/// The local disk under `STORAGE_PATH` (or `storage`), served at `STORAGE_URL`
/// (or `http://localhost:3000/storage`).
pub fn default_local_config(storage_path: Option<String>, storage_url: Option<String>) -> (c: LocalDiskConfig)
    ensures
        c.root@ == or_default(storage_path, "storage"@),
        c.url@ == or_default(storage_url, "http://localhost:3000/storage"@),
{
    LocalDiskConfig {
        root: setting(storage_path, "storage"),
        url: setting(storage_url, "http://localhost:3000/storage"),
    }
}

/// Why storage cannot be set up.
pub open spec fn unsupported_driver_message(driver: Seq<char>) -> Seq<char> {
    "Unsupported storage driver: "@ + driver
}

impl StorageConfig {
    /// The configuration given the values of `STORAGE_DRIVER`, `STORAGE_PATH` and
    /// `STORAGE_URL`, where set.
    pub fn from_settings(storage_driver: Option<String>, storage_path: Option<String>, storage_url: Option<String>) -> (c: Self)
        ensures
            c.default@ == or_default(storage_driver, "local"@),
            c.disks.local.root@ == or_default(storage_path, "storage"@),
            c.disks.local.url@ == or_default(storage_url, "http://localhost:3000/storage"@),
    {
        StorageConfig {
            default: default_driver(storage_driver),
            disks: Disks { local: default_local_config(storage_path, storage_url) },
        }
    }

    /// The disk the configured driver uses: only `local` is supported.
    pub fn selected_disk(&self) -> (r: Result<&LocalDiskConfig, String>)
        ensures
            self.default@ == "local"@ ==> (r matches Ok(d) && d == &self.disks.local),
            self.default@ != "local"@ ==> (r matches Err(m) && m@ == unsupported_driver_message(self.default@)),
    {
        if crate::text::str_eq(self.default.as_str(), "local") {
            Ok(&self.disks.local)
        } else {
            Err(String::from_str("Unsupported storage driver: ").concat(self.default.as_str()))
        }
    }
}

} // verus!
