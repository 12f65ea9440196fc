use vstd::prelude::*;

verus! {

/// Credentials and location of the S3-compatible object store.
///
/// Loaded once, before an upload can start; the upload flow treats a missing
/// or unreadable configuration as a typed failure. Reading and writing the
/// configuration file itself is input/output and lives outside this crate.
pub struct Configuration {
    pub s3_access_key_id: String,
    pub s3_secret_access_key: String,
    pub s3_bucket: String,
    pub s3_region: String,
    /// A custom endpoint, for alternate S3 providers.
    pub s3_endpoint: Option<String>,
}

impl Configuration {
    /// Builds a configuration from its parts.
    pub fn new(
        s3_access_key_id: String,
        s3_secret_access_key: String,
        s3_bucket: String,
        s3_region: String,
        s3_endpoint: Option<String>,
    ) -> (r: Configuration)
        ensures
            r.s3_access_key_id == s3_access_key_id,
            r.s3_secret_access_key == s3_secret_access_key,
            r.s3_bucket == s3_bucket,
            r.s3_region == s3_region,
            r.s3_endpoint == s3_endpoint,
    {
        Configuration { s3_access_key_id, s3_secret_access_key, s3_bucket, s3_region, s3_endpoint }
    }
}

} // verus!
