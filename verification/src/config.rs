//! The gateway's configuration value.
//!
//! Configuration is an explicit value constructed once at startup and
//! passed by reference into every component; the library keeps no
//! ambient global state. Reading the process environment is the
//! surrounding application's concern.

use vstd::prelude::*;

verus! {

/// Where the gateway listens and which bucket it serves.
#[derive(Debug, Clone)]
pub struct AppConfig {
    pub http_host: String,
    pub http_port: String,
    pub aws_s3_bucket_name: String,
}

impl AppConfig {
    /// Builds the configuration from already-resolved settings.
    pub fn new(http_host: String, http_port: String, aws_s3_bucket_name: String) -> (r: AppConfig)
        ensures
            r.http_host@ == http_host@,
            r.http_port@ == http_port@,
            r.aws_s3_bucket_name@ == aws_s3_bucket_name@,
    {
        AppConfig { http_host, http_port, aws_s3_bucket_name }
    }
}

/// The region the gateway scopes its sessions to when the caller names
/// none.
pub fn aws_default_region() -> (s: &'static str)
    ensures
        s@ == "ap-northeast-1"@,
{
    "ap-northeast-1"
}

} // verus!
