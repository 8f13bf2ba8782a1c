//! Service configuration, assembled once at process start.

use vstd::prelude::*;

verus! {

/// The settings every handler needs. The process reads them from its
/// environment outside the library and hands them in as plain values.
pub struct Config {
    pub database_url: String,
    pub jwt_secret: String,
    pub ai_service_url: String,
    pub upload_dir: String,
    pub max_file_size: u64,
}

impl Config {
    /// Assembles a configuration, filling every optional setting that
    /// was not given with its documented default.
    pub fn from_parts(
        database_url: String,
        jwt_secret: String,
        ai_service_url: Option<String>,
        upload_dir: Option<String>,
        max_file_size: Option<u64>,
    ) -> (r: Config)
        ensures
            r.database_url@ == database_url@,
            r.jwt_secret@ == jwt_secret@,
            r.ai_service_url@ == (match ai_service_url {
                Some(u) => u@,
                None => "http://localhost:8001"@,
            }),
            r.upload_dir@ == (match upload_dir {
                Some(d) => d@,
                None => "./uploads"@,
            }),
            r.max_file_size == (match max_file_size {
                Some(m) => m,
                None => 10485760u64,
            }),
    {
        Config {
            database_url,
            jwt_secret,
            ai_service_url: match ai_service_url {
                Some(u) => u,
                None => String::from_str("http://localhost:8001"),
            },
            upload_dir: match upload_dir {
                Some(d) => d,
                None => String::from_str("./uploads"),
            },
            max_file_size: match max_file_size {
                Some(m) => m,
                None => 10485760,
            },
        }
    }
}

} // verus!
