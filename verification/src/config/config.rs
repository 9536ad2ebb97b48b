//! The database configuration, read from the values of two settings.
use vstd::prelude::*;
use crate::text::{parse_u32, read_u32};

verus! {

/// The pool size used when `MAX_CONNECTIONS` is absent or no number.
pub const DEFAULT_MAX_CONNECTIONS: u32 = 10u32;

#[derive(Debug, Clone)]
pub struct DatabaseConfig {
    pub url: String,
    pub max_connections: u32,
}

/// The error for a missing database URL.
pub open spec fn missing_url_message() -> Seq<char> {
    "DATABASE_URL env variable is missing"@
}

/// The pool size that the text of `MAX_CONNECTIONS` sets.
pub open spec fn max_connections_of(text: Option<Seq<char>>) -> u32 {
    match text {
        Some(t) => match parse_u32(t) {
            Some(n) => n,
            None => DEFAULT_MAX_CONNECTIONS,
        },
        None => DEFAULT_MAX_CONNECTIONS,
    }
}

impl DatabaseConfig {
    /// The configuration that the values of `DATABASE_URL` and `MAX_CONNECTIONS`
    /// give (`None` for an absent setting): the URL is required; the pool size is
    /// the decimal number of `MAX_CONNECTIONS`, or 10 when it is absent or no `u32`.
    pub fn from_values(url: Option<String>, max_connections: Option<String>) -> (r: Result<
        DatabaseConfig,
        String,
    >)
        ensures
            match url {
                None => r matches Err(m) && m@ == missing_url_message(),
                Some(u) => r matches Ok(c) && c.url == u && c.max_connections == max_connections_of(
                    match max_connections {
                        Some(t) => Some(t@),
                        None => None,
                    },
                ),
            },
    {
        let url = match url {
            Some(u) => u,
            None => {
                return Err(String::from_str("DATABASE_URL env variable is missing"));
            },
        };
        let max_connections = match max_connections {
            Some(t) => match read_u32(t.as_str()) {
                Some(n) => n,
                None => DEFAULT_MAX_CONNECTIONS,
            },
            None => DEFAULT_MAX_CONNECTIONS,
        };
        Ok(DatabaseConfig { url, max_connections })
    }
}

} // verus!
