//! The persisted configuration record. Reading and writing the file is the
//! surrounding program's business; the library only holds the values and
//! their defaults.

use vstd::prelude::*;

verus! {

/// The endpoint used for block and fee data when no custom one is set.
pub const DEFAULT_MEMPOOL_API_URL: &'static str = "https://mempool.space/api";

/// The persisted configuration: whether a custom explorer endpoint is in
/// use, and which.
#[derive(Debug)]
pub struct AppConfig {
    pub mempool_custom_url_enabled: bool,
    pub mempool_api_url: String,
}

impl Clone for AppConfig {
    fn clone(&self) -> (r: Self)
        ensures
            r == *self,
    {
        AppConfig {
            mempool_custom_url_enabled: self.mempool_custom_url_enabled,
            mempool_api_url: self.mempool_api_url.clone(),
        }
    }
}

impl Default for AppConfig {
    /// The default configuration: the stock endpoint, custom URL disabled.
    fn default() -> (r: Self)
        ensures
            r.mempool_custom_url_enabled == false,
            r.mempool_api_url@ == DEFAULT_MEMPOOL_API_URL@,
    {
        AppConfig {
            mempool_custom_url_enabled: false,
            mempool_api_url: DEFAULT_MEMPOOL_API_URL.to_owned(),
        }
    }
}

} // verus!
