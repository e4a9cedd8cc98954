//! What the service is configured with.

use vstd::prelude::*;

verus! {

/// Where the action log and the search engine are found.
#[derive(Clone, Debug)]
pub struct Config {
    pub database_url: String,
    pub es_password: String,
    pub es_cloud_id: String,
}

impl Config {
    /// A configuration of the three given settings.
    pub fn new(database_url: String, es_password: String, es_cloud_id: String) -> (config: Config)
        ensures
            config.database_url == database_url,
            config.es_password == es_password,
            config.es_cloud_id == es_cloud_id,
    {
        Config { database_url, es_password, es_cloud_id }
    }
}

} // verus!
