//! The cloud API's address.
use vstd::prelude::*;

verus! {

/// Where the cloud API answers.
pub struct APIConfig {
    pub url: String,
}

/// The cloud API of growbe.
pub fn get_default_api_config() -> (r: APIConfig)
    ensures
        r.url@ == "https://api.growbe.ca"@,
{
    APIConfig { url: String::from_str("https://api.growbe.ca") }
}

/// The address of `path` on the cloud API.
pub fn get_api_url(api: &APIConfig, path: String) -> (r: String)
    ensures
        r@ == api.url@ + path@,
{
    api.url.clone().concat(path.as_str())
}

} // verus!
