use vstd::prelude::*;

verus! {

/// The user's connection settings for the issue tracker.
#[derive(Debug)]
pub struct Config {
    pub atlassian_url: String,
    pub user_email: String,
    pub user_api_token: String,
    pub project: String,
}

} // verus!
