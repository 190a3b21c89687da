//! The minimal post endpoint: its request shape and acknowledgement.

use vstd::prelude::*;
use vstd::string::StringExecFns;

verus! {

/// A request to the minimal post endpoint.
#[derive(Debug, Clone)]
pub struct PostDownloadRequest {
    pub url: String,
    pub browser: Option<String>,
}

/// The acknowledgement the endpoint answers with.
pub fn post_started_message(url: &str) -> (r: String)
    ensures
        r@ == ("✅ Post download started for URL: ")@ + url@,
{
    let mut s = String::from_str("✅ Post download started for URL: ");
    s.append(url);
    s
}

} // verus!
