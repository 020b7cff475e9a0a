//! The upstream origin: where a resource is fetched from, and which
//! responses count as success.

use crate::key::CacheKey;
use vstd::prelude::*;
use vstd::string::StringExecFns;

verus! {

/// The address of a resource at the origin.
pub open spec fn url_text(server: Seq<char>, datafile: Seq<char>) -> Seq<char> {
    "https://"@ + server + ".grepolis.com/data/"@ + datafile
}

/// The address from which the resource of `key` is fetched.
pub fn upstream_url(key: &CacheKey) -> (url: String)
    ensures
        url@ == url_text(key.server_view(), key.datafile_view()),
{
    let mut url = String::from_str("https://");
    url.append(key.server());
    url.append(".grepolis.com/data/");
    url.append(key.datafile());
    url
}

/// Whether an HTTP status means success: 200 to 299. A redirect does not.
pub open spec fn is_success(status: u16) -> bool {
    200 <= status < 300
}

/// Whether an HTTP status means success.
pub fn status_is_success(status: u16) -> (b: bool)
    ensures
        b == is_success(status),
{
    200 <= status && status < 300
}

} // verus!
