//! What a client of the redirect server computes: the request it posts and
//! the short link it shows.

use vstd::prelude::*;
use vstd::string::StringExecFns;
use crate::duration::{duration_seconds, parse_duration};
use crate::error::RedirectError;
use crate::types::CreateRedirct;

verus! {

/// A usage count as the server takes it.
pub open spec fn usages_view(usages: Option<u32>) -> Option<int> {
    match usages {
        Some(n) => Some(n as int),
        None => None,
    }
}

/// Builds the request for a link to `target` that lives for `duration`, a
/// string such as `10m` or `1w`, and may be used `usages` times.
///
/// Fails with `InvalidFormat` where `duration` is no duration or is too
/// long. The target and the usage count are passed on as they are: the
/// server judges them.
pub fn redirect_request(target: String, usages: Option<u32>, duration: &str) -> (result: Result<
    CreateRedirct,
    RedirectError,
>)
    ensures
        match result {
            Ok(req) => {
                &&& req.target == target
                &&& duration_seconds(duration@) == Some(req.destory_after as nat)
                &&& req@.remaining_usage == usages_view(usages)
            },
            Err(e) => e == RedirectError::InvalidFormat && match duration_seconds(duration@) {
                Some(seconds) => seconds > u32::MAX,
                None => true,
            },
        },
{
    let destory_after = match parse_duration(duration) {
        Ok(seconds) => seconds,
        Err(e) => {
            return Err(e);
        },
    };
    let remaining_usage = match usages {
        Some(n) => Some(n as i64),
        None => None,
    };
    Ok(CreateRedirct { target, destory_after, remaining_usage })
}

/// The address on `host` that creation requests are posted to.
pub fn create_endpoint(host: &str) -> (address: String)
    ensures
        address@ == host@ + "/r"@,
{
    let mut address = String::from_str(host);
    address.append("/r");
    address
}

/// The short link for `key` on `host`.
pub fn short_link(host: &str, key: &str) -> (link: String)
    ensures
        link@ == host@ + "/r/"@ + key@,
{
    let mut link = String::from_str(host);
    link.append("/r/");
    link.append(key);
    link
}

} // verus!
