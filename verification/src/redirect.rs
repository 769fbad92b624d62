//! The three requests of the redirect server and the replies they get.
//!
//! A request is served at the time the clock shows when it arrives; the
//! service functions that it rests on take that time as an argument.

use vstd::prelude::*;
use crate::error::{ErrorClass, RedirectError};
use crate::key::is_key;
use crate::service::{created, RedirectService};
use crate::store::{lists, resolved, table_after_resolution};
use crate::types::{CreateRedirct, Redirect};

verus! {

/// The status of a reply that carries what was asked for.
pub const STATUS_OK: u16 = 200;

/// The status of a reply that sends the client on to the target.
pub const STATUS_TEMPORARY_REDIRECT: u16 = 307;

/// The status of a reply to a request that is wrong in itself.
pub const STATUS_BAD_REQUEST: u16 = 400;

/// The status of a reply to a key that leads nowhere.
pub const STATUS_NOT_FOUND: u16 = 404;

/// The status of a reply after the store failed.
pub const STATUS_INTERNAL_SERVER_ERROR: u16 = 500;

/// What a request is answered with.
#[derive(Debug, PartialEq, Eq)]
pub enum Reply {
    /// The link was created; the body is its record.
    Created(Redirect),
    /// The body is the list of all records.
    Listing(Vec<Redirect>),
    /// The client is sent on to the target.
    Redirected(String),
    /// The request failed.
    Refused(RedirectError),
}

/// The status that goes with an error of the given class.
pub open spec fn class_status(class: ErrorClass) -> u16 {
    match class {
        ErrorClass::Validation => STATUS_BAD_REQUEST,
        ErrorClass::NotFound => STATUS_NOT_FOUND,
        ErrorClass::Storage => STATUS_INTERNAL_SERVER_ERROR,
    }
}

impl Reply {
    /// The status code of the reply.
    pub open spec fn spec_status(&self) -> u16 {
        match self {
            Reply::Created(_) => STATUS_OK,
            Reply::Listing(_) => STATUS_OK,
            Reply::Redirected(_) => STATUS_TEMPORARY_REDIRECT,
            Reply::Refused(e) => class_status(e.spec_class()),
        }
    }

    /// The status code of the reply.
    #[verifier::when_used_as_spec(spec_status)]
    pub fn status(&self) -> (code: u16)
        ensures
            code == self.spec_status(),
    {
        match self {
            Reply::Created(_) => STATUS_OK,
            Reply::Listing(_) => STATUS_OK,
            Reply::Redirected(_) => STATUS_TEMPORARY_REDIRECT,
            Reply::Refused(e) => match e.class() {
                ErrorClass::Validation => STATUS_BAD_REQUEST,
                ErrorClass::NotFound => STATUS_NOT_FOUND,
                ErrorClass::Storage => STATUS_INTERNAL_SERVER_ERROR,
            },
        }
    }
}

/// The reply to a creation that ended in `result`.
pub fn create_reply(result: Result<Redirect, RedirectError>) -> (reply: Reply)
    ensures
        match result {
            Ok(r) => reply == Reply::Created(r),
            Err(e) => reply == Reply::Refused(e),
        },
{
    match result {
        Ok(r) => Reply::Created(r),
        Err(e) => Reply::Refused(e),
    }
}

/// The reply to a resolution that ended in `result`.
pub fn resolve_reply(result: Result<String, RedirectError>) -> (reply: Reply)
    ensures
        match result {
            Ok(target) => reply == Reply::Redirected(target),
            Err(e) => reply == Reply::Refused(e),
        },
{
    match result {
        Ok(target) => Reply::Redirected(target),
        Err(e) => Reply::Refused(e),
    }
}

/// The system clock through `chrono::Utc::now`, in whole seconds since the
/// Unix epoch (`DateTime::timestamp`). Nothing is claimed of the value: two
/// readings need not even be in order.
#[verifier::external_body]
fn unix_time() -> (now: i64) {
    chrono::Utc::now().timestamp()
}

/// Serves a request for a new short link, as of the time that the clock
/// shows.
///
/// The reply is `Created` with the new record, whose key was free before and
/// leads to the requested target from now on; or `Refused` with the fault of
/// the request (status 400), or with `Storage` (status 500) where no free
/// key was found. A refused request leaves the store as it was.
pub fn create_redirect(service: &mut RedirectService, req: &CreateRedirct) -> (reply: Reply)
    ensures
        match reply {
            Reply::Created(r) => exists|now: int|
                {
                    &&& is_key(r.key@)
                    &&& r@ == req@.record(r.key@, now)
                    &&& #[trigger] created(old(service)@, final(service)@, req@, now, r.key@)
                },
            Reply::Refused(e) => {
                &&& final(service)@ == old(service)@
                &&& match req@.fault() {
                    Some(fault) => e == fault,
                    None => e == RedirectError::Storage && exists|k: Seq<char>|
                        is_key(k) && #[trigger] old(service)@.contains_key(k),
                }
            },
            _ => false,
        },
        reply.status() == STATUS_BAD_REQUEST <==> req@.fault() is Some,
        reply.status() == STATUS_OK <==> reply is Created,
        reply.status() == STATUS_INTERNAL_SERVER_ERROR <==> reply == Reply::Refused(
            RedirectError::Storage,
        ),
{
    let now = unix_time();
    create_reply(service.create(req, now))
}

/// Serves a request for the target of `key`, as of the time that the clock
/// shows: one use is taken from the record under `key`, the record is
/// removed where it is then spent or expired, and the reply is `Redirected`
/// to its target where it is still there, `Refused` with `NotFound` where
/// it is not.
pub fn get_redirect(service: &mut RedirectService, key: &str) -> (reply: Reply)
    ensures
        exists|now: int|
            {
                &&& final(service)@ == #[trigger] table_after_resolution(
                    old(service)@,
                    key@,
                    now,
                )
                &&& match reply {
                    Reply::Redirected(target) => resolved(old(service)@, key@, now) is Some
                        && target@ == resolved(old(service)@, key@, now).unwrap().target,
                    Reply::Refused(e) => e == RedirectError::NotFound && resolved(
                        old(service)@,
                        key@,
                        now,
                    ) is None,
                    _ => false,
                }
            },
        reply.status() == STATUS_TEMPORARY_REDIRECT <==> reply is Redirected,
        reply.status() == STATUS_NOT_FOUND <==> reply is Refused,
{
    let now = unix_time();
    resolve_reply(service.resolve(key, now))
}

/// Serves a request for the list of all records: each record of the store
/// once, none counted down and none removed.
pub fn list_redirects(service: &RedirectService) -> (reply: Reply)
    ensures
        match reply {
            Reply::Listing(all) => lists(all@, service@),
            _ => false,
        },
        reply.status() == STATUS_OK,
{
    Reply::Listing(service.list())
}

} // verus!
