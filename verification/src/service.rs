//! Creating and resolving short links on top of a store.

use vstd::prelude::*;
use crate::error::RedirectError;
use crate::key::{is_key, rand_key};
use crate::retry::{after_insert, Next, MAX_KEY_ATTEMPTS};
use crate::store::{
    lists, resolved, table_after_resolution, InsertOutcome, RedirectStore, Table,
};
use crate::types::{usage_view, CreateRedirct, CreateRedirctView, Redirect};

verus! {

/// Whether `url::Url::parse` accepts `input` as an absolute URL.
pub uninterp spec fn url_parses(input: Seq<char>) -> bool;

/// Asks `url::Url::parse` whether `input` is an absolute URL. The answer
/// depends on `input` alone.
#[verifier::external_body]
fn parses_as_url(input: &str) -> (ok: bool)
    ensures
        ok == url_parses(input@),
{
    url::Url::parse(input).is_ok()
}

/// What is wrong with a request whose target is or is not a URL, as
/// `target_is_url` says, and that asks for `remaining_usage` uses. The
/// target is judged first.
pub open spec fn request_fault(target_is_url: bool, remaining_usage: Option<int>) -> Option<
    RedirectError,
> {
    if !target_is_url {
        Some(RedirectError::InvalidUrl)
    } else {
        match remaining_usage {
            Some(n) => if n <= 0 {
                Some(RedirectError::InvalidUsage)
            } else {
                None
            },
            None => None,
        }
    }
}

impl CreateRedirctView {
    /// What is wrong with the request, if anything.
    pub open spec fn fault(self) -> Option<RedirectError> {
        request_fault(url_parses(self.target), self.remaining_usage)
    }
}

/// A creation at `now` took the table from `before` to `after`: the request
/// has no fault, `key` was free, and the record that serves the request
/// stands under `key` now, beside all that was there.
pub open spec fn created(
    before: Table,
    after: Table,
    req: CreateRedirctView,
    now: int,
    key: Seq<char>,
) -> bool {
    &&& req.fault() is None
    &&& !before.contains_key(key)
    &&& after == before.insert(key, req.record(key, now))
}

/// Judges a request of which it is known whether its target is a URL.
pub fn check_request(target_is_url: bool, remaining_usage: Option<i64>) -> (result: Result<
    (),
    RedirectError,
>)
    ensures
        match result {
            Ok(_) => request_fault(target_is_url, usage_view(remaining_usage)) is None,
            Err(e) => request_fault(target_is_url, usage_view(remaining_usage)) == Some(e),
        },
{
    if !target_is_url {
        return Err(RedirectError::InvalidUrl);
    }
    match remaining_usage {
        Some(n) => if n <= 0 {
            Err(RedirectError::InvalidUsage)
        } else {
            Ok(())
        },
        None => Ok(()),
    }
}

/// Judges a request: its target must be an absolute URL, and its usage
/// budget, where it has one, at least 1.
pub fn validate(req: &CreateRedirct) -> (result: Result<(), RedirectError>)
    ensures
        match result {
            Ok(_) => req@.fault() is None,
            Err(e) => req@.fault() == Some(e),
        },
{
    check_request(parses_as_url(req.target.as_str()), req.remaining_usage)
}

/// The service that creates and resolves short links. It holds the store
/// and nothing else.
pub struct RedirectService {
    pub store: RedirectStore,
}

impl View for RedirectService {
    type V = Table;

    open spec fn view(&self) -> Table {
        self.store@
    }
}

impl RedirectService {
    /// A service on `store`.
    pub fn new(store: RedirectStore) -> (service: Self)
        ensures
            service.store == store,
    {
        RedirectService { store }
    }

    /// Tries to create the link that `req` asks for under the candidate
    /// `key`, at `now`. The request is not judged here.
    pub fn create_with_key(&mut self, req: &CreateRedirct, now: i64, key: String) -> (outcome:
        InsertOutcome)
        ensures
            match outcome {
                InsertOutcome::Inserted => !old(self)@.contains_key(key@) && final(self)@ == old(
                    self,
                )@.insert(key@, req@.record(key@, now as int)),
                InsertOutcome::KeyConflict => old(self)@.contains_key(key@) && final(self)@
                    == old(self)@,
                InsertOutcome::StorageError => false,
            },
    {
        self.store.try_insert(req.record(key, now))
    }

    /// Creates a short link at `now`.
    ///
    /// A request with a fault is refused with that fault, and the store is
    /// left as it is. Otherwise fresh keys are drawn until one is free, at
    /// most `MAX_KEY_ATTEMPTS` of them; the record is stored under the free
    /// key and returned. Where every key drawn was taken the result is
    /// `Storage` and the store is left as it is; that cannot happen while
    /// the store holds no record under a well-formed key.
    pub fn create(&mut self, req: &CreateRedirct, now: i64) -> (result: Result<
        Redirect,
        RedirectError,
    >)
        ensures
            match result {
                Ok(r) => {
                    &&& is_key(r.key@)
                    &&& r@ == req@.record(r.key@, now as int)
                    &&& created(old(self)@, final(self)@, req@, now as int, r.key@)
                },
                Err(e) => {
                    &&& final(self)@ == old(self)@
                    &&& match req@.fault() {
                        Some(fault) => e == fault,
                        None => e == RedirectError::Storage && exists|k: Seq<char>|
                            is_key(k) && #[trigger] old(self)@.contains_key(k),
                    }
                },
            },
    {
        match validate(req) {
            Err(e) => {
                return Err(e);
            },
            Ok(_) => {},
        }
        let mut attempt: u32 = 0;
        loop
            invariant
                attempt < MAX_KEY_ATTEMPTS,
                self@ == old(self)@,
                req@.fault() is None,
            decreases MAX_KEY_ATTEMPTS - attempt,
        {
            attempt = attempt + 1;
            let key = rand_key();
            let record = req.record(key, now);
            let copy = record.clone();
            let outcome = self.store.try_insert(record);
            match after_insert(attempt, outcome) {
                Next::Finish => {
                    return Ok(copy);
                },
                Next::GiveUp => {
                    return Err(RedirectError::Storage);
                },
                Next::Retry => {},
            }
        }
    }

    /// Resolves `key` at `now`: takes one use from the record under `key`
    /// and returns its target, or `NotFound` where no valid record is left
    /// under `key`.
    pub fn resolve(&mut self, key: &str, now: i64) -> (result: Result<String, RedirectError>)
        ensures
            final(self)@ == table_after_resolution(old(self)@, key@, now as int),
            match result {
                Ok(target) => resolved(old(self)@, key@, now as int) is Some && target@
                    == resolved(old(self)@, key@, now as int).unwrap().target,
                Err(e) => e == RedirectError::NotFound && resolved(old(self)@, key@, now as int)
                    is None,
            },
    {
        match self.store.get_and_update_redirect(key, now) {
            Ok(r) => Ok(r.target),
            Err(e) => Err(e),
        }
    }

    /// All records of the store, each once.
    pub fn list(&self) -> (all: Vec<Redirect>)
        ensures
            lists(all@, self@),
    {
        self.store.list_redirects()
    }
}

} // verus!
