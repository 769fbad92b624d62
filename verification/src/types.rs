//! The record behind a short link, and the request that creates one.

use vstd::prelude::*;

verus! {

/// A short link as it is stored: the key, where it leads, when it ends and
/// how often it may still be used.
///
/// Times are whole seconds since the Unix epoch.
#[derive(Debug, PartialEq, Eq)]
pub struct Redirect {
    /// What identifies the record; no two records of a store share it.
    pub key: String,
    /// The URL that the key leads to.
    pub target: String,
    /// The instant from which on the record is no longer served.
    pub destory_after: i64,
    /// The uses that are left; `None` for a record without a usage limit.
    pub remaining_usage: Option<i64>,
}

/// What a `Redirect` holds, as mathematical values.
pub struct RedirectView {
    pub key: Seq<char>,
    pub target: Seq<char>,
    pub destory_after: int,
    pub remaining_usage: Option<int>,
}

/// `usage` as an unbounded integer.
pub open spec fn usage_view(usage: Option<i64>) -> Option<int> {
    match usage {
        Some(n) => Some(n as int),
        None => None,
    }
}

impl View for Redirect {
    type V = RedirectView;

    open spec fn view(&self) -> RedirectView {
        RedirectView {
            key: self.key@,
            target: self.target@,
            destory_after: self.destory_after as int,
            remaining_usage: usage_view(self.remaining_usage),
        }
    }
}

impl RedirectView {
    /// The end of the record's life has come at `now`.
    pub open spec fn expired(self, now: int) -> bool {
        self.destory_after <= now
    }

    /// More uses were taken than the record had.
    pub open spec fn spent(self) -> bool {
        match self.remaining_usage {
            Some(n) => n < 0,
            None => false,
        }
    }

    /// The record may be served at `now`: it is neither spent nor expired.
    pub open spec fn valid_at(self, now: int) -> bool {
        !self.spent() && !self.expired(now)
    }

    /// The record after one use was taken from it. A record without a usage
    /// limit stays as it is.
    pub open spec fn counted_down(self) -> RedirectView {
        RedirectView {
            remaining_usage: match self.remaining_usage {
                Some(n) => Some(n - 1),
                None => None,
            },
            ..self
        }
    }

    /// What one resolution at `now` leaves of the record: the record with one
    /// use less where that is still valid at `now`, and nothing otherwise.
    pub open spec fn after_resolution(self, now: int) -> Option<RedirectView> {
        if self.counted_down().valid_at(now) {
            Some(self.counted_down())
        } else {
            None
        }
    }
}

impl Clone for Redirect {
    fn clone(&self) -> (copy: Self)
        ensures
            copy == *self,
    {
        Redirect {
            key: self.key.clone(),
            target: self.target.clone(),
            destory_after: self.destory_after,
            remaining_usage: self.remaining_usage,
        }
    }
}

impl Redirect {
    /// Takes one use from the record at `now` and says what is left to store:
    /// the updated record, or `None` where the record has to go because it is
    /// spent or expired.
    pub fn countdown(self, now: i64) -> (left: Option<Redirect>)
        ensures
            match left {
                Some(r) => self@.after_resolution(now as int) == Some(r@),
                None => self@.after_resolution(now as int) is None,
            },
    {
        if self.destory_after <= now {
            return None;
        }
        match self.remaining_usage {
            None => Some(self),
            Some(n) => {
                if n <= 0 {
                    None
                } else {
                    Some(
                        Redirect {
                            key: self.key,
                            target: self.target,
                            destory_after: self.destory_after,
                            remaining_usage: Some(n - 1),
                        },
                    )
                }
            },
        }
    }
}

/// A request for a new short link.
#[derive(Debug, PartialEq, Eq)]
pub struct CreateRedirct {
    /// The URL that the new key shall lead to.
    pub target: String,
    /// For how many seconds the link shall live.
    pub destory_after: u32,
    /// How often the link may be used; `None` for no limit.
    pub remaining_usage: Option<i64>,
}

/// What a `CreateRedirct` holds, as mathematical values.
pub struct CreateRedirctView {
    pub target: Seq<char>,
    pub destory_after: int,
    pub remaining_usage: Option<int>,
}

impl View for CreateRedirct {
    type V = CreateRedirctView;

    open spec fn view(&self) -> CreateRedirctView {
        CreateRedirctView {
            target: self.target@,
            destory_after: self.destory_after as int,
            remaining_usage: usage_view(self.remaining_usage),
        }
    }
}

/// The last instant that a record can hold.
pub open spec fn last_instant() -> int {
    i64::MAX as int
}

impl CreateRedirctView {
    /// The usage budget is acceptable: there is none, or it is at least 1.
    pub open spec fn usage_ok(self) -> bool {
        match self.remaining_usage {
            Some(n) => n > 0,
            None => true,
        }
    }

    /// When a link requested at `now` ends: `destory_after` seconds later,
    /// and at the last instant where that would lie beyond it.
    pub open spec fn expiry(self, now: int) -> int {
        if now + self.destory_after <= last_instant() {
            now + self.destory_after
        } else {
            last_instant()
        }
    }

    /// The record that serves this request under `key` from `now` on.
    pub open spec fn record(self, key: Seq<char>, now: int) -> RedirectView {
        RedirectView {
            key,
            target: self.target,
            destory_after: self.expiry(now),
            remaining_usage: self.remaining_usage,
        }
    }
}

impl Clone for CreateRedirct {
    fn clone(&self) -> (copy: Self)
        ensures
            copy == *self,
    {
        CreateRedirct {
            target: self.target.clone(),
            destory_after: self.destory_after,
            remaining_usage: self.remaining_usage,
        }
    }
}

impl CreateRedirct {
    /// Builds the record that serves this request under `key` from `now` on.
    pub fn record(&self, key: String, now: i64) -> (r: Redirect)
        ensures
            r@ == self@.record(key@, now as int),
    {
        let ttl: i64 = self.destory_after as i64;
        let destory_after = match now.checked_add(ttl) {
            Some(end) => end,
            None => i64::MAX,
        };
        Redirect {
            key,
            target: self.target.clone(),
            destory_after,
            remaining_usage: self.remaining_usage,
        }
    }
}

} // verus!
