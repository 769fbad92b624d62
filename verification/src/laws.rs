//! What holds of every run of creations and resolutions, stated over the
//! tables that the service's operations take a store through.

use vstd::prelude::*;
use crate::service::created;
use crate::store::{resolved, table_after_resolution, Table};
use crate::types::{CreateRedirctView, RedirectView};

verus! {

/// The table after `key` was resolved once at each of `times`, in order.
pub open spec fn table_after_resolutions(table: Table, key: Seq<char>, times: Seq<int>) -> Table
    decreases times.len(),
{
    if times.len() == 0 {
        table
    } else {
        table_after_resolution(
            table_after_resolutions(table, key, times.drop_last()),
            key,
            times.last(),
        )
    }
}

/// A link that was just created resolves to its target at every instant
/// before its expiry.
///
/// A link with a lifetime of zero seconds has no such instant: it is already
/// expired when it is created.
pub proof fn law_created_link_resolves(
    before: Table,
    after: Table,
    req: CreateRedirctView,
    now: int,
    key: Seq<char>,
    at: int,
)
    requires
        created(before, after, req, now, key),
        at < req.expiry(now),
    ensures
        resolved(after, key, at) is Some,
        resolved(after, key, at).unwrap().target == req.target,
{
}

/// While a record with `n` uses left has not expired, it has `n - i` uses
/// left after `i` resolutions, for every `i` up to `n`.
proof fn lemma_uses_left(table: Table, key: Seq<char>, times: Seq<int>, n: int, i: int)
    requires
        table.contains_key(key),
        table[key].remaining_usage == Some(n),
        0 <= i <= n,
        i <= times.len(),
        forall|j: int| 0 <= j < i ==> times[j] < table[key].destory_after,
    ensures
        table_after_resolutions(table, key, times.take(i)).contains_key(key),
        table_after_resolutions(table, key, times.take(i))[key] == (RedirectView {
            remaining_usage: Some(n - i),
            ..table[key]
        }),
    decreases i,
{
    if i > 0 {
        lemma_uses_left(table, key, times, n, i - 1);
        assert(times.take(i).drop_last() == times.take(i - 1));
    }
}

/// A record with a budget of `n` uses serves exactly `n` resolutions: as
/// long as it has not expired, each of the first `n` resolutions finds its
/// target, and the one after them finds nothing, whenever it comes.
pub proof fn law_budget_is_exact(table: Table, key: Seq<char>, times: Seq<int>, n: int)
    requires
        table.contains_key(key),
        table[key].remaining_usage == Some(n),
        1 <= n,
        times.len() == n + 1,
        forall|i: int| 0 <= i < n ==> times[i] < table[key].destory_after,
    ensures
        forall|i: int|
            0 <= i < n ==> (#[trigger] resolved(
                table_after_resolutions(table, key, times.take(i)),
                key,
                times[i],
            )) is Some && resolved(
                table_after_resolutions(table, key, times.take(i)),
                key,
                times[i],
            ).unwrap().target == table[key].target,
        resolved(table_after_resolutions(table, key, times.take(n)), key, times[n]) is None,
        !table_after_resolutions(table, key, times).contains_key(key),
{
    assert forall|i: int| 0 <= i < n implies (#[trigger] resolved(
        table_after_resolutions(table, key, times.take(i)),
        key,
        times[i],
    )) is Some && resolved(
        table_after_resolutions(table, key, times.take(i)),
        key,
        times[i],
    ).unwrap().target == table[key].target by {
        lemma_uses_left(table, key, times, n, i);
    }
    lemma_uses_left(table, key, times, n, n);
}

/// A record whose expiry has come is not found, and the resolution that
/// finds it so removes it.
pub proof fn law_expired_is_not_found(table: Table, key: Seq<char>, at: int)
    requires
        table.contains_key(key),
        table[key].destory_after <= at,
    ensures
        resolved(table, key, at) is None,
        !table_after_resolution(table, key, at).contains_key(key),
{
}

/// A link created with a lifetime of zero seconds is not found by the first
/// resolution after its creation, nor by any later one.
pub proof fn law_zero_lifetime_is_not_found(
    before: Table,
    after: Table,
    req: CreateRedirctView,
    now: int,
    key: Seq<char>,
    at: int,
)
    requires
        created(before, after, req, now, key),
        req.destory_after == 0,
        now <= at,
    ensures
        resolved(after, key, at) is None,
        !table_after_resolution(after, key, at).contains_key(key),
{
}

/// Two creations on one store, one after the other, give two different
/// keys, and afterwards each key leads to the target of its own request.
pub proof fn law_created_keys_differ(
    start: Table,
    middle: Table,
    end: Table,
    first: CreateRedirctView,
    first_now: int,
    first_key: Seq<char>,
    second: CreateRedirctView,
    second_now: int,
    second_key: Seq<char>,
)
    requires
        created(start, middle, first, first_now, first_key),
        created(middle, end, second, second_now, second_key),
    ensures
        first_key != second_key,
        end.contains_key(first_key) && end[first_key].target == first.target,
        end.contains_key(second_key) && end[second_key].target == second.target,
{
}

/// A resolution leaves under its key only a record that is valid at that
/// instant, and leaves every other key as it was.
pub proof fn law_resolution_leaves_valid(table: Table, key: Seq<char>, now: int)
    ensures
        table_after_resolution(table, key, now).contains_key(key) ==> table_after_resolution(
            table,
            key,
            now,
        )[key].valid_at(now),
        forall|k: Seq<char>|
            k != key ==> (#[trigger] table_after_resolution(table, key, now).contains_key(k)
                <==> table.contains_key(k)),
        forall|k: Seq<char>|
            k != key && table.contains_key(k) ==> #[trigger] table_after_resolution(
                table,
                key,
                now,
            )[k] == table[k],
{
}

} // verus!
