//! The table of redirect records, with the two operations that change it.
//!
//! Each operation takes the store by `&mut`, so a caller sees a table only
//! before or after an operation, never in between.

use vstd::prelude::*;
use crate::error::RedirectError;
use crate::types::{Redirect, RedirectView};

verus! {

/// The table as a mathematical value: the record under each key.
pub type Table = Map<Seq<char>, RedirectView>;

/// What resolving `key` at `now` finds in `table`: the record under `key`
/// with one use less, where there is a record and it is then still valid.
pub open spec fn resolved(table: Table, key: Seq<char>, now: int) -> Option<RedirectView> {
    if table.contains_key(key) {
        table[key].after_resolution(now)
    } else {
        None
    }
}

/// The table after `key` was resolved at `now`: the record under `key` has
/// one use less, or is gone where it was no longer valid. Other records are
/// as they were.
pub open spec fn table_after_resolution(table: Table, key: Seq<char>, now: int) -> Table {
    match resolved(table, key, now) {
        Some(r) => table.insert(key, r),
        None => table.remove(key),
    }
}

/// `all` lists `table`: every record of the table is in `all`, once, and
/// nothing else is.
pub open spec fn lists(all: Seq<Redirect>, table: Table) -> bool {
    &&& forall|i: int|
        0 <= i < all.len() ==> table.contains_key(#[trigger] all[i].key@) && table[all[i].key@]
            == all[i]@
    &&& forall|i: int, j: int| 0 <= i < j < all.len() ==> all[i].key@ != all[j].key@
    &&& forall|k: Seq<char>|
        table.contains_key(k) ==> exists|i: int| 0 <= i < all.len() && #[trigger] all[i].key@ == k
}

/// How an attempt to insert a record ended.
#[derive(Debug, Clone, Copy, PartialEq, Eq, Structural)]
pub enum InsertOutcome {
    /// The record is stored.
    Inserted,
    /// Another record has the key; nothing was stored.
    KeyConflict,
    /// The storage failed; nothing is known to be stored.
    StorageError,
}

/// A table of redirect records in which no two records share a key.
pub struct RedirectStore {
    rows: Vec<Redirect>,
}

/// No two rows share a key.
spec fn distinct_keys(rows: Seq<Redirect>) -> bool {
    forall|i: int, j: int| 0 <= i < j < rows.len() ==> rows[i].key@ != rows[j].key@
}

/// Some row has the key `k`.
spec fn has_key(rows: Seq<Redirect>, k: Seq<char>) -> bool {
    exists|i: int| 0 <= i < rows.len() && #[trigger] rows[i].key@ == k
}

/// The position of a row with the key `k`.
spec fn row_of(rows: Seq<Redirect>, k: Seq<char>) -> int {
    choose|i: int| 0 <= i < rows.len() && #[trigger] rows[i].key@ == k
}

/// The table that the rows make up.
spec fn table_of(rows: Seq<Redirect>) -> Table {
    Map::new(|k: Seq<char>| has_key(rows, k), |k: Seq<char>| rows[row_of(rows, k)]@)
}

/// Each row is in the table under its own key, and each key of the table is
/// that of a row.
proof fn lemma_rows_in_table(rows: Seq<Redirect>)
    requires
        distinct_keys(rows),
    ensures
        forall|i: int|
            0 <= i < rows.len() ==> table_of(rows).contains_key(#[trigger] rows[i].key@)
                && table_of(rows)[rows[i].key@] == rows[i]@,
        forall|k: Seq<char>| #[trigger]
            table_of(rows).contains_key(k) ==> 0 <= row_of(rows, k) < rows.len() && rows[row_of(
                rows,
                k,
            )].key@ == k,
{
}

/// A row with a new key, put at the end, adds its record to the table.
proof fn lemma_table_push(rows: Seq<Redirect>, r: Redirect)
    requires
        distinct_keys(rows),
        !has_key(rows, r.key@),
    ensures
        distinct_keys(rows.push(r)),
        table_of(rows.push(r)) == table_of(rows).insert(r.key@, r@),
{
    let more = rows.push(r);
    lemma_rows_in_table(rows);
    lemma_rows_in_table(more);
    assert forall|k: Seq<char>| table_of(more).contains_key(k) <==> table_of(rows).insert(
        r.key@,
        r@,
    ).contains_key(k) by {
        if table_of(rows).contains_key(k) {
            assert(more[row_of(rows, k)].key@ == k);
        }
        if k == r.key@ {
            assert(more[rows.len() as int].key@ == k);
        }
    }
}

/// Taking a row out takes its record out of the table.
proof fn lemma_table_remove(rows: Seq<Redirect>, at: int)
    requires
        distinct_keys(rows),
        0 <= at < rows.len(),
    ensures
        distinct_keys(rows.remove(at)),
        !has_key(rows.remove(at), rows[at].key@),
        table_of(rows.remove(at)) == table_of(rows).remove(rows[at].key@),
{
    let fewer = rows.remove(at);
    let gone = rows[at].key@;
    lemma_rows_in_table(rows);
    lemma_rows_in_table(fewer);
    assert forall|k: Seq<char>| table_of(fewer).contains_key(k) <==> table_of(rows).remove(
        gone,
    ).contains_key(k) by {
        if table_of(rows).contains_key(k) && k != gone {
            let a = row_of(rows, k);
            assert(fewer[if a < at { a } else { a - 1 }].key@ == k);
        }
    }
}

/// A row with a new key, put in at any place, adds its record to the table.
proof fn lemma_table_insert(rows: Seq<Redirect>, at: int, r: Redirect)
    requires
        distinct_keys(rows),
        !has_key(rows, r.key@),
        0 <= at <= rows.len(),
    ensures
        distinct_keys(rows.insert(at, r)),
        table_of(rows.insert(at, r)) == table_of(rows).insert(r.key@, r@),
{
    let more = rows.insert(at, r);
    assert(more.remove(at) =~= rows);
    lemma_table_remove(more, at);
    lemma_rows_in_table(more);
}

impl View for RedirectStore {
    type V = Table;

    closed spec fn view(&self) -> Table {
        table_of(self.rows@)
    }
}

impl RedirectStore {
    #[verifier::type_invariant]
    spec fn well_formed(self) -> bool {
        distinct_keys(self.rows@)
    }

    /// A store without records.
    pub fn new() -> (store: Self)
        ensures
            store@ == Table::empty(),
    {
        let store = RedirectStore { rows: Vec::new() };
        store
    }

    /// The position of the row with the given key.
    fn position(&self, key: &String) -> (at: Option<usize>)
        ensures
            match at {
                Some(i) => i < self.rows@.len() && self.rows@[i as int].key@ == key@,
                None => !has_key(self.rows@, key@),
            },
    {
        let mut i: usize = 0;
        while i < self.rows.len()
            invariant
                i <= self.rows@.len(),
                forall|j: int| 0 <= j < i ==> self.rows@[j].key@ != key@,
            decreases self.rows@.len() - i,
        {
            if self.rows[i].key == *key {
                return Some(i);
            }
            i = i + 1;
        }
        None
    }

    /// Whether a record has the given key.
    pub fn contains_key(&self, key: &str) -> (found: bool)
        ensures
            found == self@.contains_key(key@),
    {
        let key = key.to_owned();
        let at = self.position(&key);
        proof {
            use_type_invariant(self);
            lemma_rows_in_table(self.rows@);
        }
        at.is_some()
    }

    /// Stores `record` unless a record with its key exists already. The test
    /// and the insertion are one step.
    pub fn try_insert(&mut self, record: Redirect) -> (outcome: InsertOutcome)
        ensures
            match outcome {
                InsertOutcome::Inserted => !old(self)@.contains_key(record.key@) && final(self)@
                    == old(self)@.insert(record.key@, record@),
                InsertOutcome::KeyConflict => old(self)@.contains_key(record.key@) && final(self)@
                    == old(self)@,
                InsertOutcome::StorageError => false,
            },
    {
        proof {
            use_type_invariant(&*self);
            lemma_rows_in_table(self.rows@);
        }
        match self.position(&record.key) {
            Some(_) => InsertOutcome::KeyConflict,
            None => {
                proof {
                    lemma_table_push(self.rows@, record);
                }
                let mut rows: Vec<Redirect> = Vec::new();
                std::mem::swap(&mut self.rows, &mut rows);
                rows.push(record);
                std::mem::swap(&mut self.rows, &mut rows);
                InsertOutcome::Inserted
            },
        }
    }

    /// Resolves `key` at `now`, as one step: takes one use from the record
    /// under `key`, removes the record where it is then spent or expired, and
    /// returns the record as it is stored afterwards. `NotFound` where no
    /// record is left under `key`, whether or not there was one before.
    pub fn get_and_update_redirect(&mut self, key: &str, now: i64) -> (result: Result<
        Redirect,
        RedirectError,
    >)
        ensures
            final(self)@ == table_after_resolution(old(self)@, key@, now as int),
            match result {
                Ok(r) => resolved(old(self)@, key@, now as int) == Some(r@),
                Err(e) => e == RedirectError::NotFound && resolved(old(self)@, key@, now as int)
                    is None,
            },
    {
        proof {
            use_type_invariant(&*self);
            lemma_rows_in_table(self.rows@);
        }
        let key = key.to_owned();
        match self.position(&key) {
            None => {
                Err(RedirectError::NotFound)
            },
            Some(at) => {
                proof {
                    lemma_table_remove(self.rows@, at as int);
                }
                let mut rows: Vec<Redirect> = Vec::new();
                std::mem::swap(&mut self.rows, &mut rows);
                let row = rows.remove(at);
                let result = match row.countdown(now) {
                    None => Err(RedirectError::NotFound),
                    Some(left) => {
                        let copy = left.clone();
                        proof {
                            lemma_table_insert(rows@, at as int, left);
                            assert(old(self)@.remove(key@).insert(key@, left@) =~= old(
                                self,
                            )@.insert(key@, left@));
                        }
                        rows.insert(at, left);
                        Ok(copy)
                    },
                };
                std::mem::swap(&mut self.rows, &mut rows);
                result
            },
        }
    }

    /// All records, each once. Nothing is counted down and nothing removed.
    pub fn list_redirects(&self) -> (all: Vec<Redirect>)
        ensures
            lists(all@, self@),
    {
        proof {
            use_type_invariant(self);
            lemma_rows_in_table(self.rows@);
        }
        let mut all: Vec<Redirect> = Vec::new();
        let mut i: usize = 0;
        while i < self.rows.len()
            invariant
                i <= self.rows@.len(),
                all@.len() == i,
                forall|j: int| 0 <= j < i ==> all@[j] == self.rows@[j],
            decreases self.rows@.len() - i,
        {
            all.push(self.rows[i].clone());
            i = i + 1;
        }
        assert forall|k: Seq<char>| self@.contains_key(k) implies exists|i: int|
            0 <= i < all@.len() && #[trigger] all@[i].key@ == k by {
            let i = row_of(self.rows@, k);
            assert(all@[i].key@ == k);
        }
        all
    }
}

/// In every store, a record stands under its own key.
pub proof fn lemma_record_under_own_key(store: RedirectStore, key: Seq<char>)
    requires
        store@.contains_key(key),
    ensures
        store@[key].key == key,
{
}

} // verus!
