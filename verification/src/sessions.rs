//! The sessions of the users who have signed in to the file browser.
//!
//! A session is known by a random identifier that the user's browser keeps
//! in a cookie, and ends an hour after it was opened.

use vstd::prelude::*;
use crate::key::sample_alphanumeric;

verus! {

/// The number of characters in a session identifier.
pub const SESSION_ID_LENGTH: usize = 16;

/// For how many seconds a session lasts.
pub const SESSION_SECONDS: i64 = 3600;

/// `c` may stand in a session identifier: an ASCII letter of either case
/// or an ASCII digit.
pub open spec fn is_session_symbol(c: char) -> bool {
    ||| '0' <= c <= '9'
    ||| 'A' <= c <= 'Z'
    ||| 'a' <= c <= 'z'
}

/// `s` has the form of a session identifier: `SESSION_ID_LENGTH` session
/// symbols.
pub open spec fn is_session_id(s: Seq<char>) -> bool {
    &&& s.len() == SESSION_ID_LENGTH
    &&& forall|i: int| 0 <= i < s.len() ==> is_session_symbol(#[trigger] s[i])
}

/// When a session that is opened at `now` ends: `SESSION_SECONDS` later, and
/// at the last instant that an `i64` holds where that would lie beyond it.
pub open spec fn session_end(now: int) -> int {
    if now + SESSION_SECONDS <= i64::MAX {
        now + SESSION_SECONDS
    } else {
        i64::MAX as int
    }
}

/// A session as mathematical values: whose it is and when it ends.
pub struct SessionView {
    pub username: Seq<char>,
    pub expires: int,
}

impl SessionView {
    /// The session has not ended at `now`. Its last instant still counts.
    pub open spec fn live_at(self, now: int) -> bool {
        !(self.expires < now)
    }
}

/// The sessions as a mathematical value: the session under each identifier.
pub type SessionTable = Map<Seq<char>, SessionView>;

/// Whose session `id` is at `now`, if it is a session that has not ended.
pub open spec fn session_user(table: SessionTable, id: Seq<char>, now: int) -> Option<
    Seq<char>,
> {
    if table.contains_key(id) && table[id].live_at(now) {
        Some(table[id].username)
    } else {
        None
    }
}

struct SessionRow {
    id: String,
    username: String,
    expires: i64,
}

impl SessionRow {
    spec fn session(self) -> SessionView {
        SessionView { username: self.username@, expires: self.expires as int }
    }
}

/// The sessions that were opened, by identifier. A session that has ended
/// stays where it is; it is merely no longer anyone's.
pub struct Sessions {
    rows: Vec<SessionRow>,
}

/// Row `i` is the latest row with the identifier `id`.
spec fn is_latest(rows: Seq<SessionRow>, i: int, id: Seq<char>) -> bool {
    &&& 0 <= i < rows.len()
    &&& rows[i].id@ == id
    &&& forall|j: int| i < j < rows.len() ==> (#[trigger] rows[j]).id@ != id
}

/// Some row has the identifier `id`.
spec fn is_known(rows: Seq<SessionRow>, id: Seq<char>) -> bool {
    exists|i: int| is_latest(rows, i, id)
}

/// The latest row with the identifier `id`.
spec fn latest(rows: Seq<SessionRow>, id: Seq<char>) -> int {
    choose|i: int| is_latest(rows, i, id)
}

/// The table that the rows make up: under each identifier the latest row
/// that has it.
spec fn table_of(rows: Seq<SessionRow>) -> SessionTable {
    Map::new(|id: Seq<char>| is_known(rows, id), |id: Seq<char>| rows[latest(rows, id)].session())
}

/// A row that is the latest with its identifier is the one in the table.
proof fn lemma_latest_is_in_table(rows: Seq<SessionRow>, i: int, id: Seq<char>)
    requires
        is_latest(rows, i, id),
    ensures
        table_of(rows).contains_key(id),
        table_of(rows)[id] == rows[i].session(),
{
}

/// Among the rows before the last, a row is the latest with an identifier
/// other than the last row's exactly if it is so among all rows.
proof fn lemma_latest_before_last(rows: Seq<SessionRow>, row: SessionRow, i: int, id: Seq<char>)
    requires
        id != row.id@,
    ensures
        is_latest(rows.push(row), i, id) <==> is_latest(rows, i, id),
{
    let more = rows.push(row);
    if is_latest(more, i, id) {
        assert forall|j: int| i < j < rows.len() implies (#[trigger] rows[j]).id@ != id by {
            assert(more[j] == rows[j]);
        }
    }
}

/// A row put at the end takes the place of its identifier in the table.
proof fn lemma_table_push(rows: Seq<SessionRow>, row: SessionRow)
    ensures
        table_of(rows.push(row)) == table_of(rows).insert(row.id@, row.session()),
{
    let more = rows.push(row);
    let last = rows.len() as int;
    let wanted = table_of(rows).insert(row.id@, row.session());
    lemma_latest_is_in_table(more, last, row.id@);
    assert forall|id: Seq<char>| table_of(more).contains_key(id) <==> wanted.contains_key(id) by {
        if id != row.id@ {
            if is_known(more, id) {
                let i = latest(more, id);
                lemma_latest_before_last(rows, row, i, id);
            }
            if is_known(rows, id) {
                let i = latest(rows, id);
                lemma_latest_before_last(rows, row, i, id);
            }
        }
    }
    assert forall|id: Seq<char>| table_of(more).contains_key(id) implies table_of(more)[id]
        == wanted[id] by {
        if id != row.id@ {
            let i = latest(more, id);
            lemma_latest_before_last(rows, row, i, id);
            lemma_latest_is_in_table(rows, i, id);
        }
    }
}

/// The clock through `time::OffsetDateTime::now_utc`, in whole seconds
/// since the Unix epoch (`OffsetDateTime::unix_timestamp`). Nothing is
/// claimed of the value.
#[verifier::external_body]
fn unix_time() -> (now: i64) {
    time::OffsetDateTime::now_utc().unix_timestamp()
}

/// Draws a fresh session identifier: `SESSION_ID_LENGTH` characters, each
/// drawn on its own from the ASCII letters of both cases and the digits.
pub fn session_id() -> (id: String)
    ensures
        is_session_id(id@),
{
    let mut id = String::new();
    let mut i: usize = 0;
    while i < SESSION_ID_LENGTH
        invariant
            i <= SESSION_ID_LENGTH,
            id@.len() == i,
            forall|j: int| 0 <= j < id@.len() ==> is_session_symbol(#[trigger] id@[j]),
        decreases SESSION_ID_LENGTH - i,
    {
        let sample = sample_alphanumeric();
        let symbol = sample as char;
        id.push(symbol);
        i = i + 1;
    }
    id
}

impl View for Sessions {
    type V = SessionTable;

    closed spec fn view(&self) -> SessionTable {
        table_of(self.rows@)
    }
}

impl Sessions {
    /// No sessions.
    pub fn new() -> (sessions: Self)
        ensures
            sessions@ == SessionTable::empty(),
    {
        let sessions = Sessions { rows: Vec::new() };
        sessions
    }

    /// Opens a session for `username` under `id` at `now`. A session that
    /// was known under `id` before is replaced.
    pub fn open_at(&mut self, id: String, username: String, now: i64)
        ensures
            final(self)@ == old(self)@.insert(
                id@,
                SessionView { username: username@, expires: session_end(now as int) },
            ),
    {
        let expires = match now.checked_add(SESSION_SECONDS) {
            Some(end) => end,
            None => i64::MAX,
        };
        let row = SessionRow { id, username, expires };
        proof {
            lemma_table_push(self.rows@, row);
        }
        self.rows.push(row);
    }

    /// Whose session `id` is at `now`: the user's name where `id` is a
    /// session that has not ended, `None` otherwise.
    pub fn user_at(&self, id: &str, now: i64) -> (user: Option<String>)
        ensures
            match user {
                Some(name) => session_user(self@, id@, now as int) == Some(name@),
                None => session_user(self@, id@, now as int) is None,
            },
    {
        let wanted = id.to_owned();
        let mut i: usize = self.rows.len();
        while i > 0
            invariant
                wanted@ == id@,
                i <= self.rows@.len(),
                forall|j: int| i <= j < self.rows@.len() ==> (#[trigger] self.rows@[j]).id@ != id@,
            decreases i,
        {
            i = i - 1;
            if self.rows[i].id == wanted {
                proof {
                    lemma_latest_is_in_table(self.rows@, i as int, id@);
                }
                if self.rows[i].expires < now {
                    return None;
                }
                return Some(self.rows[i].username.clone());
            }
        }
        None
    }

    /// Opens a session for `username` as of the time that the clock shows,
    /// under a fresh random identifier, and returns the identifier.
    pub fn open(&mut self, username: String) -> (id: String)
        ensures
            is_session_id(id@),
            exists|now: int|
                final(self)@ == old(self)@.insert(
                    id@,
                    SessionView { username: username@, expires: #[trigger] session_end(now) },
                ),
    {
        let id = session_id();
        let now = unix_time();
        self.open_at(id.clone(), username, now);
        proof {
            assert(self@ == old(self)@.insert(
                id@,
                SessionView { username: username@, expires: session_end(now as int) },
            ));
        }
        id
    }

    /// Whose session `id` is as of the time that the clock shows.
    pub fn user(&self, id: &str) -> (user: Option<String>)
        ensures
            exists|now: int|
                match user {
                    Some(name) => #[trigger] session_user(self@, id@, now) == Some(name@),
                    None => session_user(self@, id@, now) is None,
                },
    {
        let now = unix_time();
        let user = self.user_at(id, now);
        proof {
            let t = now as int;
            assert(match user {
                Some(name) => session_user(self@, id@, t) == Some(name@),
                None => session_user(self@, id@, t) is None,
            });
        }
        user
    }
}

} // verus!
