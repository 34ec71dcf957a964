use vstd::prelude::*;

use std::collections::HashMap;
use vstd::multiset::Multiset;

use crate::error::Error;

verus! {

broadcast use vstd::std_specs::hash::group_hash_axioms;

/// The active session registry: one open session per user at most, keyed by
/// user id and holding the moment the session started, in Unix seconds. The
/// raw map is never exposed; callers go through `user_joined` / `user_left`.
#[derive(Debug)]
pub struct VoiceStats {
    active_sessions: HashMap<u64, u64>,
}

/// A closed session, ready to be persisted: who, for how long, and when it
/// closed. The username is the snapshot taken at event time.
#[derive(Debug)]
pub struct SessionRecord {
    pub user_id: u64,
    pub username: String,
    pub duration_seconds: u64,
    pub occurred_at: u64,
}

/// One row of a period report, already aggregated per user.
#[derive(Debug)]
pub struct UserStats {
    pub username: String,
    pub total_seconds: u64,
    pub total_sessions: u32,
}

/// The calendar bucket a report covers.
#[derive(Clone, Copy, Debug, PartialEq, Eq, Structural)]
pub enum StatsPeriod {
    Weekly,
    Monthly,
}

/// The elapsed time between joining and leaving; a clock that moved backwards
/// yields zero rather than wrapping.
pub open spec fn spec_duration(joined_at: u64, now: u64) -> u64 {
    if now >= joined_at {
        (now - joined_at) as u64
    } else {
        0
    }
}

/// Relies on chrono::Utc::now: the current wall-clock time in Unix seconds.
/// The value depends on the environment, so nothing is promised of it.
#[verifier::external_body]
fn unix_now_raw() -> (t: i64) {
    chrono::Utc::now().timestamp()
}

/// The current time clamped to the Unix epoch at the low end, so that
/// timestamps are plain unsigned seconds.
fn unix_now() -> (t: u64) {
    let raw = unix_now_raw();
    if raw < 0 {
        0
    } else {
        raw as u64
    }
}

impl VoiceStats {
    /// The registry content: user id to session start time.
    pub closed spec fn sessions(self) -> Map<u64, u64> {
        self.active_sessions@
    }

    /// An empty registry; sessions interrupted by a restart are simply gone,
    /// which a later leave reports as "no session".
    pub fn new() -> (stats: VoiceStats)
        ensures
            stats.sessions() == Map::<u64, u64>::empty(),
    {
        VoiceStats { active_sessions: HashMap::new() }
    }

    /// Whether a session is currently open for the user.
    pub fn has_session(&self, user_id: u64) -> (open: bool)
        ensures
            open == self.sessions().contains_key(user_id),
    {
        self.active_sessions.contains_key(&user_id)
    }

    /// Opens the user's session at the given moment. A join always wins:
    /// any stale prior entry is overwritten, so a double join just resets
    /// the timer and the registry keeps at most one entry for the user.
    pub fn user_joined_at(&mut self, user_id: u64, now: u64)
        ensures
            final(self).sessions() == old(self).sessions().insert(user_id, now),
    {
        self.active_sessions.insert(user_id, now);
    }

    /// Closes the user's session at the given moment and returns the elapsed
    /// duration. Returns nothing exactly when no session was open, which is
    /// expected after a missed join or a duplicate leave and must be treated
    /// as a warning, not an error.
    pub fn user_left_at(&mut self, user_id: u64, now: u64) -> (duration: Option<u64>)
        ensures
            final(self).sessions() == old(self).sessions().remove(user_id),
            match duration {
                Some(d) => old(self).sessions().contains_key(user_id) && d == spec_duration(
                    old(self).sessions()[user_id],
                    now,
                ),
                None => !old(self).sessions().contains_key(user_id),
            },
    {
        match self.active_sessions.remove(&user_id) {
            Some(joined_at) => {
                if now >= joined_at {
                    Some(now - joined_at)
                } else {
                    Some(0)
                }
            },
            None => None,
        }
    }

    /// Opens the user's session at the current wall-clock time.
    pub fn user_joined(&mut self, user_id: u64)
        ensures
            final(self).sessions().contains_key(user_id),
            final(self).sessions() == old(self).sessions().insert(
                user_id,
                final(self).sessions()[user_id],
            ),
    {
        let now = unix_now();
        self.user_joined_at(user_id, now);
    }

    /// Closes the user's session at the current wall-clock time and, when a
    /// session was open, hands back the record to persist, built from the
    /// username snapshot taken at event time. No open session means no
    /// record, hence no storage write at all.
    pub fn user_left(&mut self, user_id: u64, username: &str) -> (record: Option<SessionRecord>)
        ensures
            final(self).sessions() == old(self).sessions().remove(user_id),
            match record {
                Some(rec) => {
                    &&& old(self).sessions().contains_key(user_id)
                    &&& rec.user_id == user_id
                    &&& rec.username@ == username@
                    &&& rec.duration_seconds == spec_duration(
                        old(self).sessions()[user_id],
                        rec.occurred_at,
                    )
                },
                None => !old(self).sessions().contains_key(user_id),
            },
    {
        let now = unix_now();
        match self.user_left_at(user_id, now) {
            Some(duration_seconds) => Some(
                SessionRecord {
                    user_id,
                    username: username.to_owned(),
                    duration_seconds,
                    occurred_at: now,
                },
            ),
            None => None,
        }
    }
}

/// One join or leave, as the registry sees it.
pub enum RegistryEvent {
    Join(u64, u64),
    Leave(u64),
}

impl RegistryEvent {
    /// The user an event concerns.
    pub open spec fn spec_user(self) -> u64 {
        match self {
            RegistryEvent::Join(user_id, _) => user_id,
            RegistryEvent::Leave(user_id) => user_id,
        }
    }
}

/// What one event does to the registry content: exactly what
/// `user_joined_at` and `user_left_at` ensure of the real registry.
pub open spec fn apply_event(m: Map<u64, u64>, event: RegistryEvent) -> Map<u64, u64> {
    match event {
        RegistryEvent::Join(user_id, at) => m.insert(user_id, at),
        RegistryEvent::Leave(user_id) => m.remove(user_id),
    }
}

/// The registry content after a whole sequence of events.
pub open spec fn apply_events(m: Map<u64, u64>, events: Seq<RegistryEvent>) -> Map<u64, u64>
    decreases events.len(),
{
    if events.len() == 0 {
        m
    } else {
        apply_event(apply_events(m, events.drop_last()), events.last())
    }
}

/// The last event of the sequence that concerns the user, if any.
pub open spec fn last_event_for(events: Seq<RegistryEvent>, user_id: u64) -> Option<RegistryEvent>
    decreases events.len(),
{
    if events.len() == 0 {
        None
    } else if events.last().spec_user() == user_id {
        Some(events.last())
    } else {
        last_event_for(events.drop_last(), user_id)
    }
}

/// Law: over any sequence of join and leave events, the registry holds at
/// most one entry per user — a map binding — and that binding is decided by
/// the user's last event alone: a join leaves exactly its own start time, a
/// leave removes the entry, and other users' events change nothing.
pub proof fn lemma_registry_single_entry(m0: Map<u64, u64>, events: Seq<RegistryEvent>, user_id: u64)
    ensures
        ({
            let m = apply_events(m0, events);
            match last_event_for(events, user_id) {
                Some(RegistryEvent::Join(_, at)) => m.contains_key(user_id) && m[user_id] == at,
                Some(RegistryEvent::Leave(_)) => !m.contains_key(user_id),
                None => m.contains_key(user_id) == m0.contains_key(user_id) && (m0.contains_key(
                    user_id,
                ) ==> m[user_id] == m0[user_id]),
            }
        }),
    decreases events.len(),
{
    if events.len() > 0 {
        lemma_registry_single_entry(m0, events.drop_last(), user_id);
    }
}

/// A durable user row: the latest known username, refreshed on every session
/// close so reports can name users that have since left.
#[derive(Debug)]
pub struct UserRecord {
    pub user_id: u64,
    pub username: String,
    pub updated_at: u64,
}

/// A durable session row; append-only, never mutated after insert.
#[derive(Debug)]
pub struct PersistedSession {
    pub user_id: u64,
    pub duration_seconds: u64,
    pub occurred_at: u64,
}

/// The mathematical content of a user row: the username as its characters.
pub struct UserRow {
    pub user_id: u64,
    pub username: Seq<char>,
    pub updated_at: u64,
}

impl UserRecord {
    /// The row a record stands for.
    pub open spec fn spec_row(self) -> UserRow {
        UserRow { user_id: self.user_id, username: self.username@, updated_at: self.updated_at }
    }
}

/// The content of a whole user table.
pub open spec fn spec_rows(users: Seq<UserRecord>) -> Seq<UserRow> {
    users.map_values(|r: UserRecord| r.spec_row())
}

/// No two user rows share a user id.
pub open spec fn spec_users_unique(users: Seq<UserRow>) -> bool {
    forall|i: int, j: int|
        0 <= i < j < users.len() ==> users[i].user_id != users[j].user_id
}

/// The user table after an upsert: the existing row for the id is replaced,
/// or a new row is appended when there is none.
pub open spec fn spec_upsert(users: Seq<UserRow>, rec: UserRow) -> Seq<UserRow> {
    if exists|i: int| 0 <= i < users.len() && users[i].user_id == rec.user_id {
        let i = choose|i: int| 0 <= i < users.len() && users[i].user_id == rec.user_id;
        users.update(i, rec)
    } else {
        users.push(rec)
    }
}

/// The user table a record attempt leaves behind: the upsert of step one
/// when the transaction commits, the table untouched when it fails.
pub open spec fn spec_recorded_users(users: Seq<UserRow>, rec: UserRow, committed: bool) -> Seq<
    UserRow,
> {
    if committed {
        spec_upsert(users, rec)
    } else {
        users
    }
}

/// The session log a record attempt leaves behind: the appended row of step
/// two when the transaction commits, the log untouched when it fails.
pub open spec fn spec_recorded_log(
    log: Seq<PersistedSession>,
    row: PersistedSession,
    committed: bool,
) -> Seq<PersistedSession> {
    if committed {
        log.push(row)
    } else {
        log
    }
}

/// Law: recording a session is atomic. The two write steps — the user
/// upsert and the session append — land together when the transaction
/// commits, and a failure, in particular one forced on the second step,
/// leaves both tables exactly as they were: no user-table update is
/// visible and nothing is appended.
pub proof fn lemma_record_session_atomic(
    users: Seq<UserRow>,
    log: Seq<PersistedSession>,
    rec: UserRow,
    row: PersistedSession,
)
    ensures
        spec_recorded_users(users, rec, false) == users,
        spec_recorded_log(log, row, false) == log,
        spec_recorded_users(users, rec, true) == spec_upsert(users, rec),
        spec_recorded_log(log, row, true) == log.push(row),
{
}

/// The durable write-path state: what the store has committed. Both tables
/// move only through `record_session`, which commits its two steps together
/// or not at all.
#[derive(Debug)]
pub struct SessionStore {
    users: Vec<UserRecord>,
    sessions: Vec<PersistedSession>,
}

impl SessionStore {
    /// The committed user table.
    pub closed spec fn users(self) -> Seq<UserRow> {
        spec_rows(self.users@)
    }

    /// The committed session log.
    pub closed spec fn session_log(self) -> Seq<PersistedSession> {
        self.sessions@
    }

    /// A well-formed store never holds two rows for one user.
    pub open spec fn wf(self) -> bool {
        spec_users_unique(self.users())
    }

    pub fn new() -> (store: SessionStore)
        ensures
            store.wf(),
            store.users() == Seq::<UserRow>::empty(),
            store.session_log() == Seq::<PersistedSession>::empty(),
    {
        let store = SessionStore { users: Vec::new(), sessions: Vec::new() };
        proof {
            assert(store.users() =~= Seq::<UserRow>::empty());
        }
        store
    }

    /// The number of committed session rows.
    pub fn session_count(&self) -> (n: usize)
        ensures
            n == self.session_log().len(),
    {
        self.sessions.len()
    }

    /// The committed username for a user, if the store knows one.
    pub fn username_of(&self, user_id: u64) -> (name: Option<&String>)
        ensures
            match name {
                Some(s) => exists|i: int|
                    0 <= i < self.users().len() && self.users()[i].user_id == user_id && self.users()[i].username
                        == s@,
                None => forall|i: int|
                    0 <= i < self.users().len() ==> self.users()[i].user_id != user_id,
            },
    {
        let mut i: usize = 0;
        while i < self.users.len()
            invariant
                i <= self.users.len(),
                forall|j: int| 0 <= j < i ==> self.users()[j].user_id != user_id,
            decreases self.users.len() - i,
        {
            if self.users[i].user_id == user_id {
                let found = &self.users[i].username;
                proof {
                    assert(self.users()[i as int].user_id == user_id && self.users()[i as int].username
                        == found@);
                }
                return Some(found);
            }
            i += 1;
        }
        None
    }

    /// Records one closed session as a single transaction: step one upserts
    /// the user row, step two appends the session row, and the two commit
    /// together. A storage failure — here, the transaction outcome handed in
    /// by the storage edge — rolls everything back: the store is left
    /// exactly as it was, with no user-table update visible.
    pub fn record_session(
        &mut self,
        user_id: u64,
        username: String,
        duration_seconds: u64,
        occurred_at: u64,
        storage_ok: bool,
    ) -> (result: Result<(), Error>)
        requires
            old(self).wf(),
        ensures
            final(self).wf(),
            final(self).users() == spec_recorded_users(
                old(self).users(),
                UserRow { user_id, username: username@, updated_at: occurred_at },
                storage_ok,
            ),
            final(self).session_log() == spec_recorded_log(
                old(self).session_log(),
                PersistedSession { user_id, duration_seconds, occurred_at },
                storage_ok,
            ),
            storage_ok ==> result is Ok,
            !storage_ok ==> result == Err::<(), Error>(Error::Sqlx),
    {
        // Step one, against a transaction buffer rather than the committed
        // table, so that a failure before the commit leaves no trace.
        let mut buffer = copy_users(&self.users);
        let rec = UserRecord { user_id, username, updated_at: occurred_at };
        upsert_user(&mut buffer, rec);

        if !storage_ok {
            // The second write step failed: the buffer is dropped and
            // nothing is committed.
            return Err(Error::Sqlx);
        }

        // Step two and commit.
        self.users = buffer;
        self.sessions.push(PersistedSession { user_id, duration_seconds, occurred_at });
        Ok(())
    }
}

/// A working copy of the user table, for a transaction to write to. The
/// copy carries the same rows.
fn copy_users(users: &Vec<UserRecord>) -> (copied: Vec<UserRecord>)
    ensures
        spec_rows(copied@) == spec_rows(users@),
{
    let mut i: usize = 0;
    let mut copied: Vec<UserRecord> = Vec::new();
    while i < users.len()
        invariant
            i <= users.len(),
            copied@.len() == i,
            spec_rows(copied@) == spec_rows(users@).subrange(0, i as int),
        decreases users.len() - i,
    {
        let rec = UserRecord {
            user_id: users[i].user_id,
            username: clone_string(&users[i].username),
            updated_at: users[i].updated_at,
        };
        assert(rec.spec_row() == spec_rows(users@)[i as int]);
        copied.push(rec);
        i += 1;
        assert(spec_rows(copied@) =~= spec_rows(users@).subrange(0, i as int));
    }
    assert(spec_rows(copied@) =~= spec_rows(users@));
    copied
}

/// A clone of a string that is known to keep its characters.
fn clone_string(s: &String) -> (r: String)
    ensures
        r@ == s@,
{
    s.as_str().to_owned()
}

/// Replaces the user's row or appends a new one, keeping ids unique.
fn upsert_user(users: &mut Vec<UserRecord>, rec: UserRecord)
    requires
        spec_users_unique(spec_rows(old(users)@)),
    ensures
        spec_users_unique(spec_rows(final(users)@)),
        spec_rows(final(users)@) == spec_upsert(spec_rows(old(users)@), rec.spec_row()),
{
    let ghost orig = spec_rows(old(users)@);
    let mut i: usize = 0;
    while i < users.len()
        invariant
            i <= users.len(),
            users@ == old(users)@,
            orig == spec_rows(users@),
            spec_users_unique(orig),
            forall|j: int| 0 <= j < i ==> spec_rows(users@)[j].user_id != rec.user_id,
        decreases users.len() - i,
    {
        if users[i].user_id == rec.user_id {
            let ghost found: int = i as int;
            users[i] = rec;
            proof {
                assert(orig[found].user_id == rec.spec_row().user_id);
                let w = choose|k: int|
                    0 <= k < orig.len() && orig[k].user_id == rec.spec_row().user_id;
                assert(spec_users_unique(orig));
                assert(w == found);
                assert(spec_rows(final(users)@) =~= orig.update(found, rec.spec_row()));
            }
            return ;
        }
        i += 1;
    }
    users.push(rec);
    proof {
        assert(forall|k: int| 0 <= k < orig.len() ==> orig[k].user_id != rec.spec_row().user_id);
        assert(spec_rows(final(users)@) =~= orig.push(rec.spec_row()));
    }
}

/// Report rows in ranking order: total time descending.
pub open spec fn spec_sorted_desc(rows: Seq<UserStats>) -> bool {
    forall|i: int, j: int|
        0 <= i < j < rows.len() ==> rows[i].total_seconds >= rows[j].total_seconds
}

/// Inserts a row into a ranked vector, keeping it ranked.
fn insert_ranked(out: &mut Vec<UserStats>, row: UserStats)
    requires
        spec_sorted_desc(old(out)@),
    ensures
        spec_sorted_desc(final(out)@),
        final(out)@.to_multiset() == old(out)@.to_multiset().insert(row),
{
    let mut pos: usize = 0;
    while pos < out.len() && out[pos].total_seconds >= row.total_seconds
        invariant
            pos <= out.len(),
            out@ == old(out)@,
            spec_sorted_desc(out@),
            forall|j: int| 0 <= j < pos ==> out@[j].total_seconds >= row.total_seconds,
        decreases out.len() - pos,
    {
        pos += 1;
    }
    out.insert(pos, row);
    proof {
        vstd::seq_lib::to_multiset_insert(old(out)@, pos as int, row);
    }
}

/// Ranks pre-aggregated per-user rows for a report: orders them by total
/// time descending and keeps at most `limit` of them. The result is the
/// head of a ranked rearrangement of the input — every row kept outranks,
/// or ties with, every row dropped.
pub fn get_stats(rows: Vec<UserStats>, limit: usize) -> (top: Vec<UserStats>)
    ensures
        spec_sorted_desc(top@),
        top@.len() == if limit < rows@.len() {
            limit as int
        } else {
            rows@.len() as int
        },
        exists|rest: Seq<UserStats>|
            spec_sorted_desc(top@ + rest) && (top@ + rest).to_multiset() == rows@.to_multiset(),
{
    broadcast use vstd::seq_lib::group_to_multiset_ensures;

    let ghost all = rows@;
    let mut rows = rows;
    let mut ranked: Vec<UserStats> = Vec::new();
    while rows.len() > 0
        invariant
            spec_sorted_desc(ranked@),
            ranked@.to_multiset().add(rows@.to_multiset()) == all.to_multiset(),
        decreases rows.len(),
    {
        let ghost before = rows@;
        let row = match rows.pop() {
            Some(r) => r,
            None => {
                return ranked;
            },
        };
        proof {
            assert(before =~= rows@.push(row));
            vstd::seq_lib::to_multiset_build(rows@, row);
        }
        insert_ranked(&mut ranked, row);
        proof {
            assert(ranked@.to_multiset().add(rows@.to_multiset()) =~= all.to_multiset());
        }
    }
    let ghost full = ranked@;
    let mut ranked = ranked;
    ranked.truncate(limit);
    proof {
        vstd::seq_lib::to_multiset_len(rows@);
        vstd::multiset::lemma_multiset_empty_len(rows@.to_multiset());
        assert(rows@.to_multiset() =~= Multiset::<UserStats>::empty());
        assert(full.to_multiset() =~= all.to_multiset());
        vstd::seq_lib::to_multiset_len(full);
        vstd::seq_lib::to_multiset_len(all);
        if limit < full.len() {
            let rest = full.skip(limit as int);
            assert(ranked@ + rest =~= full);
        } else {
            let rest = Seq::<UserStats>::empty();
            assert(ranked@ + rest =~= full);
        }
    }
    ranked
}

} // verus!
