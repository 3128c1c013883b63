//! The prefix table and an in-memory store that holds it.
//!
//! The table has one row per write: a guild key and a prefix that may be
//! null. Nothing in the table itself forbids two rows with one key; a read
//! returns what the first row with the key holds.

use vstd::prelude::*;
use crate::request::{WriteKind, WriteRequest};

verus! {

/// Why an operation on the store failed.
#[derive(Clone, Copy, Debug, PartialEq, Eq, Structural)]
pub enum StoreError {
    /// The store could not be reached.
    Unavailable,
}

/// One row of the prefix table, as contracts see it.
pub struct Row {
    pub guild_id: u64,
    pub prefix: Option<Seq<char>>,
}

/// One row of the prefix table.
#[derive(Debug, PartialEq, Eq)]
pub struct GuildPrefixRecord {
    pub guild_id: u64,
    pub prefix: Option<String>,
}

impl View for GuildPrefixRecord {
    type V = Row;

    open spec fn view(&self) -> Row {
        Row {
            guild_id: self.guild_id,
            prefix: match self.prefix {
                Some(p) => Some(p@),
                None => None,
            },
        }
    }
}

/// Whether some row of `rows` has the key `key`.
pub open spec fn has_record(rows: Seq<Row>, key: u64) -> bool {
    exists|i: int| 0 <= i < rows.len() && (#[trigger] rows[i]).guild_id == key
}

/// What a point lookup by `key` finds: the prefix of the first row with that
/// key, or nothing where there is no such row or its prefix is null.
pub open spec fn lookup(rows: Seq<Row>, key: u64) -> Option<Seq<char>>
    decreases rows.len(),
{
    if rows.len() == 0 {
        None
    } else if rows[0].guild_id == key {
        rows[0].prefix
    } else {
        lookup(rows.drop_first(), key)
    }
}

/// Whether the table is as this library alone leaves it: no key has two
/// rows, and no row has a null prefix.
pub open spec fn one_row_per_key(rows: Seq<Row>) -> bool {
    &&& forall|i: int, j: int|
        0 <= i < j < rows.len() ==> (#[trigger] rows[i]).guild_id != (#[trigger] rows[j]).guild_id
    &&& forall|i: int| 0 <= i < rows.len() ==> (#[trigger] rows[i]).prefix is Some
}

/// The table after a row `(key, prefix)` was appended.
pub open spec fn with_row(rows: Seq<Row>, key: u64, prefix: Seq<char>) -> Seq<Row> {
    rows.push(Row { guild_id: key, prefix: Some(prefix) })
}

/// The table after every row with the key `key` got the prefix `prefix`.
pub open spec fn with_prefix(rows: Seq<Row>, key: u64, prefix: Seq<char>) -> Seq<Row> {
    Seq::new(
        rows.len(),
        |i: int|
            if rows[i].guild_id == key {
                Row { guild_id: key, prefix: Some(prefix) }
            } else {
                rows[i]
            },
    )
}

/// A store as contracts see it: the rows of its table, oldest first, and
/// whether it can be reached.
pub struct StoreState {
    pub rows: Seq<Row>,
    pub connected: bool,
}

impl StoreState {
    /// What a read of `key` returns: the lookup's result, or nothing where
    /// the store cannot be reached.
    pub open spec fn read(self, key: u64) -> Option<Seq<char>> {
        if self.connected {
            lookup(self.rows, key)
        } else {
            None
        }
    }

    /// The store after an insert of `(key, prefix)` was attempted.
    pub open spec fn inserted(self, key: u64, prefix: Seq<char>) -> StoreState {
        if self.connected {
            StoreState { rows: with_row(self.rows, key, prefix), connected: true }
        } else {
            self
        }
    }

    /// The store after an update of `key` to `prefix` was attempted.
    pub open spec fn updated(self, key: u64, prefix: Seq<char>) -> StoreState {
        if self.connected {
            StoreState { rows: with_prefix(self.rows, key, prefix), connected: true }
        } else {
            self
        }
    }

    /// The store after a write of kind `kind` was attempted.
    pub open spec fn written(self, kind: WriteKind, key: u64, prefix: Seq<char>) -> StoreState {
        match kind {
            WriteKind::Insert => self.inserted(key, prefix),
            WriteKind::Update => self.updated(key, prefix),
        }
    }

    /// What a write returns: success where the store can be reached.
    pub open spec fn write_outcome(self) -> Result<(), StoreError> {
        if self.connected {
            Ok(())
        } else {
            Err(StoreError::Unavailable)
        }
    }
}

/// An in-memory prefix store: the table's rows in the order in which they
/// were inserted, and a switch that makes the store unreachable.
pub struct PrefixStore {
    rows: Vec<GuildPrefixRecord>,
    connected: bool,
}

impl View for PrefixStore {
    type V = StoreState;

    closed spec fn view(&self) -> StoreState {
        StoreState {
            rows: self.rows@.map_values(|r: GuildPrefixRecord| r@),
            connected: self.connected,
        }
    }
}

/// In a table whose first `n` rows have other keys, a lookup finds what it
/// finds in the rows after them.
pub proof fn lemma_lookup_skips(rows: Seq<Row>, key: u64, n: int)
    requires
        0 <= n <= rows.len(),
        forall|j: int| 0 <= j < n ==> (#[trigger] rows[j]).guild_id != key,
    ensures
        lookup(rows, key) == lookup(rows.skip(n), key),
    decreases n,
{
    if n == 0 {
        assert(rows.skip(0) =~= rows);
    } else {
        assert(rows[0].guild_id != key);
        let rest = rows.drop_first();
        assert forall|j: int| 0 <= j < n - 1 implies (#[trigger] rest[j]).guild_id != key by {
            assert(rest[j] == rows[j + 1]);
        }
        lemma_lookup_skips(rest, key, n - 1);
        assert(rest.skip(n - 1) =~= rows.skip(n));
    }
}

/// A lookup by a key that no row has finds nothing.
pub proof fn lemma_lookup_without_record(rows: Seq<Row>, key: u64)
    requires
        !has_record(rows, key),
    ensures
        lookup(rows, key) is None,
{
    lemma_lookup_skips(rows, key, rows.len() as int);
    assert(rows.skip(rows.len() as int).len() == 0);
}

/// A key that the first row does not have has a row in the table exactly if
/// it has one among the rows after the first.
pub proof fn lemma_has_record_after_first(rows: Seq<Row>, key: u64)
    requires
        rows.len() > 0,
        rows[0].guild_id != key,
    ensures
        has_record(rows.drop_first(), key) == has_record(rows, key),
{
    let rest = rows.drop_first();
    if has_record(rest, key) {
        let i = choose|i: int| 0 <= i < rest.len() && (#[trigger] rest[i]).guild_id == key;
        assert(rows[i + 1].guild_id == key);
    }
    if has_record(rows, key) {
        let i = choose|i: int| 0 <= i < rows.len() && (#[trigger] rows[i]).guild_id == key;
        assert(rest[i - 1].guild_id == key);
    }
}

/// Appending a row changes what a lookup finds only for a key that had no
/// row: the lookup then finds the new row.
pub proof fn lemma_lookup_with_row(rows: Seq<Row>, key: u64, prefix: Seq<char>, other: u64)
    ensures
        lookup(with_row(rows, key, prefix), other) == if other == key && !has_record(rows, key) {
            Some(prefix)
        } else {
            lookup(rows, other)
        },
        has_record(with_row(rows, key, prefix), other) == (other == key || has_record(
            rows,
            other,
        )),
    decreases rows.len(),
{
    let after = with_row(rows, key, prefix);
    assert(after[rows.len() as int].guild_id == key);
    if has_record(rows, other) {
        let i = choose|i: int| 0 <= i < rows.len() && (#[trigger] rows[i]).guild_id == other;
        assert(after[i].guild_id == other);
    }
    if has_record(after, other) && other != key {
        let i = choose|i: int| 0 <= i < after.len() && (#[trigger] after[i]).guild_id == other;
        assert(rows[i].guild_id == other);
    }
    if rows.len() == 0 {
        assert(lookup(after.drop_first(), other) is None);
    } else {
        assert(after.drop_first() =~= with_row(rows.drop_first(), key, prefix));
        assert(after[0] == rows[0]);
        if rows[0].guild_id != other {
            lemma_lookup_with_row(rows.drop_first(), key, prefix, other);
            lemma_has_record_after_first(rows, other);
        }
    }
}

/// After an update of `key`, a lookup by `key` finds the new prefix if the
/// key had a row and nothing if it had none; a lookup by another key finds
/// what it found before. The keys that have rows are the same.
pub proof fn lemma_lookup_with_prefix(rows: Seq<Row>, key: u64, prefix: Seq<char>, other: u64)
    ensures
        lookup(with_prefix(rows, key, prefix), other) == if other != key {
            lookup(rows, other)
        } else if has_record(rows, key) {
            Some(prefix)
        } else {
            None
        },
        has_record(with_prefix(rows, key, prefix), other) == has_record(rows, other),
    decreases rows.len(),
{
    let after = with_prefix(rows, key, prefix);
    if has_record(rows, other) {
        let i = choose|i: int| 0 <= i < rows.len() && (#[trigger] rows[i]).guild_id == other;
        assert(after[i].guild_id == other);
    }
    if has_record(after, other) {
        let i = choose|i: int| 0 <= i < after.len() && (#[trigger] after[i]).guild_id == other;
        assert(rows[i].guild_id == other);
    }
    if rows.len() > 0 {
        assert(after.drop_first() =~= with_prefix(rows.drop_first(), key, prefix));
        if rows[0].guild_id != other {
            lemma_lookup_with_prefix(rows.drop_first(), key, prefix, other);
            lemma_has_record_after_first(rows, other);
        }
    }
}

/// Where no row has a null prefix, a lookup by a key that has a row finds a
/// prefix.
pub proof fn lemma_lookup_with_record(rows: Seq<Row>, key: u64)
    requires
        has_record(rows, key),
        forall|i: int| 0 <= i < rows.len() ==> (#[trigger] rows[i]).prefix is Some,
    ensures
        lookup(rows, key) is Some,
    decreases rows.len(),
{
    if rows[0].guild_id != key {
        let rest = rows.drop_first();
        lemma_has_record_after_first(rows, key);
        assert forall|j: int| 0 <= j < rest.len() implies (#[trigger] rest[j]).prefix is Some by {
            assert(rest[j] == rows[j + 1]);
        }
        lemma_lookup_with_record(rest, key);
    }
}

/// An update of a key that has no row leaves the table as it is.
pub proof fn lemma_with_prefix_without_record(rows: Seq<Row>, key: u64, prefix: Seq<char>)
    requires
        !has_record(rows, key),
    ensures
        with_prefix(rows, key, prefix) == rows,
{
    assert forall|i: int| 0 <= i < rows.len() implies (#[trigger] rows[i]).guild_id != key by {}
    assert(with_prefix(rows, key, prefix) =~= rows);
}

impl PrefixStore {
    /// An empty store that can be reached.
    pub fn new() -> (store: PrefixStore)
        ensures
            store@.rows == Seq::<Row>::empty(),
            store@.connected,
    {
        let store = PrefixStore { rows: Vec::new(), connected: true };
        assert(store@.rows =~= Seq::<Row>::empty());
        store
    }

    /// A store that can be reached and whose table holds the given rows,
    /// oldest first.
    pub fn from_records(records: Vec<GuildPrefixRecord>) -> (store: PrefixStore)
        ensures
            store@.rows.len() == records@.len(),
            forall|i: int| 0 <= i < records@.len() ==> store@.rows[i] == (#[trigger] records@[i])@,
            store@.connected,
    {
        PrefixStore { rows: records, connected: true }
    }

    /// Whether the store can be reached.
    pub fn is_connected(&self) -> (connected: bool)
        ensures
            connected == self@.connected,
    {
        self.connected
    }

    /// Makes the store reachable or unreachable. The table stays as it is.
    pub fn set_connected(&mut self, connected: bool)
        ensures
            final(self)@ == (StoreState { rows: old(self)@.rows, connected }),
    {
        self.connected = connected;
    }

    /// The number of rows in the table.
    pub fn len(&self) -> (n: usize)
        ensures
            n == self@.rows.len(),
    {
        self.rows.len()
    }

    /// The row at position `index`, counted from the oldest.
    pub fn record(&self, index: usize) -> (row: &GuildPrefixRecord)
        requires
            index < self@.rows.len(),
        ensures
            row@ == self@.rows[index as int],
    {
        &self.rows[index]
    }

    /// Point lookup by guild key. Returns the prefix of the first row with
    /// the key; nothing where there is no such row, where its prefix is
    /// null, or where the store cannot be reached.
    pub fn read(&self, guild_id: u64) -> (found: Option<String>)
        ensures
            match found {
                Some(p) => self@.read(guild_id) == Some(p@),
                None => self@.read(guild_id) is None,
            },
    {
        if !self.connected {
            return None;
        }
        let mut i: usize = 0;
        while i < self.rows.len()
            invariant
                i <= self.rows.len(),
                self.connected,
                forall|j: int| 0 <= j < i ==> (#[trigger] self.rows@[j]).guild_id != guild_id,
            decreases self.rows.len() - i,
        {
            if self.rows[i].guild_id == guild_id {
                proof {
                    lemma_lookup_skips(self@.rows, guild_id, i as int);
                    assert(self@.rows.skip(i as int)[0] == self.rows@[i as int]@);
                }
                return match &self.rows[i].prefix {
                    Some(p) => Some(p.clone()),
                    None => None,
                };
            }
            i += 1;
        }
        proof {
            lemma_lookup_skips(self@.rows, guild_id, i as int);
            assert(self@.rows.skip(i as int).len() == 0);
        }
        None
    }

    /// Appends a row `(guild_id, prefix)`. Fails, and changes nothing, where
    /// the store cannot be reached.
    pub fn insert(&mut self, guild_id: u64, prefix: &str) -> (outcome: Result<(), StoreError>)
        ensures
            final(self)@ == old(self)@.inserted(guild_id, prefix@),
            outcome == old(self)@.write_outcome(),
    {
        if !self.connected {
            return Err(StoreError::Unavailable);
        }
        self.rows.push(GuildPrefixRecord { guild_id, prefix: Some(prefix.to_owned()) });
        assert(self@.rows =~= with_row(old(self)@.rows, guild_id, prefix@));
        Ok(())
    }

    /// Gives every row with the key `guild_id` the prefix `prefix`. Where no
    /// row has the key, nothing changes and the update still succeeds. Fails,
    /// and changes nothing, where the store cannot be reached.
    pub fn update(&mut self, guild_id: u64, prefix: &str) -> (outcome: Result<(), StoreError>)
        ensures
            final(self)@ == old(self)@.updated(guild_id, prefix@),
            outcome == old(self)@.write_outcome(),
    {
        if !self.connected {
            return Err(StoreError::Unavailable);
        }
        let mut i: usize = 0;
        while i < self.rows.len()
            invariant
                i <= self.rows.len(),
                self.connected,
                self.rows.len() == old(self).rows.len(),
                forall|j: int|
                    0 <= j < i ==> (#[trigger] self.rows@[j])@ == with_prefix(
                        old(self)@.rows,
                        guild_id,
                        prefix@,
                    )[j],
                forall|j: int|
                    i <= j < self.rows.len() ==> (#[trigger] self.rows@[j]) == old(self).rows@[j],
            decreases self.rows.len() - i,
        {
            if self.rows[i].guild_id == guild_id {
                self.rows[i] = GuildPrefixRecord { guild_id, prefix: Some(prefix.to_owned()) };
            }
            i += 1;
        }
        assert(self@.rows =~= with_prefix(old(self)@.rows, guild_id, prefix@));
        Ok(())
    }

    /// Carries out a planned write: an insert or an update, as the request
    /// says.
    pub fn apply(&mut self, request: &WriteRequest) -> (outcome: Result<(), StoreError>)
        ensures
            final(self)@ == old(self)@.written(request.kind, request.guild_id, request.prefix@),
            outcome == old(self)@.write_outcome(),
    {
        match request.kind {
            WriteKind::Insert => self.insert(request.guild_id, request.prefix.as_str()),
            WriteKind::Update => self.update(request.guild_id, request.prefix.as_str()),
        }
    }
}

} // verus!
