//! Resolving and assigning a guild's prefix.
//!
//! Resolving never fails: where the store holds no prefix for the guild, or
//! cannot be reached, the answer is the default prefix, and a row with the
//! default is inserted as far as the store allows. Assigning updates the
//! guild's rows and reports whether the store took the write.

use vstd::prelude::*;
use vstd::string::StringExecFns;
use crate::guild::{guild_key, key_of};
use crate::request::{write_request, WriteKind, WriteRequest, kind_of};
use crate::store::{PrefixStore, StoreError, StoreState};

verus! {

/// The prefix of a guild that has none in the table.
pub const DEFAULT_PREFIX: &'static str = "!";

/// What follows from a read of the table for a guild: the prefix in force,
/// and the write that is still to be attempted, if any. The prefix does not
/// wait for that write nor depend on how it ends.
#[derive(Debug, PartialEq, Eq)]
pub struct Resolution {
    pub prefix: String,
    pub provision: Option<WriteRequest>,
}

/// The prefix in force for a guild of which a read returned `found`.
pub open spec fn effective_prefix(found: Option<Seq<char>>) -> Seq<char> {
    match found {
        Some(p) => p,
        None => DEFAULT_PREFIX@,
    }
}

/// The prefix that resolving `guild_id` against the store `s` returns.
pub open spec fn resolved_prefix(s: StoreState, guild_id: Option<u64>) -> Seq<char> {
    effective_prefix(s.read(key_of(guild_id)))
}

/// The store after `guild_id` was resolved against the store `s`.
pub open spec fn after_resolve(s: StoreState, guild_id: Option<u64>) -> StoreState {
    match s.read(key_of(guild_id)) {
        Some(_) => s,
        None => s.inserted(key_of(guild_id), DEFAULT_PREFIX@),
    }
}

/// The store after `prefix` was assigned to `guild_id` in the store `s`.
pub open spec fn after_assign(s: StoreState, guild_id: Option<u64>, prefix: Seq<char>) -> StoreState {
    s.updated(key_of(guild_id), prefix)
}

/// What a lookup comes to. `reply` is what the store answered: a failure, no
/// row (`Ok(None)`), or the prefix column of the first row with the key,
/// which may be null (`Ok(Some(None))`). Only a prefix that is there counts
/// as found; a failure is not told apart from a missing row.
pub fn read_outcome(reply: Result<Option<Option<String>>, StoreError>) -> (found: Option<String>)
    ensures
        found == match reply {
            Ok(Some(Some(prefix))) => Some(prefix),
            _ => None,
        },
{
    match reply {
        Ok(Some(Some(prefix))) => Some(prefix),
        _ => None,
    }
}

/// Decides what a read means for a guild. A prefix that was found is the
/// answer, and nothing is to be written. Where none was found the answer is
/// the default, and a row with the default is to be inserted under the
/// guild's key.
pub fn resolve(guild_id: Option<u64>, found: Option<String>) -> (next: Resolution)
    ensures
        next.prefix@ == effective_prefix(
            match found {
                Some(p) => Some(p@),
                None => None,
            },
        ),
        found is Some ==> next.provision is None,
        found is None ==> match next.provision {
            Some(request) => {
                &&& request.kind == WriteKind::Insert
                &&& request.guild_id == key_of(guild_id)
                &&& request.prefix@ == DEFAULT_PREFIX@
            },
            None => false,
        },
{
    match found {
        Some(prefix) => Resolution { prefix, provision: None },
        None => Resolution {
            prefix: DEFAULT_PREFIX.to_owned(),
            provision: Some(write_request(guild_id, DEFAULT_PREFIX, false)),
        },
    }
}

/// Resolves the prefix in force for a guild, or for direct messages where
/// `guild_id` is `None`. Returns the prefix that the store holds for the
/// guild's key and leaves the store as it is; where a read finds none,
/// returns the default and inserts a row with it, if the store can be
/// reached.
pub fn get_prefix(store: &mut PrefixStore, guild_id: Option<u64>) -> (prefix: String)
    ensures
        prefix@ == resolved_prefix(old(store)@, guild_id),
        final(store)@ == after_resolve(old(store)@, guild_id),
{
    let found = store.read(guild_key(guild_id));
    let next = resolve(guild_id, found);
    match next.provision {
        Some(request) => {
            let _ = store.apply(&request);
        },
        None => {},
    }
    next.prefix
}

/// Writes `prefix` for a guild, or for direct messages where `guild_id` is
/// `None`: with `update` set, into every row that the guild has (none, if it
/// has no row); without it, as a new row. Fails with
/// `StoreError::Unavailable`, and changes nothing, exactly where the store
/// cannot be reached.
pub fn set_prefix(
    store: &mut PrefixStore,
    guild_id: Option<u64>,
    prefix: &str,
    update: bool,
) -> (outcome: Result<(), StoreError>)
    ensures
        final(store)@ == old(store)@.written(kind_of(update), key_of(guild_id), prefix@),
        outcome == old(store)@.write_outcome(),
{
    let request = write_request(guild_id, prefix, update);
    store.apply(&request)
}

} // verus!
