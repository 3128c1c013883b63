//! What holds of resolving and assigning, whatever the store holds.

use vstd::prelude::*;
use crate::guild::{key_of, NO_GUILD};
use crate::resolver::{after_assign, after_resolve, resolved_prefix, DEFAULT_PREFIX};
use crate::store::{
    has_record, lemma_lookup_with_prefix, lemma_lookup_with_record, lemma_lookup_with_row,
    lemma_lookup_without_record, lemma_with_prefix_without_record, lookup, one_row_per_key, Row,
    StoreError, StoreState,
};

verus! {

/// A guild without a row resolves to the default prefix `"!"`. Where the
/// store can be reached, the table afterwards is the old one with one more
/// row, which holds the guild's key and the default, and a lookup finds it.
pub proof fn law_first_resolve_provisions_default(s: StoreState, guild_id: Option<u64>)
    requires
        !has_record(s.rows, key_of(guild_id)),
    ensures
        resolved_prefix(s, guild_id) == "!"@,
        s.connected ==> {
            let after = after_resolve(s, guild_id);
            &&& after.connected
            &&& after.rows == s.rows.push(Row { guild_id: key_of(guild_id), prefix: Some("!"@) })
            &&& has_record(after.rows, key_of(guild_id))
            &&& lookup(after.rows, key_of(guild_id)) == Some("!"@)
        },
{
    let key = key_of(guild_id);
    lemma_lookup_without_record(s.rows, key);
    lemma_lookup_with_row(s.rows, key, DEFAULT_PREFIX@, key);
}

/// A guild whose row holds the prefix `p` resolves to `p` in a store that
/// can be reached, and resolving writes nothing: the store afterwards is the
/// store before, so that resolving again returns `p` again.
pub proof fn law_resolve_returns_stored_prefix(s: StoreState, guild_id: Option<u64>, p: Seq<char>)
    requires
        s.connected,
        lookup(s.rows, key_of(guild_id)) == Some(p),
    ensures
        resolved_prefix(s, guild_id) == p,
        after_resolve(s, guild_id) == s,
        resolved_prefix(after_resolve(s, guild_id), guild_id) == p,
{
}

/// Assigning a prefix to a guild that has a row succeeds in a store that can
/// be reached, and the guild then resolves to that prefix without a further
/// write.
pub proof fn law_assign_then_resolve(s: StoreState, guild_id: Option<u64>, p: Seq<char>)
    requires
        s.connected,
        has_record(s.rows, key_of(guild_id)),
    ensures
        s.write_outcome() == Ok::<(), StoreError>(()),
        resolved_prefix(after_assign(s, guild_id, p), guild_id) == p,
        after_resolve(after_assign(s, guild_id, p), guild_id) == after_assign(s, guild_id, p),
{
    lemma_lookup_with_prefix(s.rows, key_of(guild_id), p, key_of(guild_id));
}

/// Assigning a prefix to a guild that has no row changes nothing, and is no
/// failure where the store can be reached; the guild still resolves to the
/// default prefix `"!"`.
pub proof fn law_assign_without_record_changes_nothing(
    s: StoreState,
    guild_id: Option<u64>,
    p: Seq<char>,
)
    requires
        !has_record(s.rows, key_of(guild_id)),
    ensures
        after_assign(s, guild_id, p) == s,
        s.connected ==> s.write_outcome() == Ok::<(), StoreError>(()),
        resolved_prefix(after_assign(s, guild_id, p), guild_id) == "!"@,
{
    let key = key_of(guild_id);
    lemma_with_prefix_without_record(s.rows, key, p);
    lemma_lookup_without_record(s.rows, key);
}

/// Without a guild, resolving and assigning work on the key `0`: they do
/// what they do for the guild identifier `0`.
pub proof fn law_no_guild_is_key_zero(s: StoreState, p: Seq<char>)
    ensures
        key_of(None) == 0,
        resolved_prefix(s, None) == resolved_prefix(s, Some(0)),
        after_resolve(s, None) == after_resolve(s, Some(0)),
        after_assign(s, None, p) == after_assign(s, Some(0), p),
{
}

/// Resolving or assigning for one key leaves every other key as it was:
/// whether it has a row, and what a lookup by it finds. So what is done
/// without a guild never shows in a guild's prefix, nor the other way round.
pub proof fn law_other_keys_untouched(
    s: StoreState,
    guild_id: Option<u64>,
    p: Seq<char>,
    other: u64,
)
    requires
        other != key_of(guild_id),
    ensures
        has_record(after_resolve(s, guild_id).rows, other) == has_record(s.rows, other),
        lookup(after_resolve(s, guild_id).rows, other) == lookup(s.rows, other),
        has_record(after_assign(s, guild_id, p).rows, other) == has_record(s.rows, other),
        lookup(after_assign(s, guild_id, p).rows, other) == lookup(s.rows, other),
{
    let key = key_of(guild_id);
    lemma_lookup_with_row(s.rows, key, DEFAULT_PREFIX@, other);
    lemma_lookup_with_prefix(s.rows, key, p, other);
}

/// A table in which no key has two rows and no row has a null prefix stays
/// so when a guild is resolved and when a prefix is assigned.
pub proof fn law_one_row_per_key_is_kept(s: StoreState, guild_id: Option<u64>, p: Seq<char>)
    requires
        one_row_per_key(s.rows),
    ensures
        one_row_per_key(after_resolve(s, guild_id).rows),
        one_row_per_key(after_assign(s, guild_id, p).rows),
{
    let key = key_of(guild_id);
    if has_record(s.rows, key) {
        lemma_lookup_with_record(s.rows, key);
    }
}

} // verus!
