//! Guild identifiers and the key under which a guild's prefix is stored.

use vstd::prelude::*;

verus! {

/// The key that stands for "no guild": a direct message.
pub const NO_GUILD: u64 = 0;

/// The table key of an optional guild identifier.
pub open spec fn key_of(guild_id: Option<u64>) -> u64 {
    match guild_id {
        Some(id) => id,
        None => NO_GUILD,
    }
}

/// Maps an optional guild identifier to its table key: the identifier
/// itself, or `NO_GUILD` where there is none.
pub fn guild_key(guild_id: Option<u64>) -> (key: u64)
    ensures
        key == key_of(guild_id),
{
    match guild_id {
        Some(id) => id,
        None => NO_GUILD,
    }
}

} // verus!
