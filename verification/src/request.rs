//! What the resolver asks of a store: the writes it plans, and the text of
//! the statement that carries out each operation on a relational store.
//!
//! Every statement names its values as parameters (`:server_id`, `:prefix`);
//! none has a value written into its text.

use vstd::prelude::*;
use vstd::string::StringExecFns;
use crate::guild::{guild_key, key_of};

verus! {

/// The name of the prefix table.
pub const TABLE_PREFIX: &'static str = "lotr_mod_bot_prefix";

/// The two ways of writing a prefix.
#[derive(Clone, Copy, Debug, PartialEq, Eq, Structural)]
pub enum WriteKind {
    /// Append a new row.
    Insert,
    /// Rewrite the prefix of the rows that have the key.
    Update,
}

/// A write of one prefix under one guild key.
#[derive(Debug, PartialEq, Eq)]
pub struct WriteRequest {
    pub kind: WriteKind,
    pub guild_id: u64,
    pub prefix: String,
}

/// The kind of write that the flag `update` selects.
pub open spec fn kind_of(update: bool) -> WriteKind {
    if update {
        WriteKind::Update
    } else {
        WriteKind::Insert
    }
}

/// The text of the lookup statement.
pub open spec fn read_statement_text() -> Seq<char> {
    "SELECT prefix FROM "@ + TABLE_PREFIX@ + " WHERE server_id = :server_id"@
}

/// The text of the statement for a write of kind `kind`.
pub open spec fn write_statement_text(kind: WriteKind) -> Seq<char> {
    match kind {
        WriteKind::Insert => "INSERT INTO "@ + TABLE_PREFIX@
            + " (server_id, prefix) VALUES (:server_id, :prefix)"@,
        WriteKind::Update => "UPDATE "@ + TABLE_PREFIX@
            + " SET prefix = :prefix WHERE server_id = :server_id"@,
    }
}

/// The statement that looks a prefix up by the parameter `:server_id`.
pub fn read_statement() -> (sql: String)
    ensures
        sql@ == read_statement_text(),
{
    let mut sql = String::from_str("SELECT prefix FROM ");
    sql.append(TABLE_PREFIX);
    sql.append(" WHERE server_id = :server_id");
    sql
}

impl WriteKind {
    /// The statement that carries out a write of this kind, with the
    /// parameters `:server_id` and `:prefix`.
    pub fn statement(self) -> (sql: String)
        ensures
            sql@ == write_statement_text(self),
    {
        match self {
            WriteKind::Insert => {
                let mut sql = String::from_str("INSERT INTO ");
                sql.append(TABLE_PREFIX);
                sql.append(" (server_id, prefix) VALUES (:server_id, :prefix)");
                sql
            },
            WriteKind::Update => {
                let mut sql = String::from_str("UPDATE ");
                sql.append(TABLE_PREFIX);
                sql.append(" SET prefix = :prefix WHERE server_id = :server_id");
                sql
            },
        }
    }
}

/// Plans the write of `prefix` for a guild: an update of its rows where
/// `update` is set, the insertion of a new row where it is not. A missing
/// guild identifier stands for the key of direct messages.
pub fn write_request(guild_id: Option<u64>, prefix: &str, update: bool) -> (request: WriteRequest)
    ensures
        request.kind == kind_of(update),
        request.guild_id == key_of(guild_id),
        request.prefix@ == prefix@,
{
    let kind = if update {
        WriteKind::Update
    } else {
        WriteKind::Insert
    };
    WriteRequest { kind, guild_id: guild_key(guild_id), prefix: prefix.to_owned() }
}

} // verus!
