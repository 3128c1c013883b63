use lotr_mod_bot::request::{write_request, WriteKind, WriteRequest, TABLE_PREFIX};
use lotr_mod_bot::request::read_statement;
use lotr_mod_bot::store::{GuildPrefixRecord, PrefixStore, StoreError};

fn row(guild_id: u64, prefix: Option<&str>) -> GuildPrefixRecord {
    GuildPrefixRecord { guild_id, prefix: prefix.map(|p| p.to_string()) }
}

#[test]
fn new_store_is_empty_and_reachable() {
    let store = PrefixStore::new();
    assert_eq!(store.len(), 0);
    assert!(store.is_connected());
    assert_eq!(store.read(0), None);
}

#[test]
fn read_finds_the_first_row_of_a_key() {
    let store = PrefixStore::from_records(vec![
        row(1, Some("a")),
        row(2, Some("b")),
        row(1, Some("c")),
    ]);
    assert_eq!(store.read(1), Some("a".to_string()));
    assert_eq!(store.read(2), Some("b".to_string()));
    assert_eq!(store.read(3), None);
}

#[test]
fn read_of_a_null_prefix_finds_nothing() {
    let store = PrefixStore::from_records(vec![row(1, None), row(1, Some("late"))]);
    assert_eq!(store.read(1), None);
}

#[test]
fn read_of_an_unreachable_store_finds_nothing() {
    let mut store = PrefixStore::from_records(vec![row(1, Some("a"))]);
    store.set_connected(false);
    assert_eq!(store.read(1), None);
    assert_eq!(store.len(), 1);
}

#[test]
fn insert_appends_a_row() {
    let mut store = PrefixStore::new();
    assert_eq!(store.insert(5, "x"), Ok(()));
    assert_eq!(store.insert(5, "y"), Ok(()));
    assert_eq!(store.len(), 2);
    assert_eq!(*store.record(0), row(5, Some("x")));
    assert_eq!(*store.record(1), row(5, Some("y")));
}

#[test]
fn update_rewrites_every_row_of_the_key() {
    let mut store = PrefixStore::from_records(vec![
        row(1, Some("a")),
        row(2, Some("b")),
        row(1, None),
    ]);
    assert_eq!(store.update(1, "z"), Ok(()));
    assert_eq!(store.len(), 3);
    assert_eq!(*store.record(0), row(1, Some("z")));
    assert_eq!(*store.record(1), row(2, Some("b")));
    assert_eq!(*store.record(2), row(1, Some("z")));
}

#[test]
fn update_of_a_missing_key_succeeds_and_changes_nothing() {
    let mut store = PrefixStore::from_records(vec![row(1, Some("a"))]);
    assert_eq!(store.update(9, "z"), Ok(()));
    assert_eq!(store.len(), 1);
    assert_eq!(*store.record(0), row(1, Some("a")));
}

#[test]
fn writes_to_an_unreachable_store_fail() {
    let mut store = PrefixStore::new();
    store.set_connected(false);
    assert_eq!(store.insert(1, "a"), Err(StoreError::Unavailable));
    assert_eq!(store.update(1, "a"), Err(StoreError::Unavailable));
    let request = WriteRequest { kind: WriteKind::Insert, guild_id: 1, prefix: "a".to_string() };
    assert_eq!(store.apply(&request), Err(StoreError::Unavailable));
    assert_eq!(store.len(), 0);
}

#[test]
fn apply_carries_out_the_kind_of_write() {
    let mut store = PrefixStore::new();
    assert_eq!(store.apply(&write_request(Some(4), "a", false)), Ok(()));
    assert_eq!(store.apply(&write_request(Some(4), "b", true)), Ok(()));
    assert_eq!(store.len(), 1);
    assert_eq!(*store.record(0), row(4, Some("b")));
}

#[test]
fn write_request_holds_key_prefix_and_kind() {
    let update = write_request(None, "?", true);
    assert_eq!(update.kind, WriteKind::Update);
    assert_eq!(update.guild_id, 0);
    assert_eq!(update.prefix, "?");
    let insert = write_request(Some(780858391383638057), "!", false);
    assert_eq!(insert.kind, WriteKind::Insert);
    assert_eq!(insert.guild_id, 780858391383638057);
    assert_eq!(insert.prefix, "!");
}

#[test]
fn statements_name_the_table_and_their_parameters() {
    assert_eq!(TABLE_PREFIX, "lotr_mod_bot_prefix");
    assert_eq!(
        read_statement(),
        "SELECT prefix FROM lotr_mod_bot_prefix WHERE server_id = :server_id"
    );
    assert_eq!(
        WriteKind::Update.statement(),
        "UPDATE lotr_mod_bot_prefix SET prefix = :prefix WHERE server_id = :server_id"
    );
    assert_eq!(
        WriteKind::Insert.statement(),
        "INSERT INTO lotr_mod_bot_prefix (server_id, prefix) VALUES (:server_id, :prefix)"
    );
}
