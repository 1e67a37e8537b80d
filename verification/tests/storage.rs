use qmem::settings::Settings;
use qmem::storage::{
    initialize, load_settings, save, save_at, save_settings, search, StorageError,
};
use rusqlite::Connection;
use std::time::{SystemTime, UNIX_EPOCH};

fn fresh_db() -> Connection {
    let mut db = Connection::open_in_memory().unwrap();
    initialize(&mut db).unwrap();
    db
}

#[test]
fn empty_insert_update_and_literal_full_body_search() {
    let mut db = Connection::open_in_memory().unwrap();
    initialize(&mut db).unwrap();
    for blank in ["", " \n\t", "\u{3000}\u{feff}"] {
        assert_eq!(save(&mut db, None, blank).unwrap(), None);
    }
    assert!(search(&db, "").unwrap().is_empty());
    let id = save(&mut db, None, "先頭\n本文末尾 ETA 100%_ ' SELECT").unwrap();
    let original = search(&db, "本文末尾").unwrap().remove(0);
    assert_eq!(search(&db, "%_").unwrap().len(), 1);
    assert_eq!(search(&db, "eta").unwrap().len(), 1);
    assert!(search(&db, "見つからない").unwrap().is_empty());
    assert_eq!(save(&mut db, id, "編集済み").unwrap(), id);
    let edited = search(&db, "編集").unwrap().remove(0);
    assert_eq!(edited.created_at, original.created_at);
    assert!(edited.updated_at >= original.updated_at);
    assert_eq!(search(&db, "").unwrap().len(), 1);
    assert_eq!(save(&mut db, id, " ").unwrap(), None);
    assert!(search(&db, "").unwrap().is_empty());
}

#[test]
fn persists_after_reopening_database() {
    let nanos = SystemTime::now().duration_since(UNIX_EPOCH).unwrap().as_nanos();
    let path = format!("/tmp/qmem-test-{}.sqlite3", nanos);
    {
        let mut db = Connection::open(&path).unwrap();
        initialize(&mut db).unwrap();
        save(&mut db, None, "終了直前の本文").unwrap();
    }
    {
        let mut db = Connection::open(&path).unwrap();
        initialize(&mut db).unwrap();
        assert_eq!(search(&db, "").unwrap()[0].body, "終了直前の本文");
    }
}

#[test]
fn settings_have_defaults_and_persist() {
    let mut db = Connection::open_in_memory().unwrap();
    initialize(&mut db).unwrap();
    assert_eq!(load_settings(&db).unwrap(), Settings::default());

    let changed = Settings {
        global_shortcut: "CommandOrControl+Shift+Space".into(),
        new_note_shortcut: "CommandOrControl+Shift+N".into(),
        search_shortcut: "CommandOrControl+Shift+K".into(),
        font_size: 21,
        menu_bar_mode: true,
    };
    save_settings(&mut db, &changed).unwrap();
    assert_eq!(load_settings(&db).unwrap(), changed);
}

#[test]
fn initialize_twice_keeps_notes_and_settings() {
    let mut db = fresh_db();
    let id = save(&mut db, None, "memo").unwrap().unwrap();
    let changed = Settings { font_size: 20, ..Settings::default() };
    save_settings(&mut db, &changed).unwrap();
    initialize(&mut db).unwrap();
    assert_eq!(load_settings(&db).unwrap(), changed);
    let all = search(&db, "").unwrap();
    assert_eq!(all.len(), 1);
    assert_eq!(all[0].id, id);
    assert_eq!(all[0].body, "memo");
}

#[test]
fn load_settings_fails_before_initialize() {
    let db = Connection::open_in_memory().unwrap();
    assert!(matches!(load_settings(&db), Err(StorageError::Sqlite(_))));
}

#[test]
fn search_lists_newest_first_and_larger_id_first_on_ties() {
    let mut db = fresh_db();
    let a = save_at(&mut db, None, "first", 100).unwrap().unwrap();
    let b = save_at(&mut db, None, "second", 300).unwrap().unwrap();
    let c = save_at(&mut db, None, "third", 100).unwrap().unwrap();
    let d = save_at(&mut db, None, "fourth", 200).unwrap().unwrap();
    let ids: Vec<i64> = search(&db, "").unwrap().iter().map(|n| n.id).collect();
    assert!(c > a);
    assert_eq!(ids, vec![b, d, c, a]);
}

#[test]
fn search_ignores_ascii_case_only() {
    let mut db = fresh_db();
    save_at(&mut db, None, "Éclair and TEA", 1).unwrap();
    assert_eq!(search(&db, "tea").unwrap().len(), 1);
    assert_eq!(search(&db, "ECLAIR").unwrap().len(), 0);
    assert_eq!(search(&db, "éclair").unwrap().len(), 0);
    assert_eq!(search(&db, "Éclair AND").unwrap().len(), 1);
}

#[test]
fn search_returns_stored_fields() {
    let mut db = fresh_db();
    let id = save_at(&mut db, None, "body text", 1234).unwrap().unwrap();
    let found = search(&db, "TEXT").unwrap();
    assert_eq!(found.len(), 1);
    assert_eq!(found[0].id, id);
    assert_eq!(found[0].body, "body text");
    assert_eq!(found[0].created_at, 1234);
    assert_eq!(found[0].updated_at, 1234);
}

#[test]
fn edit_keeps_creation_time_and_sets_update_time() {
    let mut db = fresh_db();
    let id = save_at(&mut db, None, "draft", 100).unwrap();
    let other = save_at(&mut db, None, "other", 150).unwrap().unwrap();
    assert_eq!(save_at(&mut db, id, "final", 500).unwrap(), id);
    let found = search(&db, "final").unwrap();
    assert_eq!(found.len(), 1);
    assert_eq!(found[0].created_at, 100);
    assert_eq!(found[0].updated_at, 500);
    let rest = search(&db, "other").unwrap();
    assert_eq!(rest[0].id, other);
    assert_eq!(rest[0].updated_at, 150);
}

#[test]
fn update_of_missing_memo_fails() {
    let mut db = fresh_db();
    let r = save_at(&mut db, Some(42), "text", 1);
    assert!(matches!(r, Err(StorageError::MissingNote)));
    assert!(search(&db, "").unwrap().is_empty());
}

#[test]
fn blank_memo_with_id_deletes_only_that_memo() {
    let mut db = fresh_db();
    let keep = save_at(&mut db, None, "keep", 1).unwrap().unwrap();
    let drop = save_at(&mut db, None, "drop", 2).unwrap();
    assert_eq!(save_at(&mut db, drop, "\u{feff}\u{3000} \t", 3).unwrap(), None);
    let all = search(&db, "").unwrap();
    assert_eq!(all.len(), 1);
    assert_eq!(all[0].id, keep);
}

#[test]
fn blank_memo_without_id_needs_no_database() {
    let mut db = Connection::open_in_memory().unwrap();
    assert_eq!(save_at(&mut db, None, "  ", 1).unwrap(), None);
}

#[test]
fn statements_fail_before_initialize() {
    let mut db = Connection::open_in_memory().unwrap();
    assert!(matches!(save_at(&mut db, None, "x", 1), Err(StorageError::Sqlite(_))));
    assert!(matches!(save_at(&mut db, Some(1), " ", 1), Err(StorageError::Sqlite(_))));
    assert!(matches!(search(&db, ""), Err(StorageError::Sqlite(_))));
}

#[test]
fn save_uses_the_clock() {
    let mut db = fresh_db();
    save(&mut db, None, "now").unwrap();
    let found = search(&db, "now").unwrap();
    assert!(found[0].created_at > 1_600_000_000_000);
    assert_eq!(found[0].created_at, found[0].updated_at);
}

#[test]
fn same_search_gives_same_answer() {
    let mut db = fresh_db();
    for (body, at) in [("a memo", 5), ("another memo", 5), ("memo", 7)] {
        save_at(&mut db, None, body, at).unwrap();
    }
    let first: Vec<(i64, String)> = search(&db, "MEMO").unwrap().into_iter().map(|n| (n.id, n.body)).collect();
    let second: Vec<(i64, String)> = search(&db, "memo").unwrap().into_iter().map(|n| (n.id, n.body)).collect();
    assert_eq!(first.len(), 3);
    assert_eq!(first, second);
    assert_eq!(first[0].1, "memo");
}

#[test]
fn initialize_sets_journal_sync_and_timeout() {
    let nanos = SystemTime::now().duration_since(UNIX_EPOCH).unwrap().as_nanos();
    let path = format!("/tmp/qmem-pragma-{}.sqlite3", nanos);
    let mut db = Connection::open(&path).unwrap();
    initialize(&mut db).unwrap();
    let mode: String = db.query_row("PRAGMA journal_mode", [], |r| r.get(0)).unwrap();
    assert_eq!(mode, "wal");
    let sync: i64 = db.query_row("PRAGMA synchronous", [], |r| r.get(0)).unwrap();
    assert_eq!(sync, 2);
    let timeout: i64 = db.query_row("PRAGMA busy_timeout", [], |r| r.get(0)).unwrap();
    assert_eq!(timeout, 5000);
    let rows: i64 = db.query_row("SELECT count(*) FROM settings", [], |r| r.get(0)).unwrap();
    assert_eq!(rows, 1);
    save_settings(&mut db, &Settings { font_size: 16, ..Settings::default() }).unwrap();
    let rows: i64 = db.query_row("SELECT count(*) FROM settings", [], |r| r.get(0)).unwrap();
    assert_eq!(rows, 1);
}

#[test]
fn load_settings_without_settings_row_is_missing_settings() {
    let db = fresh_db();
    db.execute("DELETE FROM settings", []).unwrap();
    assert!(matches!(load_settings(&db), Err(StorageError::MissingSettings)));
    let rows: i64 = db.query_row("SELECT count(*) FROM settings", [], |r| r.get(0)).unwrap();
    assert_eq!(rows, 0);
}

#[test]
fn stored_settings_come_back_unchecked() {
    let mut db = fresh_db();
    let odd = Settings {
        global_shortcut: "".into(),
        new_note_shortcut: "x".into(),
        search_shortcut: "x".into(),
        font_size: -7,
        menu_bar_mode: true,
    };
    save_settings(&mut db, &odd).unwrap();
    assert_eq!(load_settings(&db).unwrap(), odd);
}
