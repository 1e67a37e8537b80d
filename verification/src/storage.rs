use vstd::prelude::*;

use rusqlite::Connection;

pub use crate::note::Note;
use crate::note::NoteRecord;
use crate::search::{
    is_search_result, lemma_matching_rows_answer_search, note_matches, rows_of_table,
    select_matching,
};
pub use crate::settings::Settings;
use crate::settings::{default_settings, SettingsRecord};
use crate::text::{is_blank, is_blank_text};

verus! {

#[verifier::external_type_specification]
#[verifier::external_body]
pub struct ExConnection(rusqlite::Connection);

#[verifier::external_type_specification]
#[verifier::external_body]
pub struct ExSqliteError(rusqlite::Error);

// The database as the library sees it. The three names below describe a
// connection that this library alone writes to, on a database whose tables
// are the ones `SCHEMA_SQL` creates (a table that does not exist yet counts
// as empty). The contracts of the wrappers below say nothing of a database
// that another connection or process changes meanwhile, nor of tables with
// another layout: these are not told apart from the model.

/// The rows of the `notes` table, by id: body, creation time, update time.
pub uninterp spec fn notes_table(db: Connection) -> Map<i64, (Seq<char>, i64, i64)>;

/// The rows of the `settings` table, by id: the three shortcuts, the font
/// size and the menu bar mode.
pub uninterp spec fn settings_table(db: Connection) -> Map<i64, (Seq<char>, Seq<char>, Seq<char>, i64, bool)>;

/// The rowid that SQLite reports for the most recent successful `INSERT` on
/// the connection.
pub uninterp spec fn last_rowid(db: Connection) -> i64;

/// How long, in milliseconds, the connection waits for a locked database
/// before it fails (`PRAGMA busy_timeout`).
pub uninterp spec fn busy_timeout_millis(db: Connection) -> i64;

/// The database's `PRAGMA synchronous` level (2 is `FULL`).
pub uninterp spec fn synchronous_level(db: Connection) -> i64;

/// The database's journal mode as `PRAGMA journal_mode` names it (`wal`,
/// `delete`, `memory`, ...).
pub uninterp spec fn journal_mode(db: Connection) -> Seq<char>;

/// Creates the tables when they are missing and stores the default settings
/// when none are stored.
pub const SCHEMA_SQL: &'static str = "PRAGMA journal_mode = WAL; PRAGMA synchronous = FULL;
        CREATE TABLE IF NOT EXISTS notes (
            id INTEGER PRIMARY KEY,
            body TEXT NOT NULL,
            created_at INTEGER NOT NULL,
            updated_at INTEGER NOT NULL
        );
        CREATE TABLE IF NOT EXISTS settings (
            id INTEGER PRIMARY KEY CHECK (id = 1),
            global_shortcut TEXT NOT NULL,
            new_note_shortcut TEXT NOT NULL,
            search_shortcut TEXT NOT NULL,
            font_size INTEGER NOT NULL,
            menu_bar_mode INTEGER NOT NULL
        );
        INSERT OR IGNORE INTO settings VALUES
            (1, 'Option+Space', 'CommandOrControl+N', 'CommandOrControl+K', 18, 0);";

/// Reads the stored settings.
pub const SELECT_SETTINGS_SQL: &'static str = "SELECT global_shortcut, new_note_shortcut, search_shortcut, font_size, menu_bar_mode
         FROM settings WHERE id = 1";

/// Overwrites the stored settings with `?1` to `?5`.
pub const UPDATE_SETTINGS_SQL: &'static str = "UPDATE settings SET global_shortcut = ?1, new_note_shortcut = ?2,
         search_shortcut = ?3, font_size = ?4, menu_bar_mode = ?5 WHERE id = 1";

/// Deletes the note `?1`.
pub const DELETE_NOTE_SQL: &'static str = "DELETE FROM notes WHERE id = ?1";

/// Gives the note `?3` the body `?1` and the update time `?2`.
pub const UPDATE_NOTE_SQL: &'static str = "UPDATE notes SET body = ?1, updated_at = ?2 WHERE id = ?3";

/// Adds a note with the body `?1`, created and updated at `?2`.
pub const INSERT_NOTE_SQL: &'static str = "INSERT INTO notes (body, created_at, updated_at) VALUES (?1, ?2, ?2)";

/// Reads every note.
pub const SELECT_NOTES_SQL: &'static str = "SELECT id, body, created_at, updated_at FROM notes";

/// A value bound to a `?n` parameter of a statement.
pub enum SqlArg {
    Integer(i64),
    Text(String),
    Flag(bool),
}

/// Why a storage operation failed.
#[derive(Debug)]
pub enum StorageError {
    /// SQLite reported an error.
    Sqlite(rusqlite::Error),
    /// The note to update does not exist.
    MissingNote,
    /// No settings are stored.
    MissingSettings,
}

/// The settings table once the default settings are in it: the stored
/// settings are kept, and the defaults go in only where none are stored.
pub open spec fn with_default_settings(
    table: Map<i64, SettingsRecord>,
) -> Map<i64, SettingsRecord> {
    if table.contains_key(1) {
        table
    } else {
        table.insert(1, default_settings())
    }
}

/// The settings table after the stored settings are overwritten with `s`;
/// without stored settings nothing is written.
pub open spec fn with_settings(
    table: Map<i64, SettingsRecord>,
    s: SettingsRecord,
) -> Map<i64, SettingsRecord> {
    if table.contains_key(1) {
        table.insert(1, s)
    } else {
        table
    }
}

/// Whether nothing the library reads changed from `before` to `after`.
pub open spec fn unchanged(before: Connection, after: Connection) -> bool {
    &&& notes_table(after) == notes_table(before)
    &&& settings_table(after) == settings_table(before)
    &&& last_rowid(after) == last_rowid(before)
}

/// Whether `sql` with `args` is one of the library's statements that
/// `statement_effect` describes, with arguments of the shapes it expects.
pub open spec fn described_statement(sql: Seq<char>, args: Seq<SqlArg>) -> bool {
    ||| sql == DELETE_NOTE_SQL@ && args.len() == 1 && args[0] is Integer
    ||| sql == UPDATE_NOTE_SQL@ && args.len() == 3 && args[0] is Text && args[1] is Integer
        && args[2] is Integer
    ||| sql == INSERT_NOTE_SQL@ && args.len() == 2 && args[0] is Text && args[1] is Integer
    ||| sql == UPDATE_SETTINGS_SQL@ && args.len() == 5 && args[0] is Text && args[1] is Text
        && args[2] is Text && args[3] is Integer && args[4] is Flag
}

/// What one of the library's statements did when SQLite ran it with `args`
/// and reported `changed` rows changed. Other statements, and other
/// arguments, are not described.
pub open spec fn statement_effect(
    sql: Seq<char>,
    args: Seq<SqlArg>,
    before: Connection,
    after: Connection,
    changed: usize,
) -> bool {
    let notes = notes_table(before);
    let settings = settings_table(before);
    &&& (sql == DELETE_NOTE_SQL@ && args.len() == 1 && args[0] is Integer) ==> {
        let id = args[0]->Integer_0;
        &&& notes_table(after) == notes.remove(id)
        &&& settings_table(after) == settings
        &&& last_rowid(after) == last_rowid(before)
        &&& changed == (if notes.contains_key(id) { 1usize } else { 0usize })
    }
    &&& (sql == UPDATE_NOTE_SQL@ && args.len() == 3 && args[0] is Text && args[1] is Integer
        && args[2] is Integer) ==> {
        let body = args[0]->Text_0@;
        let now = args[1]->Integer_0;
        let id = args[2]->Integer_0;
        &&& notes_table(after) == (if notes.contains_key(id) {
            notes.insert(id, (body, notes[id].1, now))
        } else {
            notes
        })
        &&& settings_table(after) == settings
        &&& last_rowid(after) == last_rowid(before)
        &&& changed == (if notes.contains_key(id) { 1usize } else { 0usize })
    }
    &&& (sql == INSERT_NOTE_SQL@ && args.len() == 2 && args[0] is Text && args[1] is Integer) ==> {
        let body = args[0]->Text_0@;
        let now = args[1]->Integer_0;
        let id = last_rowid(after);
        &&& !notes.contains_key(id)
        &&& notes_table(after) == notes.insert(id, (body, now, now))
        &&& settings_table(after) == settings
        &&& changed == 1
    }
    &&& (sql == UPDATE_SETTINGS_SQL@ && args.len() == 5 && args[0] is Text && args[1] is Text
        && args[2] is Text && args[3] is Integer && args[4] is Flag) ==> {
        let s = (
            args[0]->Text_0@,
            args[1]->Text_0@,
            args[2]->Text_0@,
            args[3]->Integer_0,
            args[4]->Flag_0,
        );
        &&& settings_table(after) == with_settings(settings, s)
        &&& notes_table(after) == notes
        &&& last_rowid(after) == last_rowid(before)
        &&& changed == (if settings.contains_key(1) { 1usize } else { 0usize })
    }
}

/// Calls `Connection::busy_timeout` with a timeout of `seconds` seconds
/// (`sqlite3_busy_timeout`). rusqlite panics when the timeout in
/// milliseconds does not fit in an `i32`, so larger timeouts are left out.
/// The tables and the other settings of the connection stay as they were;
/// on success the timeout is `seconds` seconds.
#[verifier::external_body]
fn busy_timeout(db: &mut Connection, seconds: u64) -> (r: Result<(), rusqlite::Error>)
    requires
        seconds <= 2_147_483,
    ensures
        unchanged(*old(db), *final(db)),
        synchronous_level(*final(db)) == synchronous_level(*old(db)),
        journal_mode(*final(db)) == journal_mode(*old(db)),
        r is Ok ==> busy_timeout_millis(*final(db)) == seconds * 1000,
{
    db.busy_timeout(std::time::Duration::from_secs(seconds))
}

/// Calls `Connection::execute_batch`. `SCHEMA_SQL` does not touch the busy
/// timeout. On success it leaves the notes as they were, adds the default
/// settings where none are stored (`CREATE TABLE IF NOT EXISTS`, `INSERT OR
/// IGNORE`), the settings table holding no row but row 1 (`CHECK (id = 1)`),
/// sets `synchronous` to `FULL`, and switches the journal to `wal`, or keeps
/// the journal mode where SQLite cannot switch it (`PRAGMA journal_mode`
/// then answers the old mode without an error; an in-memory database stays
/// `memory`). A failure may leave part of a batch done, so nothing more is
/// promised of it, nor of other SQL.
#[verifier::external_body]
fn execute_batch(db: &mut Connection, sql: &str) -> (r: Result<(), rusqlite::Error>)
    ensures
        sql@ == SCHEMA_SQL@ ==> busy_timeout_millis(*final(db)) == busy_timeout_millis(*old(db)),
        sql@ == SCHEMA_SQL@ && r is Ok ==> {
            &&& notes_table(*final(db)) == notes_table(*old(db))
            &&& settings_table(*final(db)) == with_default_settings(settings_table(*old(db)))
            &&& settings_table(*final(db)).dom().subset_of(set![1i64])
            &&& synchronous_level(*final(db)) == 2
            &&& journal_mode(*final(db)) == "wal"@ || journal_mode(*final(db)) == journal_mode(
                *old(db),
            )
        },
{
    db.execute_batch(sql)
}

/// Calls `Connection::execute` with `args` bound to `?1`, `?2`, ... in order.
/// For the library's statements (`described_statement`), none of which
/// returns rows or changes more than one row: a failed one changes nothing
/// (SQLite rolls a failed statement back), and a successful one did what
/// `statement_effect` says and returns the number of rows it changed.
/// Nothing is promised of other SQL.
#[verifier::external_body]
fn execute(db: &mut Connection, sql: &str, args: &Vec<SqlArg>) -> (r: Result<usize, rusqlite::Error>)
    ensures
        described_statement(sql@, args@) && r is Err ==> unchanged(*old(db), *final(db)),
        r matches Ok(n) ==> statement_effect(sql@, args@, *old(db), *final(db), n),
{
    let values: Vec<rusqlite::types::Value> = args.iter().map(|a| match a {
        SqlArg::Integer(v) => rusqlite::types::Value::Integer(*v),
        SqlArg::Text(t) => rusqlite::types::Value::Text(t.clone()),
        SqlArg::Flag(b) => rusqlite::types::Value::from(*b),
    }).collect();
    db.execute(sql, rusqlite::params_from_iter(values))
}

/// Calls `Connection::last_insert_rowid`.
#[verifier::external_body]
fn last_insert_rowid(db: &Connection) -> (id: i64)
    ensures
        id == last_rowid(*db),
{
    db.last_insert_rowid()
}

/// Calls `Connection::query_row` and reads the five columns of the row into
/// `Settings`; its `QueryReturnedNoRows` error becomes `Ok(None)`. For
/// `SELECT_SETTINGS_SQL` a row read is the stored settings, no row read
/// means none are stored, and without stored settings no row is read.
#[verifier::external_body]
fn query_settings(db: &Connection, sql: &str) -> (r: Result<Option<Settings>, rusqlite::Error>)
    ensures
        sql@ == SELECT_SETTINGS_SQL@ ==> {
            &&& r matches Ok(Some(s)) ==> settings_table(*db).contains_key(1)
                && s@ == settings_table(*db)[1]
            &&& r matches Ok(None) ==> !settings_table(*db).contains_key(1)
        },
{
    let read = db.query_row(sql, [], |row| {
        Ok(Settings {
            global_shortcut: row.get(0)?,
            new_note_shortcut: row.get(1)?,
            search_shortcut: row.get(2)?,
            font_size: row.get(3)?,
            menu_bar_mode: row.get(4)?,
        })
    });
    match read {
        Ok(s) => Ok(Some(s)),
        Err(rusqlite::Error::QueryReturnedNoRows) => Ok(None),
        Err(e) => Err(e),
    }
}

/// Calls `Connection::prepare`, then `Statement::query_map`, and collects
/// the rows, reading the four columns of each into a `Note`. For
/// `SELECT_NOTES_SQL` the rows read are the rows of the notes table.
#[verifier::external_body]
fn query_notes(db: &Connection, sql: &str) -> (r: Result<Vec<Note>, rusqlite::Error>)
    ensures
        sql@ == SELECT_NOTES_SQL@ ==> (r matches Ok(rows) ==> rows_of_table(rows@, notes_table(*db))),
{
    let mut statement = db.prepare(sql)?;
    let rows = statement.query_map([], |row| {
        Ok(Note {
            id: row.get(0)?,
            body: row.get(1)?,
            created_at: row.get(2)?,
            updated_at: row.get(3)?,
        })
    })?;
    rows.collect()
}

#[verifier::external_type_specification]
#[verifier::external_body]
pub struct ExSystemTime(std::time::SystemTime);

/// Calls `std::time::SystemTime::now`. The time is a function of nothing
/// here, so nothing is promised of it.
#[verifier::external_body]
fn system_time_now() -> (t: std::time::SystemTime) {
    std::time::SystemTime::now()
}

/// Calls `SystemTime::duration_since` with `UNIX_EPOCH`; `None` for a time
/// before the epoch (its error). Nothing more is promised.
#[verifier::external_body]
fn since_unix_epoch(t: std::time::SystemTime) -> (d: Option<std::time::Duration>) {
    t.duration_since(std::time::UNIX_EPOCH).ok()
}

/// Calls `Duration::as_millis`. A `Duration` has no model here, so nothing
/// is promised of the count.
#[verifier::external_body]
fn whole_millis(d: std::time::Duration) -> (ms: u128) {
    d.as_millis()
}

/// What saving `body` under `id` at the time `now` did to the notes table,
/// with the result `r`. A blank body is not kept: a new one is dropped and
/// an existing note is deleted. Otherwise the body replaces the note's body
/// and `now` its update time, its creation time staying, or, without an id,
/// it becomes a new note under an id not in use, created and updated at
/// `now`. Updating a note that does not exist fails with `MissingNote`.
/// Wherever SQLite refuses a statement the table is left as it was.
pub open spec fn note_saved(
    before: Map<i64, NoteRecord>,
    after: Map<i64, NoteRecord>,
    id: Option<i64>,
    body: Seq<char>,
    now: i64,
    r: Result<Option<i64>, StorageError>,
) -> bool {
    let refused = r matches Err(StorageError::Sqlite(_)) && after == before;
    if is_blank(body) {
        match id {
            None => r matches Ok(None) && after == before,
            Some(k) => (r matches Ok(None) && after == before.remove(k)) || refused,
        }
    } else {
        match id {
            Some(k) => if before.contains_key(k) {
                (r matches Ok(Some(x)) && x == k && after == before.insert(k, (body, before[k].1, now)))
                    || refused
            } else {
                (r matches Err(StorageError::MissingNote) && after == before) || refused
            },
            None => (r matches Ok(Some(k)) && !before.contains_key(k) && after == before.insert(
                k,
                (body, now, now),
            )) || refused,
        }
    }
}

/// The answer to an update of note `id` from the number of rows SQLite
/// changed, or its error: no row changed means the note does not exist.
pub fn update_outcome(id: i64, outcome: Result<usize, rusqlite::Error>) -> (r: Result<
    Option<i64>,
    StorageError,
>)
    ensures
        match outcome {
            Ok(0) => r matches Err(StorageError::MissingNote),
            Ok(_) => r == Ok::<Option<i64>, StorageError>(Some(id)),
            Err(e) => r == Err::<Option<i64>, StorageError>(StorageError::Sqlite(e)),
        },
{
    match outcome {
        Ok(0) => Err(StorageError::MissingNote),
        Ok(_) => Ok(Some(id)),
        Err(e) => Err(StorageError::Sqlite(e)),
    }
}

/// Saves the memo `body` under `id` (a new memo when `id` is `None`) at the
/// time `now`; returns the memo's id, or `None` when the body was blank and
/// nothing is kept.
pub fn save_at(db: &mut Connection, id: Option<i64>, body: &str, now: i64) -> (r: Result<
    Option<i64>,
    StorageError,
>)
    ensures
        note_saved(notes_table(*old(db)), notes_table(*final(db)), id, body@, now, r),
        settings_table(*final(db)) == settings_table(*old(db)),
{
    if is_blank_text(body) {
        if let Some(k) = id {
            let mut args: Vec<SqlArg> = Vec::new();
            args.push(SqlArg::Integer(k));
            if let Err(e) = execute(db, DELETE_NOTE_SQL, &args) {
                return Err(StorageError::Sqlite(e));
            }
        }
        return Ok(None);
    }
    match id {
        Some(k) => {
            let mut args: Vec<SqlArg> = Vec::new();
            args.push(SqlArg::Text(body.to_owned()));
            args.push(SqlArg::Integer(now));
            args.push(SqlArg::Integer(k));
            let outcome = execute(db, UPDATE_NOTE_SQL, &args);
            update_outcome(k, outcome)
        },
        None => {
            let mut args: Vec<SqlArg> = Vec::new();
            args.push(SqlArg::Text(body.to_owned()));
            args.push(SqlArg::Integer(now));
            match execute(db, INSERT_NOTE_SQL, &args) {
                Err(e) => Err(StorageError::Sqlite(e)),
                Ok(_) => Ok(Some(last_insert_rowid(db))),
            }
        },
    }
}

/// Saves the memo `body` under `id` (a new memo when `id` is `None`) at the
/// current time; returns the memo's id, or `None` when the body was blank
/// and nothing is kept.
pub fn save(db: &mut Connection, id: Option<i64>, body: &str) -> (r: Result<Option<i64>, StorageError>)
    ensures
        exists|now: i64| #[trigger]
            note_saved(notes_table(*old(db)), notes_table(*final(db)), id, body@, now, r),
        settings_table(*final(db)) == settings_table(*old(db)),
{
    let now: i64 = match since_unix_epoch(system_time_now()) {
        Some(d) => whole_millis(d) as i64,
        None => 0,
    };
    save_at(db, id, body, now)
}

/// The memos whose body contains `query` (ASCII letters without regard to
/// case), newest first; every memo for the empty query. It fails only where
/// SQLite fails to read the notes.
pub fn search(db: &Connection, query: &str) -> (r: Result<Vec<Note>, StorageError>)
    ensures
        r matches Ok(found) ==> is_search_result(notes_table(*db), query@, found@),
        r matches Err(e) ==> e is Sqlite,
{
    match query_notes(db, SELECT_NOTES_SQL) {
        Err(e) => Err(StorageError::Sqlite(e)),
        Ok(rows) => {
            let found = select_matching(&rows, query);
            proof {
                lemma_matching_rows_answer_search(rows@, notes_table(*db), query@, found@);
            }
            Ok(found)
        },
    }
}

/// What preparing the database did: the memos stay, the stored settings
/// stay (the defaults go in where none are stored) and row 1 is the only
/// settings row; the busy timeout is 5000 ms, `synchronous` is `FULL` and
/// the journal is `wal`, or in its old mode where SQLite cannot switch it.
pub open spec fn prepared_from(before: Connection, after: Connection) -> bool {
    &&& notes_table(after) == notes_table(before)
    &&& settings_table(after) == with_default_settings(settings_table(before))
    &&& settings_table(after).dom() == set![1i64]
    &&& busy_timeout_millis(after) == 5000
    &&& synchronous_level(after) == 2
    &&& journal_mode(after) == "wal"@ || journal_mode(after) == journal_mode(before)
}

/// Prepares the database: waits up to five seconds for a locked database,
/// creates the tables when missing and stores the default settings when none
/// are stored.
pub fn initialize(db: &mut Connection) -> (r: Result<(), StorageError>)
    ensures
        r is Ok ==> prepared_from(*old(db), *final(db)),
        r matches Err(e) ==> e is Sqlite,
{
    if let Err(e) = busy_timeout(db, 5) {
        return Err(StorageError::Sqlite(e));
    }
    match execute_batch(db, SCHEMA_SQL) {
        Ok(()) => {
            assert(settings_table(*db).dom() =~= set![1i64]);
            Ok(())
        },
        Err(e) => Err(StorageError::Sqlite(e)),
    }
}

/// The answer to a read of the stored settings from what SQLite gave back:
/// the settings read, no row (`MissingSettings`), or its error.
pub fn settings_read_outcome(read: Result<Option<Settings>, rusqlite::Error>) -> (r: Result<
    Settings,
    StorageError,
>)
    ensures
        match read {
            Ok(Some(s)) => r == Ok::<Settings, StorageError>(s),
            Ok(None) => r matches Err(StorageError::MissingSettings),
            Err(e) => r == Err::<Settings, StorageError>(StorageError::Sqlite(e)),
        },
{
    match read {
        Ok(Some(s)) => Ok(s),
        Ok(None) => Err(StorageError::MissingSettings),
        Err(e) => Err(StorageError::Sqlite(e)),
    }
}

/// Reads the stored settings. Without stored settings it fails: with
/// `MissingSettings` where SQLite read no row, else with SQLite's error.
pub fn load_settings(db: &Connection) -> (r: Result<Settings, StorageError>)
    ensures
        r matches Ok(s) ==> settings_table(*db).contains_key(1) && s@ == settings_table(*db)[1],
        r matches Err(StorageError::MissingSettings) ==> !settings_table(*db).contains_key(1),
        !settings_table(*db).contains_key(1) ==> r is Err,
        r matches Err(e) ==> e is Sqlite || e is MissingSettings,
{
    settings_read_outcome(query_settings(db, SELECT_SETTINGS_SQL))
}

/// Stores `settings` in place of the stored settings; a failure is SQLite's
/// and changes nothing.
pub fn save_settings(db: &mut Connection, settings: &Settings) -> (r: Result<(), StorageError>)
    ensures
        notes_table(*final(db)) == notes_table(*old(db)),
        r is Ok ==> settings_table(*final(db)) == with_settings(settings_table(*old(db)), settings@),
        last_rowid(*final(db)) == last_rowid(*old(db)),
        settings_table(*final(db)).dom() == settings_table(*old(db)).dom(),
        r is Err ==> settings_table(*final(db)) == settings_table(*old(db)),
        r matches Err(e) ==> e is Sqlite,
{
    let mut args: Vec<SqlArg> = Vec::new();
    args.push(SqlArg::Text(settings.global_shortcut.clone()));
    args.push(SqlArg::Text(settings.new_note_shortcut.clone()));
    args.push(SqlArg::Text(settings.search_shortcut.clone()));
    args.push(SqlArg::Integer(settings.font_size));
    args.push(SqlArg::Flag(settings.menu_bar_mode));
    match execute(db, UPDATE_SETTINGS_SQL, &args) {
        Ok(_) => Ok(()),
        Err(e) => Err(StorageError::Sqlite(e)),
    }
}

/// Law: settings that were stored are read back as they were stored, and
/// storing keeps the rows of the settings table: once prepared, row 1 alone.
pub proof fn law_stored_settings_are_read_back(table: Map<i64, SettingsRecord>, s: SettingsRecord)
    requires
        table.contains_key(1),
    ensures
        with_settings(table, s).contains_key(1),
        with_settings(table, s)[1] == s,
        with_settings(table, s).dom() == table.dom(),
{
    assert(with_settings(table, s).dom() =~= table.dom());
}

/// Law: after the database is prepared there are settings to read; on a
/// database without settings they are the defaults, stored settings stay as
/// they are, and preparing the database again changes nothing.
pub proof fn law_prepared_database_has_settings(table: Map<i64, SettingsRecord>)
    ensures
        with_default_settings(table).contains_key(1),
        !table.contains_key(1) ==> with_default_settings(table)[1] == default_settings(),
        table.contains_key(1) ==> with_default_settings(table) == table,
        with_default_settings(with_default_settings(table)) == with_default_settings(table),
{
}

/// Law: preparing a database that holds settings keeps its memos and its
/// stored settings; nothing is reset to the defaults.
pub proof fn law_preparing_again_keeps_data(before: Connection, after: Connection)
    requires
        settings_table(before).contains_key(1),
        prepared_from(before, after),
    ensures
        notes_table(after) == notes_table(before),
        settings_table(after) == settings_table(before),
{
}

/// Law: settings stored by `save_settings` on a prepared database are what
/// `load_settings` reads back, field for field, with nothing checked or
/// clamped on the way; row 1 stays the only settings row.
pub proof fn law_saved_settings_load_back(
    before: Connection,
    after: Connection,
    stored: SettingsRecord,
    loaded: SettingsRecord,
)
    requires
        settings_table(before).dom() == set![1i64],
        settings_table(after) == with_settings(settings_table(before), stored),
        settings_table(after).contains_key(1) && loaded == settings_table(after)[1],
    ensures
        loaded == stored,
        settings_table(after).dom() == set![1i64],
{
    assert(settings_table(before).contains_key(1));
    law_stored_settings_are_read_back(settings_table(before), stored);
}

/// Law: a memo saved with a visible body is kept under the id the save
/// returns, with that body, and every search whose query the body answers
/// finds it there.
pub proof fn law_saved_memo_is_found(
    before: Map<i64, NoteRecord>,
    after: Map<i64, NoteRecord>,
    id: Option<i64>,
    body: Seq<char>,
    now: i64,
    r: Result<Option<i64>, StorageError>,
    query: Seq<char>,
    found: Seq<Note>,
)
    requires
        note_saved(before, after, id, body, now, r),
        r is Ok,
        !is_blank(body),
        note_matches(body, query),
        is_search_result(after, query, found),
    ensures
        r matches Ok(Some(k)) && after.contains_key(k) && after[k].0 == body && after[k].2 == now
            && exists|a: int| 0 <= a < found.len() && #[trigger] found[a].id == k && found[a].body@ == body,
{
    let k = r->Ok_0->Some_0;
    assert(after.contains_key(k) && after[k].0 == body);
    let a = choose|a: int| 0 <= a < found.len() && #[trigger] found[a].id == k;
    assert(found[a].body@ == body);
}

/// Law: a blank memo is never kept. Saving one without an id stores
/// nothing; saving one under an id deletes that memo; either way the save
/// answers no id.
pub proof fn law_blank_memo_is_not_kept(
    before: Map<i64, NoteRecord>,
    after: Map<i64, NoteRecord>,
    id: Option<i64>,
    body: Seq<char>,
    now: i64,
    r: Result<Option<i64>, StorageError>,
)
    requires
        note_saved(before, after, id, body, now, r),
        r is Ok,
        is_blank(body),
    ensures
        r matches Ok(None),
        id is None ==> after == before,
        id matches Some(k) ==> !after.contains_key(k) && after == before.remove(k),
{
}

/// Law: editing a memo keeps its creation time, sets its update time to
/// the time of the save, and leaves every other memo as it was.
pub proof fn law_edit_keeps_creation_time(
    before: Map<i64, NoteRecord>,
    after: Map<i64, NoteRecord>,
    k: i64,
    body: Seq<char>,
    now: i64,
    r: Result<Option<i64>, StorageError>,
)
    requires
        note_saved(before, after, Some(k), body, now, r),
        r is Ok,
        !is_blank(body),
    ensures
        r matches Ok(Some(x)) && x == k,
        before.contains_key(k),
        after.contains_key(k),
        after[k] == (body, before[k].1, now),
        forall|j: i64| j != k ==> (#[trigger] after.contains_key(j) == before.contains_key(j)) && (
        after.contains_key(j) ==> after[j] == before[j]),
{
}

} // verus!
