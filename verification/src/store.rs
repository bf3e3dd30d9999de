//! The seed store: one table of seeds per category in an SQLite database, filled
//! up to a capacity and emptied one seed at a time.
//!
//! The database is reached through `rusqlite`. What it holds is modelled by three
//! names: [`seed_tables`], [`open_transaction`] and [`exclusive`]. The statements
//! that the store runs are the trusted functions at the end of this file, and
//! everything else is proved from what they state.

use crate::model::{
    adoption_due, bytes_of, game_table, known_table, legacy_table, lemma_put_twice,
    lemma_table_names_differ, migrated, put, seed_declaration, started, sync_table, table_name,
    with_table, without, Tables,
};
use crate::serve::same_text;
use rusqlite::Connection;
use rusqlite::OptionalExtension;
use vstd::prelude::*;

verus! {

/// A connection to an SQLite database.
#[verifier::external_type_specification]
#[verifier::external_body]
pub struct ExConnection(Connection);

/// An error of `rusqlite`.
#[verifier::external_type_specification]
#[verifier::external_body]
pub struct ExSqlError(rusqlite::Error);

/// The seed tables that a connection sees in its main database: for the name of each
/// table that is declared as a seed table ([`seed_declaration`]) and has nothing
/// else declared to its name, the texts in its column `seed`, each as its bytes,
/// whether or not they spell characters. A table of another declaration is none
/// of them, whatever its name.
pub uninterp spec fn seed_tables(conn: Connection) -> Tables;

/// The transaction that a connection has open: `None` while it has none, else the
/// seed tables as they were when the transaction began, which are what a rollback
/// brings back.
pub uninterp spec fn open_transaction(conn: Connection) -> Option<Tables>;

/// Whether a connection holds the exclusive lock of its database for as long as it
/// lives, which keeps out every other process and every connection that does not
/// share its cache. What two statements of such a connection see, one after the
/// other, differs by nothing but what the first one did.
pub uninterp spec fn exclusive(conn: Connection) -> bool;

/// A failure of the store, with an account of it.
#[derive(Debug)]
pub struct DbError {
    pub message: String,
}

/// What the store returns: a value, or the failure that kept it from giving one.
pub type DbResult<T> = Result<T, DbError>;

/// What the store makes of the database's answer to one statement: the value that
/// came back, or a failure that carries the database's account of its error.
pub fn from_sql<T>(answer: Result<T, rusqlite::Error>) -> (outcome: DbResult<T>)
    ensures
        match answer {
            Ok(value) => outcome == Ok::<T, DbError>(value),
            Err(_) => outcome is Err,
        },
{
    match answer {
        Ok(value) => Ok(value),
        Err(e) => Err(DbError { message: error_text(&e) }),
    }
}

/// Whether a category that holds `count` seeds takes one more under the limit
/// `max_seeds`.
pub fn has_room(count: usize, max_seeds: usize) -> (room: bool)
    ensures
        room == (count < max_seeds),
{
    count < max_seeds
}

/// Whether `sql` declares a seed table of the name `table`.
pub fn is_seed_declaration(table: &str, sql: &str) -> (declared: bool)
    ensures
        declared == seed_declaration(table@, sql@),
{
    if same_text(table, "game_seeds") {
        same_text(sql, "CREATE TABLE game_seeds (seed TEXT PRIMARY KEY)") || same_text(
            sql,
            "CREATE TABLE \"game_seeds\" (seed TEXT PRIMARY KEY)",
        )
    } else if same_text(table, "sync_seeds") {
        same_text(sql, "CREATE TABLE sync_seeds (seed TEXT PRIMARY KEY)") || same_text(
            sql,
            "CREATE TABLE \"sync_seeds\" (seed TEXT PRIMARY KEY)",
        )
    } else if same_text(table, "seeds") {
        same_text(sql, "CREATE TABLE seeds (seed TEXT PRIMARY KEY)") || same_text(
            sql,
            "CREATE TABLE \"seeds\" (seed TEXT PRIMARY KEY)",
        )
    } else {
        false
    }
}

/// Whether a legacy table is to be adopted: there is one, and the `game` category has
/// no table yet.
pub fn adoption_is_due(legacy_there: bool, game_there: bool) -> (due: bool)
    ensures
        due == (legacy_there && !game_there),
{
    legacy_there && !game_there
}

/// Passes a table that was found to be a seed table and refuses one that was not,
/// with a failure that names it.
pub fn require_seed_table(table: &str, there: bool) -> (passed: DbResult<()>)
    ensures
        passed is Ok <==> there,
{
    if there {
        Ok(())
    } else {
        let mut message = table.to_owned();
        message.append(" is not a table of seeds");
        Err(DbError { message })
    }
}

/// Whether the database holds a seed table of the name `table`, judged by the
/// declaration that the database keeps of it.
fn has_seed_table(conn: &Connection, table: &str) -> (held: DbResult<bool>)
    requires
        known_table(table@),
        exclusive(*conn),
    ensures
        held matches Ok(there) ==> there == seed_tables(*conn).dom().contains(table@),
{
    match from_sql(table_declaration(conn, table)) {
        Ok(Some(sql)) => Ok(is_seed_declaration(table, sql.as_str())),
        Ok(None) => Ok(false),
        Err(e) => Err(e),
    }
}

/// The seed store.
pub struct Db {
    conn: Connection,
    adopted: bool,
    broken: bool,
}

impl Db {
    /// The seed tables of the store.
    pub closed spec fn tables(&self) -> Tables {
        seed_tables(self.conn)
    }

    /// Whether the store, when it was set up, found a legacy table and made it the
    /// table of the `game` category.
    pub closed spec fn adopted_legacy(&self) -> bool {
        self.adopted
    }

    /// Whether the store has given up: a transaction of its could be neither
    /// committed nor rolled back. A broken store runs no statement any more and
    /// fails every call.
    pub closed spec fn broken(&self) -> bool {
        self.broken
    }

    /// What holds of every store between two calls: it has its database to itself,
    /// and unless it is broken no transaction is open and the table of each category
    /// is there. [`Db::new`] and [`Db::from_connection`] make stores of which it
    /// holds, and every call keeps it.
    pub closed spec fn wf(&self) -> bool {
        &&& exclusive(self.conn)
        &&& !self.broken ==> {
            &&& open_transaction(self.conn) is None
            &&& seed_tables(self.conn).dom().contains(game_table())
            &&& seed_tables(self.conn).dom().contains(sync_table())
        }
    }

    /// Whether the table of a category exists.
    pub open spec fn has_table(&self, is_sync: bool) -> bool {
        self.tables().dom().contains(table_name(is_sync))
    }

    /// The seeds stored for a category.
    pub open spec fn seeds(&self, is_sync: bool) -> Set<Seq<u8>> {
        self.tables()[table_name(is_sync)]
    }

    /// Opens the database at `db_path`, creating it if there is none, and sets up
    /// the store in it as [`Db::from_connection`] does. The database `:memory:` is a
    /// new one that holds nothing, so the store in it starts with both categories
    /// empty.
    pub fn new(db_path: &str) -> (made: DbResult<Db>)
        ensures
            made matches Ok(db) ==> {
                &&& db.wf()
                &&& !db.broken()
                &&& db.has_table(false)
                &&& db.has_table(true)
                &&& db.adopted_legacy() ==> !db.tables().dom().contains(legacy_table())
                &&& db_path@ == ":memory:"@ ==> {
                    &&& !db.adopted_legacy()
                    &&& db.tables() == started(Map::empty(), false)
                    &&& db.seeds(false) == Set::<Seq<u8>>::empty()
                    &&& db.seeds(true) == Set::<Seq<u8>>::empty()
                }
            },
    {
        proof {
            lemma_table_names_differ();
        }
        match from_sql(open_connection(db_path)) {
            Ok(conn) => Db::from_connection(conn),
            Err(e) => Err(e),
        }
    }

    /// Sets up the store in the database behind `conn`. It fails if the connection
    /// has a transaction open. The store first takes the database for itself. A
    /// legacy seed table, if there is one and the `game` category has no seed table
    /// yet, is renamed to be the table of the `game` category with all its seeds; a
    /// failure of that step is passed over. Then the table of each category is
    /// created unless it exists. Setting up fails unless both are seed tables in
    /// the end.
    ///
    /// What the store then holds follows from what the database held: the seeds of
    /// every table stay where they were, but for the legacy table's where it was
    /// adopted. Whether a legacy table that is due is adopted is the database's to
    /// say, and [`Db::migrated_legacy`] tells it.
    pub fn from_connection(conn: Connection) -> (made: DbResult<Db>)
        ensures
            open_transaction(conn) is Some ==> made is Err,
            made matches Ok(db) ==> {
                &&& db.wf()
                &&& !db.broken()
                &&& db.has_table(false)
                &&& db.has_table(true)
                &&& db.tables() == started(seed_tables(conn), db.adopted_legacy())
                &&& db.adopted_legacy() ==> adoption_due(seed_tables(conn))
                &&& db.adopted_legacy() ==> {
                    &&& db.tables() == with_table(migrated(seed_tables(conn)), sync_table())
                    &&& db.seeds(false) == seed_tables(conn)[legacy_table()]
                    &&& !db.tables().dom().contains(legacy_table())
                }
                &&& !db.adopted_legacy() ==> db.tables() == with_table(
                    with_table(seed_tables(conn), game_table()),
                    sync_table(),
                )
            },
    {
        let mut conn = conn;
        let ghost before = seed_tables(conn);
        proof {
            lemma_table_names_differ();
        }
        if !autocommit(&conn) {
            return Err(DbError { message: "the connection has a transaction open".to_owned() });
        }
        if let Err(e) = from_sql(lock_exclusively(&mut conn)) {
            return Err(e);
        }
        let legacy_there = match has_seed_table(&conn, "seeds") {
            Ok(there) => there,
            Err(e) => {
                return Err(e);
            },
        };
        let game_there = match has_seed_table(&conn, "game_seeds") {
            Ok(there) => there,
            Err(e) => {
                return Err(e);
            },
        };
        let mut adopted = false;
        if adoption_is_due(legacy_there, game_there) {
            if rename_table(&mut conn, "seeds", "game_seeds").is_ok() {
                // The renamed table counts only if nothing else answers to its name.
                let game_now = match has_seed_table(&conn, "game_seeds") {
                    Ok(there) => there,
                    Err(e) => {
                        return Err(e);
                    },
                };
                if let Err(e) = require_seed_table("game_seeds", game_now) {
                    return Err(e);
                }
                adopted = true;
            }
        }
        let ghost moved = seed_tables(conn);
        assert(moved == if adopted {
            migrated(before)
        } else {
            before
        });
        if let Err(e) = from_sql(create_table(&mut conn, "game_seeds")) {
            return Err(e);
        }
        let ghost with_game = seed_tables(conn);
        if let Err(e) = from_sql(create_table(&mut conn, "sync_seeds")) {
            return Err(e);
        }
        let game_made = match has_seed_table(&conn, "game_seeds") {
            Ok(there) => there,
            Err(e) => {
                return Err(e);
            },
        };
        let sync_made = match has_seed_table(&conn, "sync_seeds") {
            Ok(there) => there,
            Err(e) => {
                return Err(e);
            },
        };
        if let Err(e) = require_seed_table("game_seeds", game_made) {
            return Err(e);
        }
        if let Err(e) = require_seed_table("sync_seeds", sync_made) {
            return Err(e);
        }
        proof {
            assert(with_game == with_table(moved, game_table()));
            assert(seed_tables(conn) == with_table(with_game, sync_table()));
            if adopted {
                assert(seed_tables(conn)[game_table()] == before[legacy_table()]);
            }
        }
        Ok(Db { conn, adopted, broken: false })
    }

    /// Whether setting up the store adopted a legacy table.
    pub fn migrated_legacy(&self) -> (adopted: bool)
        ensures
            adopted == self.adopted_legacy(),
    {
        self.adopted
    }

    /// Whether the store is broken.
    pub fn is_broken(&self) -> (broken: bool)
        ensures
            broken == self.broken(),
    {
        self.broken
    }

    /// The name of a category's table.
    pub fn get_table_name(is_sync: bool) -> (name: &'static str)
        ensures
            name@ == table_name(is_sync),
    {
        if is_sync {
            "sync_seeds"
        } else {
            "game_seeds"
        }
    }

    /// The failure that a broken store answers every call with.
    fn refusal() -> (error: DbError) {
        DbError { message: "the store is broken: a transaction could not be ended".to_owned() }
    }

    /// The number of seeds stored for a category.
    pub fn get_seed_count(&self, is_sync: bool) -> (count: DbResult<usize>)
        requires
            self.wf(),
        ensures
            count matches Ok(n) ==> {
                &&& !self.broken()
                &&& self.has_table(is_sync)
                &&& self.seeds(is_sync).finite()
                &&& self.seeds(is_sync).len() == n
            },
            self.broken() ==> count is Err,
    {
        if self.broken {
            return Err(Self::refusal());
        }
        let table = Self::get_table_name(is_sync);
        from_sql(count_rows(&self.conn, table))
    }

    /// Stores a seed for a category. A seed that is stored already is left as it is,
    /// and that is no error. A call that fails changes nothing.
    pub fn insert_seed(&mut self, seed_hex: &str, is_sync: bool) -> (done: DbResult<()>)
        requires
            old(self).wf(),
        ensures
            final(self).wf(),
            final(self).adopted_legacy() == old(self).adopted_legacy(),
            final(self).broken() == old(self).broken(),
            old(self).broken() ==> done is Err,
            match done {
                Ok(_) => {
                    &&& old(self).has_table(is_sync)
                    &&& old(self).seeds(is_sync).finite()
                    &&& final(self).tables() == put(
                        old(self).tables(),
                        table_name(is_sync),
                        bytes_of(seed_hex@),
                    )
                    &&& final(self).seeds(is_sync) == old(self).seeds(is_sync).insert(bytes_of(seed_hex@))
                    &&& old(self).seeds(is_sync).len() <= final(self).seeds(is_sync).len() <= old(
                        self,
                    ).seeds(is_sync).len() + 1
                    &&& old(self).seeds(is_sync).contains(bytes_of(seed_hex@)) ==> final(self).tables()
                        == old(self).tables()
                },
                Err(_) => final(self).tables() == old(self).tables(),
            },
    {
        if self.broken {
            return Err(Self::refusal());
        }
        let table = Self::get_table_name(is_sync);
        let ghost before = self.tables();
        match from_sql(insert_row(&mut self.conn, table, seed_hex)) {
            Ok(_) => {
                proof {
                    lemma_table_names_differ();
                    lemma_put_twice(before, table_name(is_sync), bytes_of(seed_hex@));
                    if before[table_name(is_sync)].contains(bytes_of(seed_hex@)) {
                        assert(put(before, table_name(is_sync), bytes_of(seed_hex@)) =~= before);
                    }
                }
                Ok(())
            },
            Err(e) => Err(e),
        }
    }

    /// Stores a seed for a category unless the category holds `max_seeds` seeds or
    /// more: `Ok(true)` when it was stored or was there already, `Ok(false)` when
    /// the limit was reached. Only `Ok(true)` changes anything.
    pub fn insert_seed_with_limit(&mut self, seed_hex: &str, max_seeds: usize, is_sync: bool) -> (done:
        DbResult<bool>)
        requires
            old(self).wf(),
        ensures
            final(self).wf(),
            final(self).adopted_legacy() == old(self).adopted_legacy(),
            final(self).broken() == old(self).broken(),
            old(self).broken() ==> done is Err,
            match done {
                Ok(true) => {
                    &&& old(self).has_table(is_sync)
                    &&& old(self).seeds(is_sync).finite()
                    &&& old(self).seeds(is_sync).len() < max_seeds
                    &&& final(self).tables() == put(
                        old(self).tables(),
                        table_name(is_sync),
                        bytes_of(seed_hex@),
                    )
                    &&& final(self).seeds(is_sync) == old(self).seeds(is_sync).insert(bytes_of(seed_hex@))
                    &&& final(self).seeds(is_sync).len() <= max_seeds
                },
                Ok(false) => {
                    &&& old(self).has_table(is_sync)
                    &&& old(self).seeds(is_sync).finite()
                    &&& old(self).seeds(is_sync).len() >= max_seeds
                    &&& final(self).tables() == old(self).tables()
                },
                Err(_) => final(self).tables() == old(self).tables(),
            },
    {
        let seed_count = match self.get_seed_count(is_sync) {
            Ok(n) => n,
            Err(e) => {
                return Err(e);
            },
        };
        if !has_room(seed_count, max_seeds) {
            return Ok(false);
        }
        match self.insert_seed(seed_hex, is_sync) {
            Ok(()) => Ok(true),
            Err(e) => Err(e),
        }
    }

    /// Takes one seed of a category out of the store, whichever the database gives
    /// first, inside one transaction: `Ok(Some(seed))` when the seed was deleted and
    /// the deletion committed, `Ok(None)` when the category holds no seed. After a
    /// failure the transaction is rolled back, so that the store holds what it held
    /// and the seed, if one was read, is not handed out; only where the rollback
    /// fails too is the store broken from then on.
    pub fn fetch_and_delete_seed(&mut self, is_sync: bool) -> (taken: DbResult<Option<String>>)
        requires
            old(self).wf(),
        ensures
            final(self).wf(),
            final(self).adopted_legacy() == old(self).adopted_legacy(),
            old(self).broken() ==> taken is Err && final(self).broken(),
            match taken {
                Ok(Some(seed)) => {
                    &&& !final(self).broken()
                    &&& old(self).has_table(is_sync)
                    &&& old(self).seeds(is_sync).finite()
                    &&& old(self).seeds(is_sync).contains(bytes_of(seed@))
                    &&& final(self).tables() == without(
                        old(self).tables(),
                        table_name(is_sync),
                        bytes_of(seed@),
                    )
                    &&& final(self).seeds(is_sync) == old(self).seeds(is_sync).remove(bytes_of(seed@))
                    &&& !final(self).seeds(is_sync).contains(bytes_of(seed@))
                    &&& final(self).seeds(is_sync).len() == old(self).seeds(is_sync).len() - 1
                },
                Ok(None) => {
                    &&& !final(self).broken()
                    &&& old(self).has_table(is_sync)
                    &&& old(self).seeds(is_sync) == Set::<Seq<u8>>::empty()
                    &&& final(self).tables() == old(self).tables()
                },
                Err(_) => final(self).broken() || final(self).tables() == old(self).tables(),
            },
    {
        if self.broken {
            return Err(Self::refusal());
        }
        let table = Self::get_table_name(is_sync);
        let ghost before = self.tables();
        if let Err(e) = from_sql(begin(&mut self.conn)) {
            return Err(e);
        }
        match from_sql(first_row(&self.conn, table)) {
            Ok(found) => self.complete_take(is_sync, found, Ghost(before)),
            Err(e) => {
                self.abandon(Ghost(before));
                Err(e)
            },
        }
    }

    /// Ends a take in the transaction that is open: deletes the seed that was read,
    /// if one was, and commits. What it returns when that has succeeded is what was
    /// read, be it a seed or none; after a failure the transaction is abandoned.
    fn complete_take(
        &mut self,
        is_sync: bool,
        found: Option<String>,
        Ghost(before): Ghost<Tables>,
    ) -> (taken: DbResult<Option<String>>)
        requires
            exclusive(old(self).conn),
            !old(self).broken(),
            old(self).tables() == before,
            open_transaction(old(self).conn) == Some(before),
            before.dom().contains(game_table()),
            before.dom().contains(sync_table()),
        ensures
            final(self).wf(),
            final(self).adopted_legacy() == old(self).adopted_legacy(),
            match taken {
                Ok(seed) => {
                    &&& seed == found
                    &&& !final(self).broken()
                    &&& final(self).tables() == match found {
                        Some(read) => without(before, table_name(is_sync), bytes_of(read@)),
                        None => before,
                    }
                },
                Err(_) => final(self).broken() || final(self).tables() == before,
            },
    {
        let table = Self::get_table_name(is_sync);
        proof {
            lemma_table_names_differ();
        }
        if let Some(seed) = &found {
            if let Err(e) = from_sql(delete_row(&mut self.conn, table, seed.as_str())) {
                self.abandon(Ghost(before));
                return Err(e);
            }
        }
        if let Err(e) = from_sql(commit(&mut self.conn)) {
            self.abandon(Ghost(before));
            return Err(e);
        }
        Ok(found)
    }

    /// Gives a transaction up: rolls it back unless the database has ended it
    /// already. Where the rollback fails the store is broken.
    fn abandon(&mut self, Ghost(before): Ghost<Tables>)
        requires
            exclusive(old(self).conn),
            !old(self).broken(),
            before.dom().contains(game_table()),
            before.dom().contains(sync_table()),
            match open_transaction(old(self).conn) {
                Some(began) => began == before,
                None => old(self).tables() == before,
            },
        ensures
            final(self).wf(),
            final(self).adopted_legacy() == old(self).adopted_legacy(),
            final(self).broken() || final(self).tables() == before,
    {
        if !autocommit(&self.conn) {
            if rollback(&mut self.conn).is_err() {
                self.broken = true;
            }
        }
    }
}

/// Opens the database at `path` by `Connection::open`. A connection that was just
/// opened has no transaction open, and the database `:memory:` is a new one of the
/// connection's own, without any table.
#[verifier::external_body]
fn open_connection(path: &str) -> (opened: Result<Connection, rusqlite::Error>)
    ensures
        opened matches Ok(conn) ==> {
            &&& open_transaction(conn) is None
            &&& path@ == ":memory:"@ ==> seed_tables(conn) == Map::<
                Seq<char>,
                Set<Seq<u8>>,
            >::empty()
        },
{
    Connection::open(path)
}

/// Writes an error out as its `Display` does.
#[verifier::external_body]
fn error_text(error: &rusqlite::Error) -> (text: String) {
    error.to_string()
}

/// Tells by `Connection::is_autocommit` whether the connection has no transaction
/// open.
#[verifier::external_body]
fn autocommit(conn: &Connection) -> (free: bool)
    ensures
        free == (open_transaction(*conn) is None),
{
    conn.is_autocommit()
}

/// Runs `PRAGMA locking_mode = EXCLUSIVE; BEGIN EXCLUSIVE; COMMIT` by
/// `Connection::execute_batch`: the connection takes the exclusive lock of its
/// database and, in this locking mode, keeps it when the transaction ends. No
/// table changes, and no transaction is left open.
#[verifier::external_body]
fn lock_exclusively(conn: &mut Connection) -> (done: Result<(), rusqlite::Error>)
    requires
        open_transaction(*old(conn)) is None,
    ensures
        done is Ok ==> {
            &&& exclusive(*final(conn))
            &&& open_transaction(*final(conn)) is None
            &&& seed_tables(*final(conn)) == seed_tables(*old(conn))
        },
{
    conn.execute_batch("PRAGMA locking_mode = EXCLUSIVE; BEGIN EXCLUSIVE; COMMIT")
}

/// Reads what the database keeps declared under the table name `table`, in whatever
/// case it is written, by `Connection::query_row` on its two catalogues: the
/// declarations of the table and of every index, trigger or view that belongs to
/// it, joined by `;`, those of the temporary catalogue marked `temp:`; `None` where
/// there is none. The table is a
/// seed table exactly if that is the one declaration of a seed table and nothing
/// else.
#[verifier::external_body]
fn table_declaration(conn: &Connection, table: &str) -> (found: Result<
    Option<String>,
    rusqlite::Error,
>)
    requires
        known_table(table@),
        exclusive(*conn),
    ensures
        found matches Ok(declared) ==> (seed_tables(*conn).dom().contains(table@) <==> (
        declared matches Some(sql) && seed_declaration(table@, sql@))),
{
    conn.query_row(
        "SELECT group_concat(sql, ';') FROM (
             SELECT sql FROM main.sqlite_master WHERE tbl_name = ?1 COLLATE NOCASE
             UNION ALL
             SELECT 'temp:' || sql FROM temp.sqlite_master WHERE tbl_name = ?1 COLLATE NOCASE)",
        [table],
        |row| row.get(0),
    )
}

/// Runs `ALTER TABLE main.from RENAME TO to` on a seed table, where no seed table is
/// named `to`, by `Connection::execute`. Where the statement succeeds `from` is
/// gone and no other seed table has changed; the table is now named `to`, and it
/// is a seed table under that name with the seeds it held, unless something in the
/// temporary catalogue answers to that name, in which case `to` is no seed table.
/// A statement that fails changes nothing.
#[verifier::external_body]
fn rename_table(conn: &mut Connection, from: &str, to: &str) -> (done: Result<
    usize,
    rusqlite::Error,
>)
    requires
        known_table(from@),
        known_table(to@),
        exclusive(*old(conn)),
        open_transaction(*old(conn)) is None,
        seed_tables(*old(conn)).dom().contains(from@),
        !seed_tables(*old(conn)).dom().contains(to@),
    ensures
        exclusive(*final(conn)),
        open_transaction(*final(conn)) is None,
        match done {
            Ok(_) => {
                ||| seed_tables(*final(conn)) == seed_tables(*old(conn)).remove(from@).insert(
                    to@,
                    seed_tables(*old(conn))[from@],
                )
                ||| seed_tables(*final(conn)) == seed_tables(*old(conn)).remove(from@)
            },
            Err(_) => seed_tables(*final(conn)) == seed_tables(*old(conn)),
        },
{
    conn.execute(&format!("ALTER TABLE main.{} RENAME TO {}", from, to), ())
}

/// Runs `CREATE TABLE IF NOT EXISTS main.table (seed TEXT PRIMARY KEY)` by
/// `Connection::execute`. Where the statement succeeds, either an empty seed table
/// of that name is new, or nothing has changed because the name was taken, be it
/// by a seed table or by something else. A statement that fails changes nothing.
#[verifier::external_body]
fn create_table(conn: &mut Connection, table: &str) -> (done: Result<usize, rusqlite::Error>)
    requires
        known_table(table@),
        exclusive(*old(conn)),
        open_transaction(*old(conn)) is None,
    ensures
        exclusive(*final(conn)),
        open_transaction(*final(conn)) is None,
        seed_tables(*final(conn)) == seed_tables(*old(conn)) || (done is Ok && !seed_tables(
            *old(conn),
        ).dom().contains(table@) && seed_tables(*final(conn)) == seed_tables(*old(conn)).insert(
            table@,
            Set::empty(),
        )),
{
    conn.execute(&format!("CREATE TABLE IF NOT EXISTS main.{} (seed TEXT PRIMARY KEY)", table), ())
}

/// Runs `SELECT COUNT(*) FROM main.table WHERE typeof(seed) = 'text'` on a seed table
/// by `Connection::query_row` and reads the number, which is that of the table's
/// seeds: the key lets no text stand in it twice.
#[verifier::external_body]
fn count_rows(conn: &Connection, table: &str) -> (count: Result<usize, rusqlite::Error>)
    requires
        known_table(table@),
        exclusive(*conn),
        seed_tables(*conn).dom().contains(table@),
    ensures
        count matches Ok(n) ==> {
            &&& seed_tables(*conn)[table@].finite()
            &&& seed_tables(*conn)[table@].len() == n
        },
{
    conn.query_row(
        &format!("SELECT COUNT(*) FROM main.{} WHERE typeof(seed) = 'text'", table),
        (),
        |row| row.get(0),
    )
}

/// Runs `INSERT OR IGNORE INTO main.table VALUES (?)` with `seed` on a seed table, outside
/// any transaction, by `Connection::execute`. Where it succeeds the table, which
/// held finitely many seeds, holds the seed besides what it held. A statement that
/// fails changes nothing.
#[verifier::external_body]
fn insert_row(conn: &mut Connection, table: &str, seed: &str) -> (done: Result<
    usize,
    rusqlite::Error,
>)
    requires
        known_table(table@),
        exclusive(*old(conn)),
        open_transaction(*old(conn)) is None,
        seed_tables(*old(conn)).dom().contains(table@),
    ensures
        exclusive(*final(conn)),
        open_transaction(*final(conn)) is None,
        match done {
            Ok(_) => {
                &&& seed_tables(*old(conn))[table@].finite()
                &&& seed_tables(*final(conn)) == put(seed_tables(*old(conn)), table@, bytes_of(seed@))
            },
            Err(_) => seed_tables(*final(conn)) == seed_tables(*old(conn)),
        },
{
    conn.execute(&format!("INSERT OR IGNORE INTO main.{} VALUES (?)", table), [seed])
}

/// Runs `SELECT seed FROM main.table WHERE typeof(seed) = 'text' LIMIT 1` on a seed
/// table by `Connection::query_row`, with no row turned into `None` by
/// `OptionalExtension::optional`. A seed that comes back is a text of the table's,
/// and none comes back only if the table holds no text. A text that is no string
/// of characters makes the call fail.
#[verifier::external_body]
fn first_row(conn: &Connection, table: &str) -> (found: Result<Option<String>, rusqlite::Error>)
    requires
        known_table(table@),
        exclusive(*conn),
        seed_tables(*conn).dom().contains(table@),
    ensures
        match found {
            Ok(Some(seed)) => {
                &&& seed_tables(*conn)[table@].finite()
                &&& seed_tables(*conn)[table@].contains(bytes_of(seed@))
            },
            Ok(None) => seed_tables(*conn)[table@] == Set::<Seq<u8>>::empty(),
            Err(_) => true,
        },
{
    conn.query_row(
        &format!("SELECT seed FROM main.{} WHERE typeof(seed) = 'text' LIMIT 1", table),
        (),
        |row| row.get(0),
    ).optional()
}

/// What a statement that failed inside a transaction has left: either the
/// transaction as it was, or no transaction and the tables as they were when it
/// began, where the database rolled it back on its own.
pub open spec fn failed_in_transaction(before: Connection, after: Connection) -> bool {
    ||| {
        &&& open_transaction(after) == open_transaction(before)
        &&& seed_tables(after) == seed_tables(before)
    }
    ||| {
        &&& open_transaction(after) is None
        &&& open_transaction(before) matches Some(began)
        &&& seed_tables(after) == began
    }
}

/// Runs `DELETE FROM main.table WHERE seed = ?` with `seed` on a seed table, inside the
/// open transaction, by `Connection::execute`. Where it succeeds the table holds
/// what it held but for the seed, and the transaction stays open.
#[verifier::external_body]
fn delete_row(conn: &mut Connection, table: &str, seed: &str) -> (done: Result<
    usize,
    rusqlite::Error,
>)
    requires
        known_table(table@),
        exclusive(*old(conn)),
        open_transaction(*old(conn)) is Some,
        seed_tables(*old(conn)).dom().contains(table@),
    ensures
        exclusive(*final(conn)),
        match done {
            Ok(_) => {
                &&& open_transaction(*final(conn)) == open_transaction(*old(conn))
                &&& seed_tables(*final(conn)) == without(seed_tables(*old(conn)), table@, bytes_of(seed@))
            },
            Err(_) => failed_in_transaction(*old(conn), *final(conn)),
        },
{
    conn.execute(&format!("DELETE FROM main.{} WHERE seed = ?", table), [seed])
}

/// Runs `BEGIN DEFERRED` by `Connection::execute_batch`, the statement that
/// `Connection::transaction` opens a transaction with. Where it succeeds a
/// transaction is open that began with the tables as they are; where it fails none
/// is. It changes no table.
#[verifier::external_body]
fn begin(conn: &mut Connection) -> (done: Result<(), rusqlite::Error>)
    requires
        exclusive(*old(conn)),
        open_transaction(*old(conn)) is None,
    ensures
        exclusive(*final(conn)),
        seed_tables(*final(conn)) == seed_tables(*old(conn)),
        match done {
            Ok(_) => open_transaction(*final(conn)) == Some(seed_tables(*old(conn))),
            Err(_) => open_transaction(*final(conn)) is None,
        },
{
    conn.execute_batch("BEGIN DEFERRED")
}

/// Runs `COMMIT` by `Connection::execute_batch`, as `Transaction::commit` does.
/// Where it succeeds the transaction is over and the tables are as it left them.
#[verifier::external_body]
fn commit(conn: &mut Connection) -> (done: Result<(), rusqlite::Error>)
    requires
        exclusive(*old(conn)),
        open_transaction(*old(conn)) is Some,
    ensures
        exclusive(*final(conn)),
        match done {
            Ok(_) => {
                &&& open_transaction(*final(conn)) is None
                &&& seed_tables(*final(conn)) == seed_tables(*old(conn))
            },
            Err(_) => failed_in_transaction(*old(conn), *final(conn)),
        },
{
    conn.execute_batch("COMMIT")
}

/// Runs `ROLLBACK` by `Connection::execute_batch`, as a `Transaction` does when it
/// is dropped. Where it succeeds the transaction is over and the tables are as
/// they were when it began. Nothing is promised of a rollback that fails.
#[verifier::external_body]
fn rollback(conn: &mut Connection) -> (done: Result<(), rusqlite::Error>)
    requires
        exclusive(*old(conn)),
        open_transaction(*old(conn)) is Some,
    ensures
        exclusive(*final(conn)),
        done is Ok ==> {
            &&& open_transaction(*final(conn)) is None
            &&& open_transaction(*old(conn)) matches Some(began)
            &&& seed_tables(*final(conn)) == began
        },
{
    conn.execute_batch("ROLLBACK")
}

} // verus!
