//! The SQLite adapter: the concrete storage port backed by a single-table
//! relational store, `file_hash(path TEXT PRIMARY KEY, hash TEXT NOT NULL)`.
//! The sqlite crate's calls stand behind trusted wrappers whose contracts
//! speak over `db_rows`, the table's contents; everything around them is
//! verified against the port's contract.

use crate::entities::FileHash;
use crate::stockage::{RepoCreateError, RepoDeleteError, RepoFindAllError, StockageHash};
use vstd::prelude::*;

verus! {

/// The sqlite crate's connection handle. Verus does not look inside it;
/// what its database holds is tracked through `db_rows`.
#[verifier::external_type_specification]
#[verifier::external_body]
pub struct ExConnection(sqlite::Connection);

/// The rows of the connection's backing table, path to digest. The model
/// is a function of the connection value, so the contracts written over it
/// assume this connection is the only writer to its database file while
/// the adapter lives; a second writer to the same file is outside them.
pub uninterp spec fn db_rows(c: sqlite::Connection) -> Map<Seq<char>, Seq<char>>;

/// Relies on sqlite::open: opens a read-write connection to a new or
/// existing database file, failing on a backend error. What rows an
/// existing database already holds depends on the disk, so nothing is
/// promised of the contents.
#[verifier::external_body]
fn db_open(path: &str) -> (r: Option<sqlite::Connection>) {
    sqlite::open(path).ok()
}

/// Relies on Connection::execute on a CREATE TABLE IF NOT EXISTS statement:
/// makes sure the backing table exists, an idempotent setup step. It takes
/// the connection immutably, which already states that no row is added or
/// removed.
#[verifier::external_body]
fn db_init(c: &sqlite::Connection) -> (r: bool) {
    c.execute(
        "CREATE TABLE IF NOT EXISTS file_hash (path TEXT PRIMARY KEY, hash TEXT NOT NULL)",
    ).is_ok()
}

/// Relies on Connection::prepare, Statement::bind and Statement::next on an
/// INSERT OR REPLACE statement keyed by path: on success the table maps the
/// given path to the given digest and every other row stays. A bound string
/// is stored in full, by its byte length, an embedded NUL character
/// included, and `db_select_all` reads it back the same way. A failed
/// prepare or bind runs nothing, and a single failed statement leaves the
/// table unchanged (SQLite statements are atomic).
#[verifier::external_body]
fn db_upsert(c: &mut sqlite::Connection, path: &str, hash: &str) -> (r: bool)
    ensures
        r ==> db_rows(*final(c)) == db_rows(*old(c)).insert(path@, hash@),
        !r ==> db_rows(*final(c)) == db_rows(*old(c)),
{
    let mut statement = match c.prepare("INSERT OR REPLACE INTO file_hash VALUES (?,?)") {
        Ok(s) => s,
        Err(_) => return false,
    };
    if statement.bind((1, path)).is_err() {
        return false;
    }
    if statement.bind((2, hash)).is_err() {
        return false;
    }
    statement.next().is_ok()
}

/// Relies on Connection::prepare, Statement::bind and Statement::next on a
/// DELETE statement with an exact path match: on success the row for that
/// path, if any, is gone and every other row stays; a failed prepare or
/// bind runs nothing, and a single failed statement leaves the table
/// unchanged (SQLite statements are atomic).
#[verifier::external_body]
fn db_delete(c: &mut sqlite::Connection, path: &str) -> (r: bool)
    ensures
        r ==> db_rows(*final(c)) == db_rows(*old(c)).remove(path@),
        !r ==> db_rows(*final(c)) == db_rows(*old(c)),
{
    let mut statement = match c.prepare("DELETE FROM file_hash WHERE path=?") {
        Ok(s) => s,
        Err(_) => return false,
    };
    if statement.bind((1, path)).is_err() {
        return false;
    }
    statement.next().is_ok()
}

/// Relies on Connection::prepare, Statement::next and Statement::read (the
/// `Vec<u8>` column reader, which goes by the column's byte count and so
/// returns a stored string in full, an embedded NUL character included) on
/// a SELECT of the whole table: stepping the statement visits every row
/// exactly once, and the path column is the table's primary key, so paths
/// are pairwise distinct. Fails on a backend error or on a row whose
/// columns are not UTF-8 text (which no insertion through this adapter can
/// have written), rather than panicking or truncating.
#[verifier::external_body]
fn db_select_all(c: &sqlite::Connection) -> (r: Option<Vec<(String, String)>>)
    ensures
        r matches Some(v) ==> {
            &&& forall|i: int|
                0 <= i < v@.len() ==> db_rows(*c).contains_key((#[trigger] v@[i]).0@) && db_rows(
                    *c,
                )[v@[i].0@] == v@[i].1@
            &&& forall|k: Seq<char>|
                #[trigger] db_rows(*c).contains_key(k) ==> exists|i: int|
                    0 <= i < v@.len() && (#[trigger] v@[i]).0@ == k
            &&& forall|i: int, j: int|
                0 <= i < j < v@.len() ==> (#[trigger] v@[i]).0@ != (#[trigger] v@[j]).0@
        },
{
    let mut statement = c.prepare("SELECT path, hash FROM file_hash").ok()?;
    let mut rows: Vec<(String, String)> = Vec::new();
    loop {
        match statement.next() {
            Ok(sqlite::State::Row) => {},
            Ok(sqlite::State::Done) => return Some(rows),
            Err(_) => return None,
        }
        let path = String::from_utf8(statement.read::<Vec<u8>, _>(0).ok()?).ok()?;
        let hash = String::from_utf8(statement.read::<Vec<u8>, _>(1).ok()?).ok()?;
        rows.push((path, hash));
    }
}

/// The SQLite-backed storage adapter. It owns a single connection to the
/// backing store for its lifetime.
pub struct SqliteStockage {
    connection: sqlite::Connection,
}

impl SqliteStockage {
    /// Opens (creating them if missing) the database file at `chemin` and
    /// its backing table, and fails on a backend error rather than
    /// panicking. What rows an existing database already holds depends on
    /// the disk, so nothing is promised of a fresh adapter's contents.
    pub fn new(chemin: &str) -> (r: Option<SqliteStockage>) {
        let connection = match db_open(chemin) {
            Some(c) => c,
            None => {
                return None;
            },
        };
        if !db_init(&connection) {
            return None;
        }
        Some(SqliteStockage { connection })
    }
}

impl StockageHash for SqliteStockage {
    closed spec fn contents(&self) -> Map<Seq<char>, Seq<char>> {
        db_rows(self.connection)
    }

    /// Re-checks both fields at the boundary, then runs the upsert.
    fn insert(&mut self, value: FileHash) -> (r: Result<FileHash, RepoCreateError>) {
        if value.hash().value().is_empty() {
            return Err(RepoCreateError::InvalidData("empty hash".to_owned()));
        }
        if value.path().value().is_empty() {
            return Err(RepoCreateError::InvalidData("path is empty".to_owned()));
        }
        let ok = db_upsert(&mut self.connection, value.path().value(), value.hash().value());
        if ok {
            Ok(value)
        } else {
            Err(RepoCreateError::Unknown("insert failed".to_owned()))
        }
    }

    /// Re-checks the key at the boundary, then runs the delete; a key
    /// without a row deletes nothing and still succeeds.
    fn delete(&mut self, id: &str) -> (r: Result<(), RepoDeleteError>) {
        if id.is_empty() {
            return Err(RepoDeleteError::InvalidData("empty id".to_owned()));
        }
        if db_delete(&mut self.connection, id) {
            Ok(())
        } else {
            Err(RepoDeleteError::Unknown("delete failed".to_owned()))
        }
    }

    /// Scans the whole table and rebuilds each row through
    /// `FileHash::from_stored`; a row that is not well-formed (which no
    /// insertion through this adapter can have written) is skipped rather
    /// than aborting the scan, and a row that is not UTF-8 text surfaces as
    /// `Unknown` from the scan itself.
    #[verifier::loop_isolation(false)]
    #[verifier::rlimit(60)]
    fn read_all(&self) -> (r: Result<Vec<FileHash>, RepoFindAllError>) {
        let rows = match db_select_all(&self.connection) {
            Some(v) => v,
            None => {
                return Err(RepoFindAllError::Unknown("read failed".to_owned()));
            },
        };
        let ghost m = db_rows(self.connection);
        let mut v: Vec<FileHash> = Vec::new();
        let mut i: usize = 0;
        while i < rows.len()
            invariant
                i <= rows@.len(),
                forall|idx: int|
                    0 <= idx < v@.len() ==> (#[trigger] v@[idx]).wf() && m.contains_key(
                        v@[idx].path_view(),
                    ) && m[v@[idx].path_view()] == v@[idx].hash_view(),
                forall|idx: int|
                    0 <= idx < v@.len() ==> exists|j: int|
                        0 <= j < i && (#[trigger] v@[idx]).path_view() == rows@[j].0@,
                forall|j: int|
                    0 <= j < i && (#[trigger] rows@[j].0@).len() > 0 && rows@[j].1@.len() > 0
                        ==> exists|idx: int|
                        0 <= idx < v@.len() && (#[trigger] v@[idx]).path_view() == rows@[j].0@,
                forall|idx1: int, idx2: int|
                    0 <= idx1 < idx2 < v@.len() ==> (#[trigger] v@[idx1]).path_view() != (
                    #[trigger] v@[idx2]).path_view(),
            decreases rows@.len() - i,
        {
            let path = rows[i].0.clone();
            let hash = rows[i].1.clone();
            let ghost prev = v@;
            match FileHash::from_stored(path, hash) {
                Ok(f) => {
                    proof {
                        assert forall|idx: int| 0 <= idx < v@.len() implies (
                        #[trigger] v@[idx]).path_view() != rows@[i as int].0@ by {
                            let j = choose|j: int|
                                0 <= j < i && v@[idx].path_view() == rows@[j].0@;
                            assert(rows@[j].0@ != rows@[i as int].0@);
                        }
                    }
                    v.push(f);
                    proof {
                        assert(v@ == prev.push(f));
                        assert(v@[prev.len() as int].path_view() == rows@[i as int].0@);
                        assert forall|j: int|
                            0 <= j < i + 1 && (#[trigger] rows@[j].0@).len() > 0
                                && rows@[j].1@.len() > 0 implies exists|idx: int|
                            0 <= idx < v@.len() && (#[trigger] v@[idx]).path_view()
                                == rows@[j].0@ by {
                            if j < i {
                                let idx = choose|idx: int|
                                    0 <= idx < prev.len() && (#[trigger] prev[idx]).path_view()
                                        == rows@[j].0@;
                                assert(v@[idx].path_view() == rows@[j].0@);
                            } else {
                                assert(v@[prev.len() as int].path_view() == rows@[j].0@);
                            }
                        }
                    }
                },
                Err(_) => {
                    proof {
                        assert(rows@[i as int].0@.len() == 0 || rows@[i as int].1@.len() == 0);
                    }
                },
            }
            i = i + 1;
        }
        proof {
            assert forall|k: Seq<char>|
                #[trigger] m.contains_key(k) && k.len() > 0 && m[k].len() > 0 implies exists|
                idx: int,
            | 0 <= idx < v@.len() && (#[trigger] v@[idx]).path_view() == k by {
                let j = choose|j: int| 0 <= j < rows@.len() && (#[trigger] rows@[j]).0@ == k;
                assert(rows@[j].1@ == m[k]);
            }
            assert(crate::stockage::rows_from(v@, self.contents()));
            assert(crate::stockage::covers(v@, self.contents()));
            assert(crate::stockage::paths_distinct(v@));
        }
        Ok(v)
    }
}

} // verus!
