//! The storage port: the abstract contract the domain commands depend on
//! for persistence, independent of the backend technology. A backend is a
//! single conceptual table keyed by the path string, modelled as a map from
//! path to digest.

use crate::entities::FileHash;
use vstd::prelude::*;

verus! {

/// Why an insertion failed at the storage boundary.
#[derive(Debug)]
pub enum RepoCreateError {
    InvalidData(String),
    Unknown(String),
}

/// Why a full read failed at the storage boundary.
#[derive(Debug)]
pub enum RepoFindAllError {
    Unknown(String),
}

/// Why a deletion failed at the storage boundary. `NotFound` is reserved
/// for a stricter deletion policy; the port's contract here chooses the
/// permissive one (deleting an absent key succeeds), so no implementation
/// of it may return `NotFound`.
#[derive(Debug)]
pub enum RepoDeleteError {
    NotFound,
    InvalidData(String),
    Unknown(String),
}

/// Every entity of `v` is a well-formed record of the table `m`: its path
/// is a key of `m` and its digest is that key's value.
pub open spec fn rows_from(v: Seq<FileHash>, m: Map<Seq<char>, Seq<char>>) -> bool {
    forall|i: int|
        0 <= i < v.len() ==> (#[trigger] v[i]).wf() && m.contains_key(v[i].path_view())
            && m[v[i].path_view()] == v[i].hash_view()
}

/// Every well-formed row of the table `m` (non-empty path and digest)
/// appears in `v`.
pub open spec fn covers(v: Seq<FileHash>, m: Map<Seq<char>, Seq<char>>) -> bool {
    forall|k: Seq<char>|
        #[trigger] m.contains_key(k) && k.len() > 0 && m[k].len() > 0 ==> exists|i: int|
            0 <= i < v.len() && (#[trigger] v[i]).path_view() == k
}

/// No path appears twice in `v`.
pub open spec fn paths_distinct(v: Seq<FileHash>) -> bool {
    forall|i: int, j: int|
        0 <= i < j < v.len() ==> (#[trigger] v[i]).path_view() != (#[trigger] v[j]).path_view()
}

/// A persistence backend for `FileHash` records.
///
/// `contents()` is the backend's one conceptual table, path to digest. The
/// method contracts pin down how each operation moves the table:
/// - `insert` is an upsert keyed by path: a success maps the entity's path
///   to its digest and leaves every other row alone;
/// - `delete` removes at most the given key, and deleting an absent key is
///   not an error;
/// - `read_all` hands back the table's well-formed rows, each path once.
/// A failed operation leaves the table as it was; `InvalidData` is reserved
/// for a malformed key or value reaching the boundary, `Unknown` for
/// backend-level failures, which no implementation can rule out.
pub trait StockageHash: Sized {
    /// The persisted records, path to digest.
    spec fn contents(&self) -> Map<Seq<char>, Seq<char>>;

    /// Upsert by path: inserting an entity whose path already has a row
    /// overwrites the prior digest for that path.
    fn insert(&mut self, value: FileHash) -> (r: Result<FileHash, RepoCreateError>)
        ensures
            r matches Ok(v) ==> final(self).contents() == old(self).contents().insert(
                value.path_view(),
                value.hash_view(),
            ) && v.path_view() == value.path_view() && v.hash_view() == value.hash_view(),
            r is Err ==> final(self).contents() == old(self).contents(),
            r matches Err(RepoCreateError::InvalidData(m)) ==> !value.wf(),
            !value.wf() ==> r matches Err(RepoCreateError::InvalidData(m)),
    ;

    /// Removes the row for the given path key, if there is one. Deleting a
    /// key that has no row is not an error: only a malformed (empty) key or
    /// a backend failure is.
    fn delete(&mut self, id: &str) -> (r: Result<(), RepoDeleteError>)
        ensures
            r is Ok ==> final(self).contents() == old(self).contents().remove(id@),
            r is Err ==> final(self).contents() == old(self).contents(),
            id@.len() == 0 <==> (r matches Err(RepoDeleteError::InvalidData(m))),
            !(r matches Err(RepoDeleteError::NotFound)),
    ;

    /// Reads every persisted record: on success, the sequence holds exactly
    /// the table's well-formed rows (non-empty path and digest — the only
    /// kind an insertion through this port can write), each path once. A
    /// row that is not well-formed can only predate the adapter and is
    /// skipped rather than aborting the whole scan.
    fn read_all(&self) -> (r: Result<Vec<FileHash>, RepoFindAllError>)
        ensures
            r matches Ok(v) ==> rows_from(v@, self.contents()) && covers(v@, self.contents())
                && paths_distinct(v@),
    ;
}

} // verus!
