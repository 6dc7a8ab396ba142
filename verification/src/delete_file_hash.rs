//! The delete command: remove the record for a path from the store.

use crate::entities::FileHashError;
use crate::stockage::{RepoDeleteError, StockageHash};
use vstd::prelude::*;

verus! {

/// Why removing a file-hash record failed, wrapping what the lower layer
/// said.
#[derive(Debug)]
pub enum RemoveError {
    InvalidData(FileHashError),
    StreamError(String),
    RepoError(RepoDeleteError),
}

/// Removes the record for `path` from the store. The physical file is
/// expected to be already gone when this runs (the caller deletes it
/// first), so the path's existence is not re-validated, and a path that has
/// no record deletes nothing and still succeeds. On success the store holds
/// every record but the one for `path`; on failure it is untouched. A
/// failure is always a storage error: `InvalidData` exactly when the key is
/// empty, `Unknown` for backend failures, and never `NotFound`.
pub fn delete_file_hash<T: StockageHash>(path: &str, stockage: &mut T) -> (r: Result<
    (),
    RemoveError,
>)
    ensures
        r is Ok ==> final(stockage).contents() == old(stockage).contents().remove(path@),
        r is Err ==> final(stockage).contents() == old(stockage).contents(),
        r is Err ==> (r matches Err(RemoveError::RepoError(e)) && !(e matches
        RepoDeleteError::NotFound)),
        path@.len() == 0 <==> (r matches Err(RemoveError::RepoError(e)) && e matches
            RepoDeleteError::InvalidData(m)),
{
    match stockage.delete(path) {
        Ok(u) => Ok(u),
        Err(e) => Err(RemoveError::RepoError(e)),
    }
}

} // verus!
