//! The create command: compute a file's digest, build the validated entity,
//! and upsert it through the storage port.

use crate::entities::{FileHash, FileHashError, PathError};
use crate::hashing::{calculate_hash, spec_digest};
use crate::stockage::{RepoCreateError, StockageHash};
use vstd::prelude::*;

verus! {

/// Why creating a file-hash record failed: validation, reading the file's
/// bytes, or the storage backend — each wrapping what the lower layer said.
#[derive(Debug)]
pub enum CreateError {
    InvalidData(FileHashError),
    StreamError(String),
    RepoError(RepoCreateError),
}

/// Computes the digest of the file at `path` from its content, builds the
/// validated entity and upserts it through the storage port, so that on
/// success the store maps `path` to exactly the digest of `content` and
/// every other record stays.
///
/// The caller reads the file's bytes and hands them in (a failed read never
/// reaches this command, so `StreamError` is never returned here); hashing
/// them, validating and storing is this command's work. Which outcome
/// arrives still depends on the disk (the path must exist when it is
/// validated) and on the backend, so each is pinned down on its own:
/// - validation can only reject the path, never the digest (a digest is 64
///   hex characters, never empty);
/// - the backend can only report `Unknown`, never `InvalidData`, because a
///   validated entity is well-formed;
/// - any failure leaves the store untouched.
pub fn create_file_hash<T: StockageHash>(path: &str, content: &[u8], stockage: &mut T) -> (r:
    Result<FileHash, CreateError>)
    ensures
        r matches Ok(f) ==> f.path_view() == path@ && f.hash_view() == spec_digest(content@)
            && final(stockage).contents() == old(stockage).contents().insert(
            path@,
            spec_digest(content@),
        ),
        r is Err ==> final(stockage).contents() == old(stockage).contents(),
        r matches Err(CreateError::InvalidData(e)) ==> e matches FileHashError::PathError(
            p,
        ) && p == PathError::DoesNotExist,
        r matches Err(CreateError::RepoError(e)) ==> e matches RepoCreateError::Unknown(m),
        !(r matches Err(CreateError::StreamError(m))),
{
    let hash = calculate_hash(content);
    let file = match FileHash::new(path.to_owned(), hash) {
        Ok(f) => f,
        Err(e) => {
            return Err(CreateError::InvalidData(e));
        },
    };
    match stockage.insert(file) {
        Ok(f) => Ok(f),
        Err(e) => Err(CreateError::RepoError(e)),
    }
}

} // verus!
