//! Validated domain values: a content digest (`Hash`), a filesystem path
//! (`Path`), and the pair of the two (`FileHash`), the unit of persistence.

use vstd::prelude::*;

verus! {

/// A content digest: a non-empty string, immutable once created.
#[derive(Debug, PartialEq, Eq)]
pub struct Hash(String);

impl Clone for Hash {
    fn clone(&self) -> (r: Self)
        ensures
            r == *self,
    {
        Hash(self.0.clone())
    }
}

/// Why a digest string was rejected.
#[derive(Debug, PartialEq, Eq)]
pub enum HashError {
    EmptyHash,
}

impl View for Hash {
    type V = Seq<char>;

    closed spec fn view(&self) -> Seq<char> {
        self.0@
    }
}

impl Hash {
    /// The digest string this value wraps.
    pub fn value(&self) -> (r: &str)
        ensures
            r@ == self@,
    {
        self.0.as_str()
    }

    /// Accepts any non-empty string as a digest; rejects the empty string.
    pub fn try_from(value: String) -> (r: Result<Hash, HashError>)
        ensures
            r is Ok <==> value@.len() > 0,
            r matches Ok(h) ==> h@ == value@,
            r matches Err(e) ==> e == HashError::EmptyHash,
    {
        if value.as_str().is_empty() {
            return Err(HashError::EmptyHash);
        }
        Ok(Hash(value))
    }
}

/// Relies on std::path::Path::exists: reports whether a filesystem entity is
/// present at this path when the call is made. The answer depends on the
/// state of the disk, so nothing is promised of it.
#[verifier::external_body]
fn path_exists(p: &str) -> bool {
    std::path::Path::new(p).exists()
}

/// Why a path was rejected.
#[derive(Debug, PartialEq, Eq)]
pub enum PathError {
    DoesNotExist,
}

/// A filesystem path that was present on disk when it was validated.
/// It is not re-validated afterwards, so a `Path` can go stale if the
/// underlying file is removed later; callers must not cache one across
/// operations that change the disk.
#[derive(Debug, PartialEq, Eq)]
pub struct Path(String);

impl Clone for Path {
    fn clone(&self) -> (r: Self)
        ensures
            r == *self,
    {
        Path(self.0.clone())
    }
}

impl View for Path {
    type V = Seq<char>;

    closed spec fn view(&self) -> Seq<char> {
        self.0@
    }
}

impl Path {
    /// The path string this value wraps.
    pub fn value(&self) -> (r: &str)
        ensures
            r@ == self@,
    {
        self.0.as_str()
    }

    /// Accepts a path only if it is present on disk at the time of the call.
    /// Whether construction succeeds depends on the state of the disk; what
    /// is promised is that an accepted path holds the given string unchanged,
    /// and that it is never empty (an empty path names no filesystem entity).
    pub fn try_from(value: String) -> (r: Result<Path, PathError>)
        ensures
            r matches Ok(p) ==> p@ == value@ && value@.len() > 0,
            r matches Err(e) ==> e == PathError::DoesNotExist,
    {
        if value.as_str().is_empty() || !path_exists(value.as_str()) {
            return Err(PathError::DoesNotExist);
        }
        Ok(Path(value))
    }
}

/// Why an entity could not be built, tagged by the constituent that failed.
#[derive(Debug, PartialEq, Eq)]
pub enum FileHashError {
    HashError(HashError),
    PathError(PathError),
}

/// The pair of a validated path and a validated digest: the unit of
/// persistence. One path maps to at most one digest in persisted state.
#[derive(Debug)]
pub struct FileHash {
    path: Path,
    hash: Hash,
}

impl Clone for FileHash {
    fn clone(&self) -> (r: Self)
        ensures
            r == *self,
    {
        FileHash { path: self.path.clone(), hash: self.hash.clone() }
    }
}

impl FileHash {
    /// The path component, as a sequence of characters.
    pub closed spec fn path_view(&self) -> Seq<char> {
        self.path@
    }

    /// The digest component, as a sequence of characters.
    pub closed spec fn hash_view(&self) -> Seq<char> {
        self.hash@
    }

    /// Both components are non-empty; every constructor establishes this.
    pub open spec fn wf(&self) -> bool {
        self.path_view().len() > 0 && self.hash_view().len() > 0
    }

    /// Validates both constituents: the path must exist on disk and the
    /// digest must be non-empty. The path is checked first, as its check can
    /// fail for reasons outside the caller's control (the state of the disk).
    pub fn new(path: String, hash: String) -> (r: Result<FileHash, FileHashError>)
        ensures
            r matches Ok(f) ==> f.path_view() == path@ && f.hash_view() == hash@ && f.wf(),
            r matches Err(FileHashError::HashError(e)) ==> e == HashError::EmptyHash
                && hash@.len() == 0,
            r matches Err(FileHashError::PathError(e)) ==> e == PathError::DoesNotExist,
            hash@.len() == 0 ==> r is Err,
    {
        let path = match Path::try_from(path) {
            Ok(p) => p,
            Err(e) => {
                return Err(FileHashError::PathError(e));
            },
        };
        let hash = match Hash::try_from(hash) {
            Ok(h) => h,
            Err(e) => {
                return Err(FileHashError::HashError(e));
            },
        };
        Ok(FileHash { path, hash })
    }

    /// Rebuilds an entity from a persisted row without consulting the disk:
    /// a stored record is handed back as it was written, and its path is not
    /// re-validated once persisted (it may have gone stale, see `Path`).
    /// Only emptiness is re-checked, so this succeeds exactly on well-formed
    /// rows.
    pub fn from_stored(path: String, hash: String) -> (r: Result<FileHash, FileHashError>)
        ensures
            r is Ok <==> path@.len() > 0 && hash@.len() > 0,
            r matches Ok(f) ==> f.path_view() == path@ && f.hash_view() == hash@ && f.wf(),
            r matches Err(FileHashError::PathError(e)) ==> e == PathError::DoesNotExist
                && path@.len() == 0,
            r matches Err(FileHashError::HashError(e)) ==> e == HashError::EmptyHash
                && hash@.len() == 0,
    {
        if path.as_str().is_empty() {
            return Err(FileHashError::PathError(PathError::DoesNotExist));
        }
        match Hash::try_from(hash) {
            Ok(h) => Ok(FileHash { path: Path(path), hash: h }),
            Err(e) => Err(FileHashError::HashError(e)),
        }
    }

    /// The validated path of this entity.
    pub fn path(&self) -> (r: &Path)
        ensures
            r@ == self.path_view(),
    {
        &self.path
    }

    /// The validated digest of this entity.
    pub fn hash(&self) -> (r: &Hash)
        ensures
            r@ == self.hash_view(),
    {
        &self.hash
    }

    /// Decomposes the entity into its two constituents, for callers that
    /// need to emit path and digest independently.
    pub fn into_parts(self) -> (r: (Path, Hash))
        ensures
            r.0@ == self.path_view(),
            r.1@ == self.hash_view(),
    {
        (self.path, self.hash)
    }
}

} // verus!
