//! The read command: every persisted record whose path lies under a given
//! prefix, component-wise.

use crate::entities::FileHash;
use crate::path_prefix::{is_path_prefix, starts_with_components};
use crate::stockage::{paths_distinct, rows_from, RepoFindAllError, StockageHash};
use vstd::prelude::*;

verus! {

/// Why reading the records failed, wrapping what the storage port said.
#[derive(Debug)]
pub enum ReadAllError {
    Unknown,
    RepoError(RepoFindAllError),
}

/// Every entity of `v` has a path that lies under `prefix`, component-wise.
pub open spec fn all_under(v: Seq<FileHash>, prefix: Seq<char>) -> bool {
    forall|i: int| 0 <= i < v.len() ==> is_path_prefix(prefix, (#[trigger] v[i]).path_view())
}

/// Every well-formed row of the table `m` whose path lies under `prefix`
/// appears in `v`.
pub open spec fn covers_under(
    v: Seq<FileHash>,
    m: Map<Seq<char>, Seq<char>>,
    prefix: Seq<char>,
) -> bool {
    forall|k: Seq<char>|
        #[trigger] m.contains_key(k) && k.len() > 0 && m[k].len() > 0 && is_path_prefix(prefix, k)
            ==> exists|i: int| 0 <= i < v.len() && (#[trigger] v[i]).path_view() == k
}

/// Reads every persisted record and keeps exactly those whose path has
/// `path` as a component-wise prefix: each returned entity is a well-formed
/// record of the store lying under `path`, each such record of the store is
/// returned, and no path appears twice. Fails only if the underlying full
/// read fails, wrapping that error.
#[verifier::loop_isolation(false)]
pub fn read_all_file_hash<T: StockageHash>(path: &str, stockage: &T) -> (r: Result<
    Vec<FileHash>,
    ReadAllError,
>)
    ensures
        r matches Ok(v) ==> rows_from(v@, stockage.contents()) && all_under(v@, path@)
            && covers_under(v@, stockage.contents(), path@) && paths_distinct(v@),
        r is Err ==> r matches Err(ReadAllError::RepoError(e)),
{
    let all = match stockage.read_all() {
        Ok(v) => v,
        Err(e) => {
            return Err(ReadAllError::RepoError(e));
        },
    };
    let ghost m = stockage.contents();
    let mut v: Vec<FileHash> = Vec::new();
    let mut i: usize = 0;
    while i < all.len()
        invariant
            i <= all@.len(),
            rows_from(v@, m),
            all_under(v@, path@),
            paths_distinct(v@),
            forall|idx: int|
                0 <= idx < v@.len() ==> exists|j: int|
                    0 <= j < i && (#[trigger] v@[idx]).path_view() == all@[j].path_view(),
            forall|j: int|
                0 <= j < i && is_path_prefix(path@, (#[trigger] all@[j]).path_view()) ==> exists|
                idx: int,
            | 0 <= idx < v@.len() && (#[trigger] v@[idx]).path_view() == all@[j].path_view(),
        decreases all@.len() - i,
    {
        let entry = &all[i];
        let keep = starts_with_components(path, entry.path().value());
        let ghost prev = v@;
        if keep {
            proof {
                assert forall|idx: int| 0 <= idx < v@.len() implies (
                #[trigger] v@[idx]).path_view() != all@[i as int].path_view() by {
                    let j = choose|j: int|
                        0 <= j < i && v@[idx].path_view() == all@[j].path_view();
                    assert(all@[j].path_view() != all@[i as int].path_view());
                }
            }
            v.push(entry.clone());
            proof {
                assert(v@ == prev.push(all@[i as int]));
                assert forall|j: int|
                    0 <= j < i + 1 && is_path_prefix(
                        path@,
                        (#[trigger] all@[j]).path_view(),
                    ) implies exists|idx: int|
                    0 <= idx < v@.len() && (#[trigger] v@[idx]).path_view()
                        == all@[j].path_view() by {
                    if j < i {
                        let idx = choose|idx: int|
                            0 <= idx < prev.len() && (#[trigger] prev[idx]).path_view()
                                == all@[j].path_view();
                        assert(v@[idx].path_view() == all@[j].path_view());
                    } else {
                        assert(v@[prev.len() as int].path_view() == all@[j].path_view());
                    }
                }
            }
        }
        i = i + 1;
    }
    proof {
        assert forall|k: Seq<char>|
            #[trigger] m.contains_key(k) && k.len() > 0 && m[k].len() > 0 && is_path_prefix(
                path@,
                k,
            ) implies exists|idx: int|
            0 <= idx < v@.len() && (#[trigger] v@[idx]).path_view() == k by {
            let j = choose|j: int| 0 <= j < all@.len() && (#[trigger] all@[j]).path_view() == k;
        }
        assert(rows_from(v@, stockage.contents()));
        assert(all_under(v@, path@));
        assert(covers_under(v@, stockage.contents(), path@));
        assert(paths_distinct(v@));
    }
    Ok(v)
}

} // verus!
