//! Laws of the storage model. The port's contracts (`StockageHash`) state
//! each operation's effect on the store's contents; these lemmas state what
//! follows for sequences of operations, over that same model.

use vstd::prelude::*;

verus! {

/// Idempotence of insertion: inserting the same path with the same digest
/// twice leaves exactly what one insertion leaves — one row for that path,
/// holding that digest.
pub proof fn lemma_insert_idempotent(
    m: Map<Seq<char>, Seq<char>>,
    path: Seq<char>,
    hash: Seq<char>,
)
    ensures
        m.insert(path, hash).insert(path, hash) == m.insert(path, hash),
        m.insert(path, hash)[path] == hash,
        m.insert(path, hash).contains_key(path),
{
    assert(m.insert(path, hash).insert(path, hash) =~= m.insert(path, hash));
}

/// Upsert: inserting a second digest under the same path overwrites the
/// first, leaving exactly one row for that path, holding the second digest.
pub proof fn lemma_insert_upsert(
    m: Map<Seq<char>, Seq<char>>,
    path: Seq<char>,
    first: Seq<char>,
    second: Seq<char>,
)
    ensures
        m.insert(path, first).insert(path, second) == m.insert(path, second),
        m.insert(path, first).insert(path, second)[path] == second,
{
    assert(m.insert(path, first).insert(path, second) =~= m.insert(path, second));
}

/// Deleting a key that has no row changes nothing — the model behind the
/// port's permissive deletion policy, under which deleting an absent key is
/// not an error.
pub proof fn lemma_remove_absent(m: Map<Seq<char>, Seq<char>>, path: Seq<char>)
    requires
        !m.contains_key(path),
    ensures
        m.remove(path) == m,
{
    assert(m.remove(path) =~= m);
}

/// Round trip: inserting a record and then deleting its path leaves no row
/// for that path — the store is as if the path had only ever been deleted.
pub proof fn lemma_insert_then_remove(
    m: Map<Seq<char>, Seq<char>>,
    path: Seq<char>,
    hash: Seq<char>,
)
    ensures
        m.insert(path, hash).remove(path) == m.remove(path),
        !m.insert(path, hash).remove(path).contains_key(path),
{
    assert(m.insert(path, hash).remove(path) =~= m.remove(path));
}

} // verus!
