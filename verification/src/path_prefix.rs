//! Component-wise path prefixing: deciding whether a query path names a
//! directory (or the exact path) that a stored path lies under. The match is
//! on whole path components, not on raw characters, so "/dat" does not cover
//! "/data/a.txt".

use vstd::prelude::*;

verus! {

/// The core relation: `prefix` covers `path` component-wise — every
/// character of `prefix` matches the front of `path`, and the match ends
/// at a component boundary. So "/data" covers "/data" itself and
/// "/data/b/x.txt", but neither "/data2/c.txt" (no boundary after the
/// match) nor "/other/c.txt". `lemma_prefix_is_component_prefix` ties this
/// character test to the component lists themselves.
pub open spec fn component_prefix(prefix: Seq<char>, path: Seq<char>) -> bool {
    &&& prefix.is_prefix_of(path)
    &&& (path.len() == prefix.len() || path[prefix.len() as int] == '/')
}

/// A query with one trailing separator asks for the same directory as the
/// query without it: "/data/" and "/data" cover the same paths. The root
/// "/" (one separator alone) keeps its separator.
pub open spec fn query_core(prefix: Seq<char>) -> Seq<char> {
    if prefix.len() > 1 && prefix.last() == '/' {
        prefix.drop_last()
    } else {
        prefix
    }
}

/// `prefix` names a directory (or an exact path) that `path` lies under.
/// One trailing separator on the query is ignored; the empty query covers
/// every path and the root "/" covers every absolute path (as std's
/// `Path::starts_with` reads them); any other query must match whole
/// components, per `component_prefix`.
pub open spec fn is_path_prefix(prefix: Seq<char>, path: Seq<char>) -> bool {
    let p = query_core(prefix);
    if p.len() == 0 {
        true
    } else if p.len() == 1 && p[0] == '/' {
        path.len() > 0 && path[0] == '/'
    } else {
        component_prefix(p, path)
    }
}

/// The components of a path string: the segments between '/' separators,
/// in order, kept exactly (a leading, trailing or doubled separator
/// contributes an empty segment). "/data/a.txt" splits into "", "data",
/// "a.txt".
pub open spec fn path_components(s: Seq<char>) -> Seq<Seq<char>>
    decreases s.len(),
{
    if s.len() == 0 {
        seq![Seq::<char>::empty()]
    } else if s.last() == '/' {
        path_components(s.drop_last()).push(Seq::<char>::empty())
    } else {
        let rest = path_components(s.drop_last());
        rest.update(rest.len() - 1, rest.last().push(s.last()))
    }
}

/// The components of a path joined back with '/' separators.
spec fn join_components(cs: Seq<Seq<char>>) -> Seq<char>
    decreases cs.len(),
{
    if cs.len() <= 1 {
        if cs.len() == 0 {
            Seq::empty()
        } else {
            cs[0]
        }
    } else {
        join_components(cs.drop_last()) + seq!['/'] + cs.last()
    }
}

proof fn lemma_components_nonempty(s: Seq<char>)
    ensures
        path_components(s).len() >= 1,
    decreases s.len(),
{
    if s.len() > 0 {
        lemma_components_nonempty(s.drop_last());
    }
}

proof fn lemma_components_of_concat(a: Seq<char>, b: Seq<char>)
    ensures
        path_components(a + seq!['/'] + b) == path_components(a) + path_components(b),
    decreases b.len(),
{
    let s = a + seq!['/'] + b;
    lemma_components_nonempty(a);
    if b.len() == 0 {
        assert(s =~= a.push('/'));
        assert(s.last() == '/');
        assert(s.drop_last() =~= a);
        assert(path_components(s) == path_components(a).push(Seq::<char>::empty()));
        assert(path_components(a).push(Seq::<char>::empty()) =~= path_components(a)
            + path_components(b));
    } else {
        lemma_components_of_concat(a, b.drop_last());
        lemma_components_nonempty(b.drop_last());
        let s1 = a + seq!['/'] + b.drop_last();
        assert(s.drop_last() =~= s1);
        assert(s.last() == b.last());
        let ca = path_components(a);
        let cb1 = path_components(b.drop_last());
        assert(path_components(s.drop_last()) == ca + cb1);
        if b.last() == '/' {
            assert(path_components(s) == (ca + cb1).push(Seq::<char>::empty()));
            assert(path_components(b) == cb1.push(Seq::<char>::empty()));
            assert((ca + cb1).push(Seq::<char>::empty()) =~= ca + cb1.push(Seq::<char>::empty()));
        } else {
            let joined = ca + cb1;
            assert(joined.last() == cb1.last());
            assert(path_components(s) == joined.update(
                joined.len() - 1,
                joined.last().push(b.last()),
            ));
            assert(path_components(b) == cb1.update(cb1.len() - 1, cb1.last().push(b.last())));
            assert(joined.update(joined.len() - 1, joined.last().push(b.last())) =~= ca
                + cb1.update(cb1.len() - 1, cb1.last().push(b.last())));
        }
    }
}

proof fn lemma_join_components(s: Seq<char>)
    ensures
        join_components(path_components(s)) == s,
    decreases s.len(),
{
    if s.len() == 0 {
        assert(join_components(path_components(s)) =~= s);
    } else {
        lemma_join_components(s.drop_last());
        lemma_components_nonempty(s.drop_last());
        let cs1 = path_components(s.drop_last());
        if s.last() == '/' {
            let cs = cs1.push(Seq::<char>::empty());
            assert(path_components(s) == cs);
            assert(cs.drop_last() =~= cs1);
            assert(join_components(cs) == join_components(cs1) + seq!['/'] + cs.last());
            assert(cs.last() == Seq::<char>::empty());
            assert(join_components(cs) =~= s.drop_last() + seq!['/']);
            assert(s =~= s.drop_last() + seq!['/']);
        } else {
            let c = s.last();
            let cs = cs1.update(cs1.len() - 1, cs1.last().push(c));
            assert(path_components(s) == cs);
            if cs1.len() == 1 {
                assert(join_components(cs1) == cs1[0]);
                assert(cs[0] =~= cs1[0].push(c));
                assert(join_components(cs) == cs[0]);
                assert(cs[0] =~= s);
            } else {
                assert(cs.drop_last() =~= cs1.drop_last());
                assert(cs.last() == cs1.last().push(c));
                assert(join_components(cs) == join_components(cs1.drop_last()) + seq!['/']
                    + cs1.last().push(c));
                let flat = join_components(cs1.drop_last()) + seq!['/'] + cs1.last();
                assert(flat == s.drop_last());
                assert(join_components(cs) =~= flat.push(c));
                assert(s =~= s.drop_last().push(c));
            }
        }
    }
}

proof fn lemma_join_of_concat(p: Seq<Seq<char>>, t: Seq<Seq<char>>)
    requires
        p.len() >= 1,
        t.len() >= 1,
    ensures
        join_components(p + t) == join_components(p) + seq!['/'] + join_components(t),
    decreases t.len(),
{
    let pt = p + t;
    if t.len() == 1 {
        assert(pt.drop_last() =~= p);
        assert(pt.last() == t[0]);
        assert(join_components(t) == t[0]);
    } else {
        lemma_join_of_concat(p, t.drop_last());
        assert(pt.drop_last() =~= p + t.drop_last());
        assert(pt.last() == t.last());
        assert(join_components(pt) == join_components(p + t.drop_last()) + seq!['/'] + t.last());
        assert(join_components(pt) =~= join_components(p) + seq!['/'] + join_components(t));
    }
}

/// The character test really reads component-wise: `component_prefix(
/// prefix, path)` holds exactly when the component list of `prefix` is a
/// prefix of the component list of `path`.
pub proof fn lemma_prefix_is_component_prefix(prefix: Seq<char>, path: Seq<char>)
    ensures
        component_prefix(prefix, path) <==> path_components(prefix).is_prefix_of(
            path_components(path),
        ),
{
    let cp = path_components(prefix);
    let cq = path_components(path);
    lemma_components_nonempty(prefix);
    lemma_components_nonempty(path);
    if component_prefix(prefix, path) {
        if path.len() == prefix.len() {
            assert(prefix =~= path);
            assert(cp.is_prefix_of(cq));
        } else {
            let rest = path.subrange(prefix.len() as int + 1, path.len() as int);
            assert(path =~= prefix + seq!['/'] + rest);
            lemma_components_of_concat(prefix, rest);
            assert(cq == cp + path_components(rest));
            assert(cp =~= cq.subrange(0, cp.len() as int));
            assert(cp.is_prefix_of(cq));
        }
    }
    if cp.is_prefix_of(cq) {
        lemma_join_components(prefix);
        lemma_join_components(path);
        if cp.len() == cq.len() {
            assert(cp =~= cq);
            assert(prefix == path);
            assert(prefix =~= path.subrange(0, prefix.len() as int));
            assert(component_prefix(prefix, path));
        } else {
            let tail = cq.subrange(cp.len() as int, cq.len() as int);
            assert(cq =~= cp + tail);
            lemma_join_of_concat(cp, tail);
            assert(path == join_components(cp) + seq!['/'] + join_components(tail));
            assert(prefix =~= path.subrange(0, prefix.len() as int));
            assert(path[prefix.len() as int] == '/');
            assert(component_prefix(prefix, path));
        }
    }
}

/// Decides component-wise path prefixing, exactly as `is_path_prefix`
/// states it: one trailing separator on the query is dropped, the empty
/// query covers every path, the root "/" covers every absolute path, and
/// any other query must match whole components.
#[verifier::loop_isolation(false)]
pub fn starts_with_components(prefix: &str, path: &str) -> (r: bool)
    ensures
        r == is_path_prefix(prefix@, path@),
{
    let full = prefix.unicode_len();
    let plen = if full > 1 && prefix.get_char(full - 1) == '/' {
        full - 1
    } else {
        full
    };
    let ghost p = query_core(prefix@);
    proof {
        assert(p =~= prefix@.take(plen as int));
    }
    if plen == 0 {
        return true;
    }
    if plen == 1 && prefix.get_char(0) == '/' {
        let slen = path.unicode_len();
        if slen == 0 {
            return false;
        }
        return path.get_char(0) == '/';
    }
    proof {
        assert(p.len() == plen);
        assert(p[0] == prefix@[0]);
    }
    let slen = path.unicode_len();
    if plen > slen {
        return false;
    }
    let mut i: usize = 0;
    while i < plen
        invariant
            plen <= prefix@.len(),
            p == prefix@.take(plen as int),
            slen == path@.len(),
            plen <= slen,
            i <= plen,
            forall|j: int| 0 <= j < i ==> prefix@[j] == path@[j],
        decreases plen - i,
    {
        if prefix.get_char(i) != path.get_char(i) {
            proof {
                assert(p[i as int] != path@.subrange(0, plen as int)[i as int]);
                assert(!p.is_prefix_of(path@));
            }
            return false;
        }
        i = i + 1;
    }
    proof {
        assert(p =~= path@.subrange(0, plen as int));
    }
    if slen == plen {
        true
    } else {
        path.get_char(plen) == '/'
    }
}

} // verus!
