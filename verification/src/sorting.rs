//! Ordering and sorting of query parameters. Pairs are ordered by key and,
//! on equal keys, by value, which makes the order total; sorting a set of
//! pairs with distinct keys therefore has exactly one result, whatever
//! order they were supplied in.

use vstd::prelude::*;
use vstd::relations::{sorted_by, total_ordering};
use vstd::seq_lib::lemma_sorted_unique;

use crate::headers::header_views;
use crate::text::{lemma_lex_antisym, lemma_lex_connected, lemma_lex_refl, lemma_lex_trans,
    lex_leq, str_eq, str_lex_leq};

verus! {

/// Order on key/value pairs: by key, and by value on equal keys.
pub open spec fn pair_leq(x: (Seq<char>, Seq<char>), y: (Seq<char>, Seq<char>)) -> bool {
    if x.0 != y.0 {
        lex_leq(x.0, y.0)
    } else {
        lex_leq(x.1, y.1)
    }
}

/// The pair order as a relation value.
pub open spec fn pair_order() -> spec_fn((Seq<char>, Seq<char>), (Seq<char>, Seq<char>)) -> bool {
    |x: (Seq<char>, Seq<char>), y: (Seq<char>, Seq<char>)| pair_leq(x, y)
}

pub proof fn lemma_pair_refl(x: (Seq<char>, Seq<char>))
    ensures
        pair_leq(x, x),
{
    lemma_lex_refl(x.1);
}

pub proof fn lemma_pair_antisym(x: (Seq<char>, Seq<char>), y: (Seq<char>, Seq<char>))
    requires
        pair_leq(x, y),
        pair_leq(y, x),
    ensures
        x == y,
{
    if x.0 != y.0 {
        lemma_lex_antisym(x.0, y.0);
    } else {
        lemma_lex_antisym(x.1, y.1);
        assert(x.0 == y.0 && x.1 == y.1);
    }
}

pub proof fn lemma_pair_trans(
    x: (Seq<char>, Seq<char>),
    y: (Seq<char>, Seq<char>),
    z: (Seq<char>, Seq<char>),
)
    requires
        pair_leq(x, y),
        pair_leq(y, z),
    ensures
        pair_leq(x, z),
{
    if x.0 != y.0 && y.0 != z.0 {
        lemma_lex_trans(x.0, y.0, z.0);
        if x.0 == z.0 {
            lemma_lex_antisym(x.0, y.0);
        }
    } else if x.0 == y.0 && y.0 == z.0 {
        lemma_lex_trans(x.1, y.1, z.1);
    }
}

pub proof fn lemma_pair_connected(x: (Seq<char>, Seq<char>), y: (Seq<char>, Seq<char>))
    ensures
        pair_leq(x, y) || pair_leq(y, x),
{
    if x.0 != y.0 {
        lemma_lex_connected(x.0, y.0);
    } else {
        lemma_lex_connected(x.1, y.1);
    }
}

/// The pair order is total: reflexive, antisymmetric, transitive and
/// strongly connected.
pub proof fn lemma_pair_order_total()
    ensures
        total_ordering(pair_order()),
{
    let r = pair_order();
    assert forall|x: (Seq<char>, Seq<char>)| #[trigger] r(x, x) by {
        lemma_pair_refl(x);
    }
    assert forall|x: (Seq<char>, Seq<char>), y: (Seq<char>, Seq<char>)|
        #[trigger] r(x, y) && #[trigger] r(y, x) implies x == y by {
        lemma_pair_antisym(x, y);
    }
    assert forall|x: (Seq<char>, Seq<char>), y: (Seq<char>, Seq<char>), z: (Seq<char>, Seq<char>)|
        #[trigger] r(x, y) && #[trigger] r(y, z) implies r(x, z) by {
        lemma_pair_trans(x, y, z);
    }
    assert forall|x: (Seq<char>, Seq<char>), y: (Seq<char>, Seq<char>)|
        #[trigger] r(x, y) || #[trigger] r(y, x) by {
        lemma_pair_connected(x, y);
    }
}

/// Decides the pair order on two entries.
pub fn pair_leq_exec(x: &(String, String), y: &(String, String)) -> (r: bool)
    ensures
        r == pair_leq((x.0@, x.1@), (y.0@, y.1@)),
{
    if !str_eq(x.0.as_str(), y.0.as_str()) {
        str_lex_leq(x.0.as_str(), y.0.as_str())
    } else {
        str_lex_leq(x.1.as_str(), y.1.as_str())
    }
}

/// Inserts `x` into the sorted vector `out`, keeping it sorted.
fn insert_sorted(out: &mut Vec<(String, String)>, x: (String, String))
    requires
        sorted_by(header_views(old(out)@), pair_order()),
    ensures
        sorted_by(header_views(final(out)@), pair_order()),
        header_views(final(out)@).to_multiset() == header_views(old(out)@).to_multiset().insert(
            (x.0@, x.1@),
        ),
{
    broadcast use vstd::seq_lib::group_to_multiset_ensures;

    let ghost ov = header_views(out@);
    let ghost xv = (x.0@, x.1@);
    let n = out.len();
    let mut j: usize = 0;
    while j < n
        invariant
            j <= n,
            out@ == old(out)@,
            n == out@.len(),
            ov == header_views(out@),
            xv == (x.0@, x.1@),
            forall|k: int| 0 <= k < j ==> pair_leq(ov[k], xv),
        ensures
            j <= n,
            out@ == old(out)@,
            n == out@.len(),
            ov == header_views(out@),
            xv == (x.0@, x.1@),
            forall|k: int| 0 <= k < j ==> pair_leq(ov[k], xv),
            j < n ==> !pair_leq(ov[j as int], xv),
        decreases n - j,
    {
        proof {
            assert(ov[j as int] == (out@[j as int].0@, out@[j as int].1@));
        }
        if !pair_leq_exec(&out[j], &x) {
            break;
        }
        j += 1;
    }
    out.insert(j, x);
    proof {
        broadcast use vstd::seq_lib::group_to_multiset_ensures;

        let nv = header_views(out@);
        let r = pair_order();
        assert(nv =~= ov.insert(j as int, xv));
        assert forall|a: int, b: int| 0 <= a < b < nv.len() implies #[trigger] r(nv[a], nv[b]) by {
            if b < j {
                assert(nv[a] == ov[a] && nv[b] == ov[b]);
            } else if a < j && b == j {
                assert(nv[a] == ov[a] && nv[b] == xv);
            } else if a < j && b > j {
                assert(nv[a] == ov[a] && nv[b] == ov[b - 1]);
                if a == b - 1 {
                    lemma_pair_refl(ov[a]);
                } else {
                    assert(r(ov[a], ov[b - 1]));
                }
            } else if a == j {
                assert(nv[a] == xv && nv[b] == ov[b - 1]);
                assert(!pair_leq(ov[j as int], xv));
                lemma_pair_connected(ov[j as int], xv);
                if b - 1 > j {
                    assert(r(ov[j as int], ov[b - 1]));
                    lemma_pair_trans(xv, ov[j as int], ov[b - 1]);
                }
            } else {
                assert(nv[a] == ov[a - 1] && nv[b] == ov[b - 1]);
                assert(r(ov[a - 1], ov[b - 1]));
            }
        }
        assert(sorted_by(nv, r));
        assert(ov.insert(j as int, xv).to_multiset() == ov.to_multiset().insert(xv));
    }
}

/// Sorts key/value pairs by key (and by value on equal keys): the result is
/// ordered and holds exactly the pairs given.
pub fn sort_pairs(input: Vec<(String, String)>) -> (r: Vec<(String, String)>)
    ensures
        sorted_by(header_views(r@), pair_order()),
        header_views(r@).to_multiset() == header_views(input@).to_multiset(),
{
    broadcast use vstd::seq_lib::group_to_multiset_ensures;

    let ghost iv = header_views(input@);
    let mut rest = input;
    let mut out: Vec<(String, String)> = Vec::new();
    proof {
        assert(header_views(out@) =~= Seq::<(Seq<char>, Seq<char>)>::empty());
        assert(header_views(out@).to_multiset().add(header_views(rest@).to_multiset())
            =~= iv.to_multiset());
    }
    while rest.len() > 0
        invariant
            iv == header_views(input@),
            sorted_by(header_views(out@), pair_order()),
            header_views(out@).to_multiset().add(header_views(rest@).to_multiset())
                == iv.to_multiset(),
        decreases rest@.len(),
    {
        let ghost rv = header_views(rest@);
        if let Some(x) = rest.pop() {
            proof {
                broadcast use vstd::seq_lib::group_to_multiset_ensures;

                assert(header_views(rest@) =~= rv.drop_last());
                assert((x.0@, x.1@) == rv.last());
                assert(rv =~= rv.drop_last().push(rv.last()));
                assert(rv.drop_last().push(rv.last()).to_multiset()
                    == rv.drop_last().to_multiset().insert(rv.last()));
                assert(rv.to_multiset() == rv.drop_last().to_multiset().insert(rv.last()));
            }
            let ghost before = header_views(out@);
            insert_sorted(&mut out, x);
            proof {
                assert(header_views(out@).to_multiset().add(header_views(rest@).to_multiset())
                    =~= before.to_multiset().add(rv.to_multiset()));
            }
        }
    }
    proof {
        assert(header_views(rest@) =~= Seq::<(Seq<char>, Seq<char>)>::empty());
        assert(header_views(out@).to_multiset().add(header_views(rest@).to_multiset())
            =~= header_views(out@).to_multiset());
    }
    out
}

/// Query ordering is deterministic: two collections of pairs that hold the
/// same pairs, in whatever order, sort to the same sequence.
pub proof fn lemma_sort_deterministic(
    a: Seq<(Seq<char>, Seq<char>)>,
    b: Seq<(Seq<char>, Seq<char>)>,
)
    requires
        a.to_multiset() == b.to_multiset(),
        sorted_by(a, pair_order()),
        sorted_by(b, pair_order()),
    ensures
        a == b,
{
    lemma_pair_order_total();
    lemma_sorted_unique(a, b, pair_order());
}

} // verus!
