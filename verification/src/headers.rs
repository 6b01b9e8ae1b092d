//! HTTP header sets: a mapping of header names to values, and the merge
//! rule used for per-request overrides, where the override wins on a shared
//! name.

use vstd::prelude::*;

use crate::context::{assoc_map, distinct_keys, lemma_assoc_map_at, lemma_assoc_map_dom,
    lemma_assoc_map_update};
use crate::text::str_eq;

verus! {

/// The views of a sequence of header entries.
pub open spec fn header_views(s: Seq<(String, String)>) -> Seq<(Seq<char>, Seq<char>)> {
    s.map_values(|e: (String, String)| (e.0@, e.1@))
}

/// A set of HTTP headers: header names mapped to values, each name bound
/// once.
#[derive(Debug)]
pub struct HeaderSet {
    entries: Vec<(String, String)>,
}

impl View for HeaderSet {
    type V = Map<Seq<char>, Seq<char>>;

    closed spec fn view(&self) -> Map<Seq<char>, Seq<char>> {
        assoc_map(header_views(self.entries@))
    }
}

impl HeaderSet {
    /// Well-formed: no header name occurs twice.
    pub closed spec fn wf(&self) -> bool {
        distinct_keys(header_views(self.entries@))
    }

    /// An empty header set.
    pub fn new() -> (r: HeaderSet)
        ensures
            r.wf(),
            r@ == Map::<Seq<char>, Seq<char>>::empty(),
    {
        let r = HeaderSet { entries: Vec::new() };
        proof {
            assert(header_views(r.entries@) =~= Seq::<(Seq<char>, Seq<char>)>::empty());
        }
        r
    }

    /// Binds `name` to `value`, replacing any earlier binding of `name`.
    pub fn insert(&mut self, name: String, value: String)
        requires
            old(self).wf(),
        ensures
            final(self).wf(),
            final(self)@ == old(self)@.insert(name@, value@),
    {
        let ghost evs = header_views(self.entries@);
        let n = self.entries.len();
        let mut i: usize = 0;
        while i < n
            invariant
                i <= n,
                self == old(self),
                n == self.entries@.len(),
                evs == header_views(self.entries@),
                distinct_keys(evs),
                forall|j: int| 0 <= j < i ==> evs[j].0 != name@,
            decreases n - i,
        {
            if str_eq(self.entries[i].0.as_str(), name.as_str()) {
                let ghost vv = value@;
                let ghost kv = name@;
                proof {
                    assert(evs[i as int] == (self.entries@[i as int].0@, self.entries@[i as int].1@));
                    assert(evs[i as int].0 == kv);
                }
                self.entries[i] = (name, value);
                proof {
                    assert(header_views(self.entries@) =~= evs.update(i as int, (kv, vv)));
                    lemma_assoc_map_update(evs, i as int, vv);
                    assert(evs.update(i as int, (evs[i as int].0, vv)) == evs.update(
                        i as int,
                        (kv, vv),
                    ));
                    assert(self@ == assoc_map(evs).insert(kv, vv));
                    assert(distinct_keys(header_views(self.entries@)));
                }
                return;
            }
            i += 1;
        }
        let ghost kv = name@;
        let ghost vv = value@;
        self.entries.push((name, value));
        proof {
            assert(header_views(self.entries@) =~= evs.push((kv, vv)));
            assert(header_views(self.entries@).drop_last() =~= evs);
            lemma_assoc_map_dom(evs, kv);
        }
    }

    /// The value bound to `name`, if any.
    pub fn get(&self, name: &str) -> (r: Option<&String>)
        requires
            self.wf(),
        ensures
            r is Some <==> self@.contains_key(name@),
            match r {
                Some(v) => self@.contains_key(name@) && self@[name@] == v@,
                None => !self@.contains_key(name@),
            },
    {
        let ghost evs = header_views(self.entries@);
        let n = self.entries.len();
        let mut i: usize = 0;
        while i < n
            invariant
                i <= n,
                n == self.entries@.len(),
                evs == header_views(self.entries@),
                distinct_keys(evs),
                forall|j: int| 0 <= j < i ==> evs[j].0 != name@,
            decreases n - i,
        {
            if str_eq(self.entries[i].0.as_str(), name) {
                proof {
                    lemma_assoc_map_at(evs, i as int);
                }
                return Some(&self.entries[i].1);
            }
            i += 1;
        }
        proof {
            lemma_assoc_map_dom(evs, name@);
        }
        None
    }

    /// Binds every header of `other` in `self`; on a shared name the
    /// binding of `other` wins.
    pub fn extend(&mut self, other: &HeaderSet)
        requires
            old(self).wf(),
            other.wf(),
        ensures
            final(self).wf(),
            final(self)@ == old(self)@.union_prefer_right(other@),
    {
        let ghost base = old(self)@;
        let ghost oevs = header_views(other.entries@);
        let n = other.entries.len();
        let mut i: usize = 0;
        proof {
            assert(oevs.take(0) =~= Seq::<(Seq<char>, Seq<char>)>::empty());
            assert(base.union_prefer_right(assoc_map(oevs.take(0))) =~= base);
        }
        while i < n
            invariant
                i <= n,
                n == other.entries@.len(),
                oevs == header_views(other.entries@),
                distinct_keys(oevs),
                self.wf(),
                self@ == base.union_prefer_right(assoc_map(oevs.take(i as int))),
            decreases n - i,
        {
            let name = other.entries[i].0.clone();
            let value = other.entries[i].1.clone();
            proof {
                assert(oevs[i as int] == (name@, value@));
            }
            self.insert(name, value);
            proof {
                assert(oevs.take(i + 1).drop_last() =~= oevs.take(i as int));
                assert(oevs.take(i + 1).last() == oevs[i as int]);
                assert(assoc_map(oevs.take(i + 1))
                    == assoc_map(oevs.take(i as int)).insert(oevs[i as int].0, oevs[i as int].1));
                assert(base.union_prefer_right(assoc_map(oevs.take(i + 1)))
                    =~= base.union_prefer_right(assoc_map(oevs.take(i as int)))
                        .insert(oevs[i as int].0, oevs[i as int].1));
            }
            i += 1;
        }
        proof {
            assert(oevs.take(n as int) =~= oevs);
        }
    }

    /// A copy of the header set, with the same bindings.
    pub fn duplicate(&self) -> (r: HeaderSet)
        requires
            self.wf(),
        ensures
            r.wf(),
            r@ == self@,
    {
        let mut out = HeaderSet::new();
        out.extend(self);
        proof {
            assert(Map::<Seq<char>, Seq<char>>::empty().union_prefer_right(self@) =~= self@);
        }
        out
    }

    /// The headers, in insertion order.
    pub fn entries(&self) -> (r: &Vec<(String, String)>)
        ensures
            assoc_map(header_views(r@)) == self@,
            distinct_keys(header_views(r@)) == self.wf(),
    {
        &self.entries
    }
}

/// Returns a copy of `h1` with every header of `h2` applied; on a shared
/// name the value of `h2` wins.
pub fn merge_headers(h1: &HeaderSet, h2: Option<HeaderSet>) -> (r: HeaderSet)
    requires
        h1.wf(),
        h2 matches Some(h) ==> h.wf(),
    ensures
        r.wf(),
        r@ == match h2 {
            Some(h) => h1@.union_prefer_right(h@),
            None => h1@,
        },
{
    let mut out = h1.duplicate();
    match h2 {
        Some(h) => {
            out.extend(&h);
        },
        None => {},
    }
    out
}

/// Header override precedence: for any base and override sets sharing a
/// name, the merged set binds that name to the override's value; a name
/// bound only in the base keeps the base's value, and no other name is
/// bound.
pub proof fn lemma_merge_override_wins(
    base: Map<Seq<char>, Seq<char>>,
    over: Map<Seq<char>, Seq<char>>,
    name: Seq<char>,
)
    ensures
        over.contains_key(name) ==> {
            &&& base.union_prefer_right(over).contains_key(name)
            &&& base.union_prefer_right(over)[name] == over[name]
        },
        !over.contains_key(name) && base.contains_key(name) ==> {
            &&& base.union_prefer_right(over).contains_key(name)
            &&& base.union_prefer_right(over)[name] == base[name]
        },
        !over.contains_key(name) && !base.contains_key(name)
            ==> !base.union_prefer_right(over).contains_key(name),
{
}

} // verus!
