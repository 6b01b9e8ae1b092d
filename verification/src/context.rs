//! The execution context: diagnostic key/value data accumulated while a
//! request runs and attached to any resulting error. Modelled as a map from
//! keys to structured values; held as a vector of entries with pairwise
//! distinct keys.

use vstd::prelude::*;

use crate::text::str_eq;

verus! {

/// A structured diagnostic value: a string, an unsigned number or a flag.
#[derive(Debug, PartialEq, Eq)]
pub enum CtxValue {
    Str(String),
    U64(u64),
    Bool(bool),
}

/// The mathematical value of a [`CtxValue`].
pub ghost enum CtxModel {
    Str(Seq<char>),
    U64(u64),
    Bool(bool),
}

impl View for CtxValue {
    type V = CtxModel;

    open spec fn view(&self) -> CtxModel {
        match self {
            CtxValue::Str(s) => CtxModel::Str(s@),
            CtxValue::U64(n) => CtxModel::U64(*n),
            CtxValue::Bool(b) => CtxModel::Bool(*b),
        }
    }
}

impl CtxValue {
    /// A copy of the value, equal to the original.
    pub fn duplicate(&self) -> (r: CtxValue)
        ensures
            r@ == self@,
    {
        match self {
            CtxValue::Str(s) => CtxValue::Str(s.clone()),
            CtxValue::U64(n) => CtxValue::U64(*n),
            CtxValue::Bool(b) => CtxValue::Bool(*b),
        }
    }
}

/// The views of a sequence of entries.
pub open spec fn entry_views(s: Seq<(String, CtxValue)>) -> Seq<(Seq<char>, CtxModel)> {
    s.map_values(|e: (String, CtxValue)| (e.0@, e.1@))
}

/// The map that a sequence of entries denotes; a later entry for the same
/// key wins.
pub open spec fn assoc_map<V>(s: Seq<(Seq<char>, V)>) -> Map<Seq<char>, V>
    decreases s.len(),
{
    if s.len() == 0 {
        Map::empty()
    } else {
        assoc_map(s.drop_last()).insert(s.last().0, s.last().1)
    }
}

/// Pairwise distinct keys.
pub open spec fn distinct_keys<V>(s: Seq<(Seq<char>, V)>) -> bool {
    forall|i: int, j: int| 0 <= i < j < s.len() ==> s[i].0 != s[j].0
}

pub proof fn lemma_assoc_map_dom<V>(s: Seq<(Seq<char>, V)>, k: Seq<char>)
    ensures
        assoc_map(s).contains_key(k) <==> exists|i: int| 0 <= i < s.len() && s[i].0 == k,
    decreases s.len(),
{
    if s.len() > 0 {
        lemma_assoc_map_dom(s.drop_last(), k);
        if assoc_map(s).contains_key(k) {
            if s.last().0 != k {
                let i = choose|i: int| 0 <= i < s.drop_last().len() && s.drop_last()[i].0 == k;
                assert(s[i].0 == k);
            } else {
                assert(s[s.len() - 1].0 == k);
            }
        }
        if exists|i: int| 0 <= i < s.len() && s[i].0 == k {
            let i = choose|i: int| 0 <= i < s.len() && s[i].0 == k;
            if i < s.len() - 1 {
                assert(s.drop_last()[i].0 == k);
            }
        }
    }
}

pub proof fn lemma_assoc_map_at<V>(s: Seq<(Seq<char>, V)>, i: int)
    requires
        distinct_keys(s),
        0 <= i < s.len(),
    ensures
        assoc_map(s).contains_key(s[i].0),
        assoc_map(s)[s[i].0] == s[i].1,
    decreases s.len(),
{
    if i == s.len() - 1 {
    } else {
        assert(s.drop_last()[i] == s[i]);
        lemma_assoc_map_at(s.drop_last(), i);
        assert(s[i].0 != s.last().0);
    }
}

pub proof fn lemma_assoc_map_update<V>(s: Seq<(Seq<char>, V)>, i: int, v: V)
    requires
        distinct_keys(s),
        0 <= i < s.len(),
    ensures
        assoc_map(s.update(i, (s[i].0, v))) == assoc_map(s).insert(s[i].0, v),
    decreases s.len(),
{
    let t = s.update(i, (s[i].0, v));
    if i == s.len() - 1 {
        assert(t.drop_last() =~= s.drop_last());
        assert(t.last() == (s[i].0, v));
        assert(assoc_map(t) =~= assoc_map(s).insert(s[i].0, v));
    } else {
        assert(t.drop_last() =~= s.drop_last().update(i, (s[i].0, v)));
        assert(s.drop_last()[i] == s[i]);
        lemma_assoc_map_update(s.drop_last(), i, v);
        assert(t.last() == s.last());
        assert(s[i].0 != s.last().0);
        assert(assoc_map(t) =~= assoc_map(s).insert(s[i].0, v));
    }
}

/// The length of the denoted map of an entry sequence with distinct keys.
pub proof fn lemma_assoc_map_len<V>(s: Seq<(Seq<char>, V)>)
    requires
        distinct_keys(s),
    ensures
        assoc_map(s).dom().len() == s.len(),
        assoc_map(s).dom().finite(),
    decreases s.len(),
{
    if s.len() > 0 {
        lemma_assoc_map_len(s.drop_last());
        lemma_assoc_map_dom(s.drop_last(), s.last().0);
        assert(!assoc_map(s.drop_last()).contains_key(s.last().0));
    }
}

/// The diagnostic context of one request: a mapping of string keys to
/// structured values.
#[derive(Debug)]
pub struct Context {
    entries: Vec<(String, CtxValue)>,
}

impl View for Context {
    type V = Map<Seq<char>, CtxModel>;

    closed spec fn view(&self) -> Map<Seq<char>, CtxModel> {
        assoc_map(entry_views(self.entries@))
    }
}

impl Context {
    /// Well-formed: no key occurs twice.
    pub closed spec fn wf(&self) -> bool {
        distinct_keys(entry_views(self.entries@))
    }

    /// An empty context.
    pub fn new() -> (r: Context)
        ensures
            r.wf(),
            r@ == Map::<Seq<char>, CtxModel>::empty(),
    {
        let r = Context { entries: Vec::new() };
        proof {
            assert(entry_views(r.entries@) =~= Seq::<(Seq<char>, CtxModel)>::empty());
        }
        r
    }

    /// Binds `key` to `value`, replacing any earlier binding of `key`.
    pub fn insert(&mut self, key: String, value: CtxValue)
        requires
            old(self).wf(),
        ensures
            final(self).wf(),
            final(self)@ == old(self)@.insert(key@, value@),
    {
        let ghost evs = entry_views(self.entries@);
        let n = self.entries.len();
        let mut i: usize = 0;
        while i < n
            invariant
                i <= n,
                self == old(self),
                n == self.entries@.len(),
                evs == entry_views(self.entries@),
                distinct_keys(evs),
                forall|j: int| 0 <= j < i ==> evs[j].0 != key@,
            decreases n - i,
        {
            if str_eq(self.entries[i].0.as_str(), key.as_str()) {
                let ghost vv = value@;
                let ghost kv = key@;
                proof {
                    assert(evs[i as int] == (self.entries@[i as int].0@, self.entries@[i as int].1@));
                    assert(evs[i as int].0 == kv);
                }
                self.entries[i] = (key, value);
                proof {
                    assert(entry_views(self.entries@) =~= evs.update(i as int, (kv, vv)));
                    lemma_assoc_map_update(evs, i as int, vv);
                    assert(evs.update(i as int, (evs[i as int].0, vv)) == evs.update(
                        i as int,
                        (kv, vv),
                    ));
                    assert(self@ == assoc_map(evs).insert(kv, vv));
                    assert(distinct_keys(entry_views(self.entries@)));
                }
                return;
            }
            i += 1;
        }
        let ghost kv = key@;
        let ghost vv = value@;
        self.entries.push((key, value));
        proof {
            assert(entry_views(self.entries@) =~= evs.push((kv, vv)));
            assert(entry_views(self.entries@).drop_last() =~= evs);
            lemma_assoc_map_dom(evs, kv);
        }
    }

    /// The value bound to `key`, if any.
    pub fn get(&self, key: &str) -> (r: Option<&CtxValue>)
        requires
            self.wf(),
        ensures
            r is Some <==> self@.contains_key(key@),
            match r {
                Some(v) => self@.contains_key(key@) && self@[key@] == v@,
                None => !self@.contains_key(key@),
            },
    {
        let ghost evs = entry_views(self.entries@);
        let n = self.entries.len();
        let mut i: usize = 0;
        while i < n
            invariant
                i <= n,
                n == self.entries@.len(),
                evs == entry_views(self.entries@),
                distinct_keys(evs),
                forall|j: int| 0 <= j < i ==> evs[j].0 != key@,
            decreases n - i,
        {
            if str_eq(self.entries[i].0.as_str(), key) {
                proof {
                    lemma_assoc_map_at(evs, i as int);
                }
                return Some(&self.entries[i].1);
            }
            i += 1;
        }
        proof {
            lemma_assoc_map_dom(evs, key@);
        }
        None
    }

    /// Binds every entry of `other` in `self`; on a shared key the binding
    /// of `other` wins.
    pub fn extend(&mut self, other: &Context)
        requires
            old(self).wf(),
            other.wf(),
        ensures
            final(self).wf(),
            final(self)@ == old(self)@.union_prefer_right(other@),
    {
        let ghost base = old(self)@;
        let ghost oevs = entry_views(other.entries@);
        let n = other.entries.len();
        let mut i: usize = 0;
        proof {
            assert(oevs.take(0) =~= Seq::<(Seq<char>, CtxModel)>::empty());
            assert(base.union_prefer_right(assoc_map(oevs.take(0))) =~= base);
        }
        while i < n
            invariant
                i <= n,
                n == other.entries@.len(),
                oevs == entry_views(other.entries@),
                distinct_keys(oevs),
                self.wf(),
                self@ == base.union_prefer_right(assoc_map(oevs.take(i as int))),
            decreases n - i,
        {
            let key = other.entries[i].0.clone();
            let value = other.entries[i].1.duplicate();
            proof {
                assert(oevs[i as int] == (key@, value@));
            }
            self.insert(key, value);
            proof {
                assert(oevs.take(i + 1).drop_last() =~= oevs.take(i as int));
                assert(oevs.take(i + 1).last() == oevs[i as int]);
                assert(assoc_map(oevs.take(i + 1))
                    == assoc_map(oevs.take(i as int)).insert(oevs[i as int].0, oevs[i as int].1));
                assert(base.union_prefer_right(assoc_map(oevs.take(i + 1)))
                    =~= base.union_prefer_right(assoc_map(oevs.take(i as int)))
                        .insert(oevs[i as int].0, oevs[i as int].1));
            }
            i += 1;
        }
        proof {
            assert(oevs.take(n as int) =~= oevs);
        }
    }

    /// A copy of the context, with the same bindings.
    pub fn duplicate(&self) -> (r: Context)
        requires
            self.wf(),
        ensures
            r.wf(),
            r@ == self@,
    {
        let mut out = Context::new();
        out.extend(self);
        proof {
            assert(Map::<Seq<char>, CtxModel>::empty().union_prefer_right(self@) =~= self@);
        }
        out
    }

    /// The number of bindings.
    pub fn len(&self) -> (r: usize)
        requires
            self.wf(),
        ensures
            r == self@.dom().len(),
    {
        proof {
            lemma_assoc_map_len(entry_views(self.entries@));
        }
        self.entries.len()
    }

    /// The entries, in insertion order.
    pub fn entries(&self) -> (r: &Vec<(String, CtxValue)>)
        ensures
            assoc_map(entry_views(r@)) == self@,
            distinct_keys(entry_views(r@)) == self.wf(),
    {
        &self.entries
    }
}

} // verus!
