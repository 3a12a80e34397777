//! The value a blocking credential operation produces: an unordered mapping
//! from header-name strings to header-value strings. Immutable once handed to
//! a bridge; a request handler serializes it verbatim.

use vstd::prelude::*;

verus! {

/// Names of the pairs in `s` are pairwise distinct.
pub open spec fn distinct_names(s: Seq<(Seq<char>, Seq<char>)>) -> bool {
    forall|i: int, j: int| 0 <= i < j < s.len() ==> s[i].0 != s[j].0
}

/// The mathematical map that a sequence of (name, value) pairs stands for.
pub open spec fn map_of(s: Seq<(Seq<char>, Seq<char>)>) -> Map<Seq<char>, Seq<char>> {
    Map::new(
        |name: Seq<char>| exists|i: int| 0 <= i < s.len() && s[i].0 == name,
        |name: Seq<char>| s[choose|i: int| 0 <= i < s.len() && s[i].0 == name].1,
    )
}

/// With distinct names, each pair of `s` is an entry of `map_of(s)`.
proof fn lemma_at_in_map(s: Seq<(Seq<char>, Seq<char>)>, i: int)
    requires
        distinct_names(s),
        0 <= i < s.len(),
    ensures
        map_of(s).contains_key(s[i].0),
        map_of(s)[s[i].0] == s[i].1,
{
    let name = s[i].0;
    assert(exists|k: int| 0 <= k < s.len() && s[k].0 == name);
    let k = choose|k: int| 0 <= k < s.len() && s[k].0 == name;
    assert(k == i);
}

/// With distinct names, `map_of(s)` has exactly one key per pair of `s`.
proof fn lemma_dom_len(s: Seq<(Seq<char>, Seq<char>)>)
    requires
        distinct_names(s),
    ensures
        map_of(s).dom().finite(),
        map_of(s).dom().len() == s.len(),
    decreases s.len(),
{
    if s.len() == 0 {
        assert(map_of(s).dom() =~= Set::<Seq<char>>::empty());
    } else {
        let last = s.len() - 1;
        let shorter = s.subrange(0, last as int);
        lemma_dom_len(shorter);
        let nm = s[last as int].0;
        if map_of(shorter).contains_key(nm) {
            let k = choose|k: int| 0 <= k < shorter.len() && shorter[k].0 == nm;
            assert(s[k].0 == s[last as int].0);
            assert(false);
        }
        assert forall|n: Seq<char>|
            map_of(s).contains_key(n) implies map_of(shorter).dom().insert(nm).contains(n) by {
            let k = choose|k: int| 0 <= k < s.len() && s[k].0 == n;
            if k < last {
                assert(shorter[k].0 == n);
            }
        }
        assert forall|n: Seq<char>|
            map_of(shorter).contains_key(n) implies map_of(s).contains_key(n) by {
            let k = choose|k: int| 0 <= k < shorter.len() && shorter[k].0 == n;
            assert(s[k].0 == n);
        }
        assert(map_of(s).contains_key(nm));
        assert(map_of(s).dom() =~= map_of(shorter).dom().insert(nm));
    }
}

/// Replacing the pair that holds `name` updates exactly that entry.
proof fn lemma_set_value(
    s: Seq<(Seq<char>, Seq<char>)>,
    i: int,
    name: Seq<char>,
    value: Seq<char>,
)
    requires
        distinct_names(s),
        0 <= i < s.len(),
        s[i].0 == name,
    ensures
        distinct_names(s.update(i, (name, value))),
        map_of(s.update(i, (name, value))) == map_of(s).insert(name, value),
{
    let t = s.update(i, (name, value));
    assert forall|a: int, b: int| 0 <= a < b < t.len() implies t[a].0 != t[b].0 by {
        assert(s[a].0 != s[b].0);
    }
    assert forall|n: Seq<char>| #[trigger] map_of(t).contains_key(n) == map_of(s).insert(
        name,
        value,
    ).contains_key(n) by {
        if n == name {
            assert(t[i].0 == n);
        } else {
            if map_of(t).contains_key(n) {
                let k = choose|k: int| 0 <= k < t.len() && t[k].0 == n;
                assert(s[k].0 == n);
            }
            if map_of(s).contains_key(n) {
                let k = choose|k: int| 0 <= k < s.len() && s[k].0 == n;
                assert(t[k].0 == n);
            }
        }
    }
    assert forall|n: Seq<char>| map_of(t).contains_key(n) implies #[trigger] map_of(t)[n]
        == map_of(s).insert(name, value)[n] by {
        let k = choose|k: int| 0 <= k < t.len() && t[k].0 == n;
        if n == name {
            lemma_at_in_map(t, i);
        } else {
            lemma_at_in_map(t, k);
            lemma_at_in_map(s, k);
        }
    }
    assert(map_of(t) =~= map_of(s).insert(name, value));
}

/// Appending a pair whose name is absent adds exactly that entry.
proof fn lemma_push_new(s: Seq<(Seq<char>, Seq<char>)>, name: Seq<char>, value: Seq<char>)
    requires
        distinct_names(s),
        forall|j: int| 0 <= j < s.len() ==> s[j].0 != name,
    ensures
        distinct_names(s.push((name, value))),
        map_of(s.push((name, value))) == map_of(s).insert(name, value),
{
    let t = s.push((name, value));
    let last = s.len() as int;
    assert forall|a: int, b: int| 0 <= a < b < t.len() implies t[a].0 != t[b].0 by {
        if b < last {
            assert(s[a].0 != s[b].0);
        } else {
            assert(t[b] == (name, value));
            assert(s[a].0 != name);
        }
    }
    assert forall|n: Seq<char>| #[trigger] map_of(t).contains_key(n) == map_of(s).insert(
        name,
        value,
    ).contains_key(n) by {
        if n == name {
            assert(t[last].0 == n);
        } else {
            if map_of(t).contains_key(n) {
                let k = choose|k: int| 0 <= k < t.len() && t[k].0 == n;
                assert(k < last);
                assert(s[k].0 == n);
            }
            if map_of(s).contains_key(n) {
                let k = choose|k: int| 0 <= k < s.len() && s[k].0 == n;
                assert(t[k].0 == n);
            }
        }
    }
    assert forall|n: Seq<char>| map_of(t).contains_key(n) implies #[trigger] map_of(t)[n]
        == map_of(s).insert(name, value)[n] by {
        let k = choose|k: int| 0 <= k < t.len() && t[k].0 == n;
        if n == name {
            lemma_at_in_map(t, last);
        } else {
            lemma_at_in_map(t, k);
            lemma_at_in_map(s, k);
        }
    }
    assert(map_of(t) =~= map_of(s).insert(name, value));
}

/// A mapping from header names to header values, with unique names.
///
/// The view is the mathematical map from name (as a character sequence) to
/// value.
pub struct Headers {
    pairs: Vec<(String, String)>,
}

impl Headers {
    /// The sequence of (name, value) pairs, in insertion order.
    pub closed spec fn seq(self) -> Seq<(Seq<char>, Seq<char>)> {
        self.pairs@.map_values(|p: (String, String)| (p.0@, p.1@))
    }

    /// Names are pairwise distinct.
    pub closed spec fn wf(self) -> bool {
        distinct_names(self.seq())
    }

    /// The mapping as a mathematical map.
    pub closed spec fn view(self) -> Map<Seq<char>, Seq<char>> {
        map_of(self.seq())
    }

    /// An empty mapping.
    pub fn new() -> (r: Headers)
        ensures
            r.wf(),
            r@ == Map::<Seq<char>, Seq<char>>::empty(),
            r.seq().len() == 0,
    {
        let r = Headers { pairs: Vec::new() };
        proof {
            assert(r@ =~= Map::<Seq<char>, Seq<char>>::empty());
        }
        r
    }

    /// The number of entries.
    pub fn len(&self) -> (n: usize)
        ensures
            n == self.seq().len(),
            self.wf() ==> n == self@.dom().len(),
    {
        proof {
            if self.wf() {
                lemma_dom_len(self.seq());
            }
        }
        self.pairs.len()
    }

    /// The entry at position `i`, as a fresh (name, value) pair.
    pub fn pair(&self, i: usize) -> (p: (String, String))
        requires
            i < self.seq().len(),
        ensures
            (p.0@, p.1@) == self.seq()[i as int],
            self.wf() ==> self@.contains_key(p.0@) && self@[p.0@] == p.1@,
    {
        proof {
            if self.wf() {
                lemma_at_in_map(self.seq(), i as int);
            }
        }
        (self.pairs[i].0.clone(), self.pairs[i].1.clone())
    }

    /// The value stored under `name`, if any.
    pub fn get(&self, name: &String) -> (r: Option<&String>)
        requires
            self.wf(),
        ensures
            r is Some <==> self@.contains_key(name@),
            r matches Some(v) ==> self@[name@] == v@,
    {
        let n = self.pairs.len();
        let mut i: usize = 0;
        while i < n
            invariant
                n == self.seq().len(),
                i <= n,
                self.wf(),
                forall|j: int| 0 <= j < i ==> self.seq()[j].0 != name@,
            decreases n - i,
        {
            if self.pairs[i].0 == *name {
                proof {
                    lemma_at_in_map(self.seq(), i as int);
                }
                return Some(&self.pairs[i].1);
            }
            i += 1;
        }
        None
    }

    /// Adds or replaces the entry for `name`.
    pub fn insert(&mut self, name: String, value: String)
        requires
            old(self).wf(),
        ensures
            final(self).wf(),
            final(self)@ == old(self)@.insert(name@, value@),
    {
        let n = self.pairs.len();
        let mut i: usize = 0;
        while i < n
            invariant
                n == self.seq().len(),
                i <= n,
                self.wf(),
                *self == *old(self),
                forall|j: int| 0 <= j < i ==> self.seq()[j].0 != name@,
            decreases n - i,
        {
            if self.pairs[i].0 == name {
                proof {
                    lemma_set_value(self.seq(), i as int, name@, value@);
                }
                let ghost s0 = self.seq();
                let ghost gname = name@;
                let ghost gvalue = value@;
                self.pairs.set(i, (name, value));
                proof {
                    assert(self.seq() =~= s0.update(i as int, (gname, gvalue)));
                }
                return;
            }
            i += 1;
        }
        proof {
            lemma_push_new(self.seq(), name@, value@);
        }
        let ghost s0 = self.seq();
        let ghost gname = name@;
        let ghost gvalue = value@;
        self.pairs.push((name, value));
        proof {
            assert(self.seq() =~= s0.push((gname, gvalue)));
        }
    }
}

impl Clone for Headers {
    /// A clone maps the same names to the same values.
    fn clone(&self) -> (r: Self)
        ensures
            r.seq() == self.seq(),
            r@ == self@,
            r.wf() == self.wf(),
    {
        let n = self.pairs.len();
        let mut pairs: Vec<(String, String)> = Vec::new();
        let mut i: usize = 0;
        while i < n
            invariant
                n == self.pairs@.len(),
                i <= n,
                pairs@.len() == i,
                forall|j: int|
                    0 <= j < i ==> (#[trigger] pairs@[j].0@, pairs@[j].1@) == (
                        self.pairs@[j].0@,
                        self.pairs@[j].1@,
                    ),
            decreases n - i,
        {
            pairs.push((self.pairs[i].0.clone(), self.pairs[i].1.clone()));
            i += 1;
        }
        let r = Headers { pairs };
        proof {
            assert(r.seq() =~= self.seq());
        }
        r
    }
}

} // verus!
