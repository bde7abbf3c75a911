//! The canonical parameter set of a request: string keys and values, held
//! sorted by key with no key twice, and its rendering as a query string.

use crate::text::{lemma_lex_irreflexive, lemma_lex_total, lemma_lex_transitive, lex_lt, str_lt};
use vstd::prelude::*;
use vstd::string::*;

verus! {

/// Keys in strictly ascending lexicographic order; in particular no key twice.
pub open spec fn sorted_by_key(s: Seq<(Seq<char>, Seq<char>)>) -> bool {
    forall|i: int, j: int| 0 <= i < j < s.len() ==> lex_lt((#[trigger] s[i]).0, (#[trigger] s[j]).0)
}

/// Whether some pair of `s` has the key `k`.
pub open spec fn has_key(s: Seq<(Seq<char>, Seq<char>)>, k: Seq<char>) -> bool {
    exists|i: int| 0 <= i < s.len() && (#[trigger] s[i]).0 == k
}

/// The mapping from key to value that a sequence of pairs stands for.
pub open spec fn as_map(s: Seq<(Seq<char>, Seq<char>)>) -> Map<Seq<char>, Seq<char>> {
    Map::new(
        |k: Seq<char>| has_key(s, k),
        |k: Seq<char>| s[choose|i: int| 0 <= i < s.len() && (#[trigger] s[i]).0 == k].1,
    )
}

/// `key=value` for each pair in turn, joined by `&`; empty for no pairs.
pub open spec fn query_text(s: Seq<(Seq<char>, Seq<char>)>) -> Seq<char>
    decreases s.len(),
{
    if s.len() == 0 {
        Seq::empty()
    } else if s.len() == 1 {
        s[0].0 + seq!['='] + s[0].1
    } else {
        query_text(s.drop_last()) + seq!['&'] + s.last().0 + seq!['='] + s.last().1
    }
}

/// In a sorted sequence every pair is found again under its key.
pub proof fn lemma_as_map_index(s: Seq<(Seq<char>, Seq<char>)>, i: int)
    requires
        sorted_by_key(s),
        0 <= i < s.len(),
    ensures
        as_map(s).contains_key(s[i].0),
        as_map(s)[s[i].0] == s[i].1,
{
    let k = s[i].0;
    assert(has_key(s, k));
    let j = choose|j: int| 0 <= j < s.len() && (#[trigger] s[j]).0 == k;
    lemma_lex_irreflexive(k);
    if j < i {
        assert(lex_lt(s[j].0, s[i].0));
    } else if i < j {
        assert(lex_lt(s[i].0, s[j].0));
    }
}

/// Putting a pair with a new key at its place keeps the order and adds the
/// key to the mapping.
pub proof fn lemma_insert_new(s: Seq<(Seq<char>, Seq<char>)>, i: int, k: Seq<char>, v: Seq<char>)
    requires
        sorted_by_key(s),
        0 <= i <= s.len(),
        forall|j: int| 0 <= j < i ==> lex_lt((#[trigger] s[j]).0, k),
        forall|j: int| i <= j < s.len() ==> lex_lt(k, (#[trigger] s[j]).0),
    ensures
        sorted_by_key(s.insert(i, (k, v))),
        as_map(s.insert(i, (k, v))) == as_map(s).insert(k, v),
{
    let t = s.insert(i, (k, v));
    assert forall|a: int, b: int| 0 <= a < b < t.len() implies lex_lt(
        (#[trigger] t[a]).0,
        (#[trigger] t[b]).0,
    ) by {
        let a0 = if a < i { a } else { a - 1 };
        let b0 = if b < i { b } else { b - 1 };
        if a != i {
            assert(t[a] == s[a0]);
        }
        if b != i {
            assert(t[b] == s[b0]);
        }
    }
    assert forall|key: Seq<char>| has_key(t, key) <==> (key == k || has_key(s, key)) by {
        if has_key(t, key) {
            let a = choose|a: int| 0 <= a < t.len() && (#[trigger] t[a]).0 == key;
            if a != i {
                let a0 = if a < i { a } else { a - 1 };
                assert(s[a0].0 == key);
            }
        }
        if key == k {
            assert(t[i].0 == key);
        }
        if has_key(s, key) {
            let a = choose|a: int| 0 <= a < s.len() && (#[trigger] s[a]).0 == key;
            let a1 = if a < i { a } else { a + 1 };
            assert(t[a1].0 == key);
        }
    }
    assert forall|key: Seq<char>| has_key(t, key) implies as_map(t)[key] == as_map(s).insert(
        k,
        v,
    )[key] by {
        let a = choose|a: int| 0 <= a < t.len() && (#[trigger] t[a]).0 == key;
        lemma_as_map_index(t, a);
        if a != i {
            let a0 = if a < i { a } else { a - 1 };
            assert(t[a] == s[a0]);
            lemma_as_map_index(s, a0);
            lemma_lex_irreflexive(k);
        }
    }
    assert(as_map(t) =~= as_map(s).insert(k, v));
}

/// Giving a key that is present a new value keeps the order and updates the
/// mapping.
pub proof fn lemma_replace(s: Seq<(Seq<char>, Seq<char>)>, i: int, v: Seq<char>)
    requires
        sorted_by_key(s),
        0 <= i < s.len(),
    ensures
        sorted_by_key(s.update(i, (s[i].0, v))),
        as_map(s.update(i, (s[i].0, v))) == as_map(s).insert(s[i].0, v),
{
    let k = s[i].0;
    let t = s.update(i, (k, v));
    assert forall|a: int, b: int| 0 <= a < b < t.len() implies lex_lt(
        (#[trigger] t[a]).0,
        (#[trigger] t[b]).0,
    ) by {
        assert(t[a].0 == s[a].0);
        assert(t[b].0 == s[b].0);
    }
    assert forall|key: Seq<char>| has_key(t, key) <==> has_key(s, key) by {
        if has_key(t, key) {
            let a = choose|a: int| 0 <= a < t.len() && (#[trigger] t[a]).0 == key;
            assert(s[a].0 == key);
        }
        if has_key(s, key) {
            let a = choose|a: int| 0 <= a < s.len() && (#[trigger] s[a]).0 == key;
            assert(t[a].0 == key);
        }
    }
    assert(has_key(s, k));
    assert forall|key: Seq<char>| has_key(t, key) implies as_map(t)[key] == as_map(s).insert(
        k,
        v,
    )[key] by {
        let a = choose|a: int| 0 <= a < t.len() && (#[trigger] t[a]).0 == key;
        lemma_as_map_index(t, a);
        if a != i {
            assert(t[a] == s[a]);
            lemma_as_map_index(s, a);
            lemma_lex_irreflexive(k);
            if a < i {
                assert(lex_lt(s[a].0, s[i].0));
            } else {
                assert(lex_lt(s[i].0, s[a].0));
            }
        }
    }
    assert(as_map(t) =~= as_map(s).insert(k, v));
}

/// Taking a pair out keeps the order and takes its key out of the mapping.
pub proof fn lemma_remove(s: Seq<(Seq<char>, Seq<char>)>, i: int)
    requires
        sorted_by_key(s),
        0 <= i < s.len(),
    ensures
        sorted_by_key(s.remove(i)),
        as_map(s.remove(i)) == as_map(s).remove(s[i].0),
{
    let k = s[i].0;
    let t = s.remove(i);
    assert forall|a: int, b: int| 0 <= a < b < t.len() implies lex_lt(
        (#[trigger] t[a]).0,
        (#[trigger] t[b]).0,
    ) by {
        let a1 = if a < i { a } else { a + 1 };
        let b1 = if b < i { b } else { b + 1 };
        assert(t[a] == s[a1]);
        assert(t[b] == s[b1]);
    }
    lemma_lex_irreflexive(k);
    assert forall|key: Seq<char>| has_key(t, key) <==> (key != k && has_key(s, key)) by {
        if has_key(t, key) {
            let a = choose|a: int| 0 <= a < t.len() && (#[trigger] t[a]).0 == key;
            let a1 = if a < i { a } else { a + 1 };
            assert(s[a1].0 == key);
            if a1 < i {
                assert(lex_lt(s[a1].0, s[i].0));
            } else {
                assert(lex_lt(s[i].0, s[a1].0));
            }
        }
        if key != k && has_key(s, key) {
            let a = choose|a: int| 0 <= a < s.len() && (#[trigger] s[a]).0 == key;
            let a0 = if a < i { a } else { a - 1 };
            assert(t[a0].0 == key);
        }
    }
    assert forall|key: Seq<char>| has_key(t, key) implies as_map(t)[key] == as_map(s)[key] by {
        let a = choose|a: int| 0 <= a < t.len() && (#[trigger] t[a]).0 == key;
        let a1 = if a < i { a } else { a + 1 };
        lemma_as_map_index(t, a);
        assert(t[a] == s[a1]);
        lemma_as_map_index(s, a1);
    }
    assert(as_map(t) =~= as_map(s).remove(k));
}

/// A mapping has one canonical sequence: two sorted sequences that stand for
/// the same mapping are the same sequence, whatever the order in which their
/// pairs were put in.
pub proof fn lemma_canonical_unique(
    a: Seq<(Seq<char>, Seq<char>)>,
    b: Seq<(Seq<char>, Seq<char>)>,
)
    requires
        sorted_by_key(a),
        sorted_by_key(b),
        as_map(a) == as_map(b),
    ensures
        a == b,
    decreases a.len(),
{
    if a.len() == 0 {
        if b.len() > 0 {
            lemma_as_map_index(b, 0);
            assert(has_key(a, b[0].0));
        }
        assert(a =~= b);
    } else {
        let la = a.len() - 1;
        lemma_as_map_index(a, la);
        assert(has_key(b, a[la].0));
        let j = choose|j: int| 0 <= j < b.len() && (#[trigger] b[j]).0 == a[la].0;
        let lb = b.len() - 1;
        lemma_as_map_index(b, lb);
        assert(has_key(a, b[lb].0));
        let i = choose|i: int| 0 <= i < a.len() && (#[trigger] a[i]).0 == b[lb].0;
        if j < lb {
            assert(lex_lt(b[j].0, b[lb].0));
            if i < la {
                assert(lex_lt(a[i].0, a[la].0));
                lemma_lex_transitive(a[la].0, a[i].0, a[la].0);
            }
            lemma_lex_irreflexive(a[la].0);
        }
        assert(a[la] == b[lb]);
        lemma_remove(a, la);
        lemma_remove(b, lb);
        assert(a.remove(la) =~= a.drop_last());
        assert(b.remove(lb) =~= b.drop_last());
        lemma_canonical_unique(a.drop_last(), b.drop_last());
        assert(a =~= a.drop_last().push(a[la]));
        assert(b =~= b.drop_last().push(b[lb]));
    }
}

/// The canonical sequence of a mapping: its pairs by ascending key.
pub open spec fn canonical(m: Map<Seq<char>, Seq<char>>) -> Seq<(Seq<char>, Seq<char>)> {
    choose|s: Seq<(Seq<char>, Seq<char>)>| sorted_by_key(s) && as_map(s) == m
}

/// A sorted sequence is the canonical sequence of the mapping it stands for.
pub proof fn lemma_canonical_of(s: Seq<(Seq<char>, Seq<char>)>)
    requires
        sorted_by_key(s),
    ensures
        canonical(as_map(s)) == s,
{
    let c = canonical(as_map(s));
    lemma_canonical_unique(c, s);
}

/// The canonical sequence does not depend on the order in which two
/// different keys were set.
pub proof fn lemma_insert_order(
    m: Map<Seq<char>, Seq<char>>,
    k1: Seq<char>,
    v1: Seq<char>,
    k2: Seq<char>,
    v2: Seq<char>,
)
    requires
        k1 != k2,
    ensures
        canonical(m.insert(k1, v1).insert(k2, v2)) == canonical(m.insert(k2, v2).insert(k1, v1)),
{
    assert(m.insert(k1, v1).insert(k2, v2) =~= m.insert(k2, v2).insert(k1, v1));
}

#[derive(Clone, Debug)]
struct Entry {
    key: String,
    value: String,
}

/// A set of request parameters in canonical form.
#[derive(Debug)]
pub struct Params {
    entries: Vec<Entry>,
}

spec fn pairs_of(entries: Seq<Entry>) -> Seq<(Seq<char>, Seq<char>)> {
    Seq::new(entries.len(), |i: int| (entries[i].key@, entries[i].value@))
}

impl View for Params {
    type V = Map<Seq<char>, Seq<char>>;

    /// The mapping from each key to its value.
    open spec fn view(&self) -> Map<Seq<char>, Seq<char>> {
        as_map(self.pairs())
    }
}

impl Params {
    /// The pairs in the order in which they are rendered.
    pub closed spec fn pairs(&self) -> Seq<(Seq<char>, Seq<char>)> {
        pairs_of(self.entries@)
    }

    #[verifier::type_invariant]
    spec fn ordered(&self) -> bool {
        sorted_by_key(pairs_of(self.entries@))
    }

    /// The empty parameter set.
    pub fn new() -> (p: Params)
        ensures
            p.pairs() == Seq::<(Seq<char>, Seq<char>)>::empty(),
            p@ == Map::<Seq<char>, Seq<char>>::empty(),
    {
        let p = Params { entries: Vec::new() };
        assert(p.pairs() =~= Seq::empty());
        assert(p@ =~= Map::empty());
        p
    }

    /// The number of parameters.
    pub fn len(&self) -> (n: usize)
        ensures
            n == canonical(self@).len(),
            self.pairs() == canonical(self@),
    {
        proof {
            use_type_invariant(self);
            lemma_canonical_of(self.pairs());
        }
        self.entries.len()
    }

    /// Whether there is no parameter.
    pub fn is_empty(&self) -> (e: bool)
        ensures
            e == (canonical(self@).len() == 0),
            self.pairs() == canonical(self@),
    {
        proof {
            use_type_invariant(self);
            lemma_canonical_of(self.pairs());
        }
        self.entries.len() == 0
    }

    /// Sets `key` to `value`: a key that is present gets the new value, a new
    /// key goes to its place in the order.
    pub fn insert(&mut self, key: String, value: String)
        ensures
            final(self)@ == old(self)@.insert(key@, value@),
            sorted_by_key(final(self).pairs()),
            sorted_by_key(old(self).pairs()),
    {
        proof {
            use_type_invariant(&*self);
        }
        let mut entries: Vec<Entry> = Vec::new();
        std::mem::swap(&mut self.entries, &mut entries);
        let ghost before = pairs_of(entries@);
        let n: usize = entries.len();
        let mut i: usize = 0;
        while i < n && str_lt(entries[i].key.as_str(), key.as_str())
            invariant
                i <= n,
                n == entries@.len(),
                before == pairs_of(entries@),
                forall|j: int| 0 <= j < i ==> lex_lt((#[trigger] before[j]).0, key@),
            decreases n - i,
        {
            i += 1;
        }
        if i < n && entries[i].key == key {
            proof {
                lemma_replace(before, i as int, value@);
            }
            entries.set(i, Entry { key, value });
            assert(pairs_of(entries@) =~= before.update(i as int, (key@, value@)));
        } else {
            proof {
                if i < n {
                    lemma_lex_total(before[i as int].0, key@);
                    assert forall|j: int| i <= j < n implies lex_lt(
                        key@,
                        (#[trigger] before[j]).0,
                    ) by {
                        if i < j {
                            assert(lex_lt(before[i as int].0, before[j].0));
                            lemma_lex_transitive(key@, before[i as int].0, before[j].0);
                        }
                    }
                }
                lemma_insert_new(before, i as int, key@, value@);
            }
            entries.insert(i, Entry { key, value });
            assert(pairs_of(entries@) =~= before.insert(i as int, (key@, value@)));
        }
        self.entries = entries;
    }

    /// Takes `key` out, if it is there.
    pub fn remove(&mut self, key: &str)
        ensures
            final(self)@ == old(self)@.remove(key@),
            sorted_by_key(final(self).pairs()),
            sorted_by_key(old(self).pairs()),
    {
        proof {
            use_type_invariant(&*self);
        }
        let mut entries: Vec<Entry> = Vec::new();
        std::mem::swap(&mut self.entries, &mut entries);
        let ghost before = pairs_of(entries@);
        let wanted: String = String::from_str(key);
        let n: usize = entries.len();
        let mut i: usize = 0;
        while i < n && entries[i].key != wanted
            invariant
                i <= n,
                n == entries@.len(),
                before == pairs_of(entries@),
                wanted@ == key@,
                forall|j: int| 0 <= j < i ==> (#[trigger] before[j]).0 != key@,
            decreases n - i,
        {
            i += 1;
        }
        if i < n {
            proof {
                lemma_remove(before, i as int);
            }
            entries.remove(i);
            assert(pairs_of(entries@) =~= before.remove(i as int));
        } else {
            assert(!has_key(before, key@));
            assert(as_map(before) =~= as_map(before).remove(key@));
        }
        self.entries = entries;
    }

    /// The value of `key`, if it is there.
    pub fn get(&self, key: &str) -> (r: Option<String>)
        ensures
            match r {
                Some(v) => self@.contains_key(key@) && v@ == self@[key@],
                None => !self@.contains_key(key@),
            },
    {
        proof {
            use_type_invariant(self);
        }
        let wanted: String = String::from_str(key);
        let n: usize = self.entries.len();
        let mut i: usize = 0;
        while i < n
            invariant
                i <= n,
                n == self.entries@.len(),
                wanted@ == key@,
                sorted_by_key(self.pairs()),
                forall|j: int| 0 <= j < i ==> (#[trigger] self.pairs()[j]).0 != key@,
            decreases n - i,
        {
            if self.entries[i].key == wanted {
                proof {
                    assert(self.pairs()[i as int].0 == key@);
                    lemma_as_map_index(self.pairs(), i as int);
                }
                return Some(self.entries[i].value.clone());
            }
            i += 1;
        }
        assert(!has_key(self.pairs(), key@));
        None
    }

    /// The parameters as a query string: each `key=value`, by ascending key,
    /// joined by `&`.
    pub fn to_query(&self) -> (q: String)
        ensures
            q@ == query_text(canonical(self@)),
            self.pairs() == canonical(self@),
    {
        proof {
            use_type_invariant(self);
            lemma_canonical_of(self.pairs());
        }
        let mut q: String = String::new();
        let n: usize = self.entries.len();
        let mut i: usize = 0;
        while i < n
            invariant
                i <= n,
                n == self.entries@.len(),
                q@ == query_text(self.pairs().take(i as int)),
            decreases n - i,
        {
            append_pair(&mut q, self.entries[i].key.as_str(), self.entries[i].value.as_str(), i == 0);
            proof {
                let t = self.pairs().take(i + 1);
                assert(t.drop_last() =~= self.pairs().take(i as int));
                assert(t.last() == self.pairs()[i as int]);
            }
            i += 1;
        }
        assert(self.pairs().take(n as int) =~= self.pairs());
        q
    }
}

impl Clone for Params {
    /// A copy with the same parameters.
    fn clone(&self) -> (c: Params)
        ensures
            c.pairs() == self.pairs(),
            c@ == self@,
    {
        proof {
            use_type_invariant(self);
        }
        let mut entries: Vec<Entry> = Vec::new();
        let n: usize = self.entries.len();
        let mut i: usize = 0;
        while i < n
            invariant
                i <= n,
                n == self.entries@.len(),
                entries@.len() == i,
                pairs_of(entries@) == pairs_of(self.entries@).take(i as int),
            decreases n - i,
        {
            let ghost before = entries@;
            entries.push(
                Entry { key: self.entries[i].key.clone(), value: self.entries[i].value.clone() },
            );
            proof {
                let target = pairs_of(self.entries@).take(i + 1);
                assert forall|j: int| 0 <= j < i + 1 implies pairs_of(entries@)[j] == target[j] by {
                    if j < i {
                        assert(entries@[j] == before[j]);
                        assert(pairs_of(before)[j] == pairs_of(self.entries@).take(i as int)[j]);
                    }
                }
                assert(pairs_of(entries@) =~= target);
            }
            i += 1;
        }
        assert(pairs_of(self.entries@).take(n as int) =~= pairs_of(self.entries@));
        Params { entries }
    }
}

/// Adds `key=value` to a query string, after an `&` unless it is the first.
pub fn append_pair(q: &mut String, key: &str, value: &str, first: bool)
    ensures
        final(q)@ == if first {
            old(q)@ + key@ + seq!['='] + value@
        } else {
            old(q)@ + seq!['&'] + key@ + seq!['='] + value@
        },
{
    proof {
        reveal_strlit("&");
        reveal_strlit("=");
    }
    if !first {
        q.append("&");
    }
    q.append(key);
    q.append("=");
    q.append(value);
    assert("&"@ =~= seq!['&']);
    assert("="@ =~= seq!['=']);
}

} // verus!
