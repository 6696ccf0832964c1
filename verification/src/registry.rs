//! A name-keyed registry: later registrations under a name replace earlier ones.

use crate::json::str_eq;
use vstd::prelude::*;

verus! {

/// The value registered under `key` in an association list (its first entry with that key).
pub open spec fn assoc_get<V>(es: Seq<(Seq<char>, V)>, key: Seq<char>) -> Option<V>
    decreases es.len(),
{
    if es.len() == 0 {
        None
    } else if es[0].0 == key {
        Some(es[0].1)
    } else {
        assoc_get(es.drop_first(), key)
    }
}

/// The association list after registering `value` under `key`: the first entry with that key
/// is replaced in place, or the pair is appended when there is none.
pub open spec fn assoc_set<V>(es: Seq<(Seq<char>, V)>, key: Seq<char>, value: V) -> Seq<
    (Seq<char>, V),
>
    decreases es.len(),
{
    if es.len() == 0 {
        seq![(key, value)]
    } else if es[0].0 == key {
        es.update(0, (key, value))
    } else {
        seq![es[0]] + assoc_set(es.drop_first(), key, value)
    }
}

/// Whether no key occurs twice.
pub open spec fn keys_distinct<V>(es: Seq<(Seq<char>, V)>) -> bool {
    forall|i: int, j: int| 0 <= i < j < es.len() ==> es[i].0 != es[j].0
}

/// A map from names to values, kept in registration order.
#[derive(Debug, Clone)]
pub struct Registry<V> {
    entries: Vec<(String, V)>,
}

impl<V> View for Registry<V> {
    type V = Seq<(Seq<char>, V)>;

    /// The entries, each name taken by its view.
    closed spec fn view(&self) -> Seq<(Seq<char>, V)> {
        Seq::new(self.entries@.len(), |i: int| (self.entries@[i].0@, self.entries@[i].1))
    }
}

impl<V> Registry<V> {
    /// Well-formedness: no name is registered twice.
    pub open spec fn wf(&self) -> bool {
        keys_distinct(self.view())
    }

    /// The value registered under `key`.
    pub open spec fn lookup(&self, key: Seq<char>) -> Option<V> {
        assoc_get(self.view(), key)
    }

    /// An empty registry.
    pub fn new() -> (r: Self)
        ensures
            r.view() == Seq::<(Seq<char>, V)>::empty(),
            r.wf(),
    {
        let r = Registry { entries: Vec::new() };
        assert(r.view() =~= Seq::<(Seq<char>, V)>::empty());
        r
    }

    /// The number of entries.
    pub fn len(&self) -> (r: usize)
        ensures
            r == self.view().len(),
    {
        self.entries.len()
    }

    /// Whether there are no entries.
    pub fn is_empty(&self) -> (r: bool)
        ensures
            r == (self.view().len() == 0),
    {
        self.entries.len() == 0
    }

    /// The name and value of the `i`-th entry.
    pub fn entry(&self, i: usize) -> (r: (&String, &V))
        requires
            i < self.view().len(),
        ensures
            (r.0@, *r.1) == self.view()[i as int],
    {
        (&self.entries[i].0, &self.entries[i].1)
    }

    /// The value registered under `key`, if any.
    pub fn get(&self, key: &str) -> (r: Option<&V>)
        ensures
            match r {
                Some(v) => self.lookup(key@) == Some(*v),
                None => self.lookup(key@) is None,
            },
    {
        let ghost es = self.view();
        let mut i: usize = 0;
        assert(es.skip(0) =~= es);
        while i < self.entries.len()
            invariant
                0 <= i <= self.entries.len(),
                es == self.view(),
                es.len() == self.entries@.len(),
                assoc_get(es, key@) == assoc_get(es.skip(i as int), key@),
            decreases self.entries.len() - i,
        {
            assert(es.skip(i as int).drop_first() =~= es.skip(i + 1));
            assert(es.skip(i as int)[0] == es[i as int]);
            if str_eq(self.entries[i].0.as_str(), key) {
                return Some(&self.entries[i].1);
            }
            i = i + 1;
        }
        None
    }

    /// Whether `key` is registered.
    pub fn contains(&self, key: &str) -> (r: bool)
        ensures
            r == self.lookup(key@) is Some,
    {
        self.get(key).is_some()
    }

    /// Registers `value` under `key`, replacing an earlier registration of the same name.
    pub fn insert(&mut self, key: String, value: V)
        ensures
            final(self).view() == assoc_set(old(self).view(), key@, value),
            old(self).wf() ==> final(self).wf(),
    {
        proof {
            if old(self).wf() {
                law_registry_keys_stay_distinct(old(self).view(), key@, value);
            }
        }
        let ghost stays_distinct = old(self).wf() ==> keys_distinct(
            assoc_set(old(self).view(), key@, value),
        );
        let ghost es = old(self).view();
        let ghost k = key@;
        let mut i: usize = 0;
        let n = self.entries.len();
        assert(es.skip(0) =~= es);
        while i < n
            invariant
                0 <= i <= n,
                n == self.entries@.len(),
                es == old(self).view(),
                *self == *old(self),
                k == key@,
                forall|j: int| 0 <= j < i ==> es[j].0 != k,
                stays_distinct,
                stays_distinct == (old(self).wf() ==> keys_distinct(assoc_set(es, k, value))),
            decreases n - i,
        {
            if str_eq(self.entries[i].0.as_str(), key.as_str()) {
                let ghost before = self.view();
                self.entries.set(i, (key, value));
                proof {
                    lemma_assoc_set_at(es, k, value, i as int);
                    assert(self.view() =~= es.update(i as int, (k, value)));
                }
                return;
            }
            i = i + 1;
        }
        self.entries.push((key, value));
        proof {
            lemma_assoc_set_absent(es, k, value);
            assert(self.view() =~= es.push((k, value)));
        }
    }
}

/// Setting a key whose first occurrence is at `i` replaces that entry.
pub proof fn lemma_assoc_set_at<V>(es: Seq<(Seq<char>, V)>, k: Seq<char>, v: V, i: int)
    requires
        0 <= i < es.len(),
        es[i].0 == k,
        forall|j: int| 0 <= j < i ==> es[j].0 != k,
    ensures
        assoc_set(es, k, v) == es.update(i, (k, v)),
    decreases i,
{
    if i > 0 {
        lemma_assoc_set_at(es.drop_first(), k, v, i - 1);
        assert(seq![es[0]] + es.drop_first().update(i - 1, (k, v)) =~= es.update(i, (k, v)));
    }
}

/// Setting a key that does not occur appends it.
pub proof fn lemma_assoc_set_absent<V>(es: Seq<(Seq<char>, V)>, k: Seq<char>, v: V)
    requires
        forall|j: int| 0 <= j < es.len() ==> es[j].0 != k,
    ensures
        assoc_set(es, k, v) == es.push((k, v)),
    decreases es.len(),
{
    if es.len() > 0 {
        assert(es[0].0 != k);
        lemma_assoc_set_absent(es.drop_first(), k, v);
        assert(seq![es[0]] + es.drop_first().push((k, v)) =~= es.push((k, v)));
    }
}

/// A registry gives back what was last registered under a name, and registering under one name
/// leaves every other name as it was.
pub proof fn law_registry_get_after_insert<V>(
    es: Seq<(Seq<char>, V)>,
    k: Seq<char>,
    v: V,
    other: Seq<char>,
)
    ensures
        assoc_get(assoc_set(es, k, v), k) == Some(v),
        other != k ==> assoc_get(assoc_set(es, k, v), other) == assoc_get(es, other),
    decreases es.len(),
{
    let s = assoc_set(es, k, v);
    if es.len() > 0 && es[0].0 != k {
        law_registry_get_after_insert(es.drop_first(), k, v, other);
        assert(s.drop_first() =~= assoc_set(es.drop_first(), k, v));
        assert(s[0] == es[0]);
        if other != k {
            if es[0].0 == other {
                assert(assoc_get(s, other) == Some(es[0].1));
            } else {
                assert(assoc_get(s, other) == assoc_get(s.drop_first(), other));
            }
        }
    } else if es.len() > 0 {
        assert(s.drop_first() =~= es.drop_first());
        assert(s[0] == (k, v));
        if other != k {
            assert(assoc_get(s, other) == assoc_get(s.drop_first(), other));
            assert(assoc_get(es, other) == assoc_get(es.drop_first(), other));
        }
    } else {
        assert(s.drop_first() =~= Seq::<(Seq<char>, V)>::empty());
        assert(s[0] == (k, v));
        if other != k {
            assert(assoc_get(s, other) == assoc_get(s.drop_first(), other));
        }
    }
}

/// Registering keeps the names distinct when they were distinct.
pub proof fn law_registry_keys_stay_distinct<V>(es: Seq<(Seq<char>, V)>, k: Seq<char>, v: V)
    requires
        keys_distinct(es),
    ensures
        keys_distinct(assoc_set(es, k, v)),
    decreases es.len(),
{
    if es.len() > 0 {
        let s = assoc_set(es, k, v);
        if es[0].0 == k {
            assert(s =~= es.update(0, (k, v)));
        } else {
            let t = es.drop_first();
            assert(keys_distinct(t)) by {
                assert forall|i: int, j: int| 0 <= i < j < t.len() implies t[i].0 != t[j].0 by {
                    assert(t[i] == es[i + 1] && t[j] == es[j + 1]);
                }
            }
            law_registry_keys_stay_distinct(t, k, v);
            lemma_assoc_set_keys(t, k, v);
            assert forall|i: int, j: int| 0 <= i < j < s.len() implies s[i].0 != s[j].0 by {
                if i == 0 {
                    assert(s[j] == assoc_set(t, k, v)[j - 1]);
                    // the key of s[j] is either k (which differs from es[0].0) or a key of t
                }
            }
        }
    }
}

/// Every key of `assoc_set(es, k, v)` is `k` or a key of `es`.
pub proof fn lemma_assoc_set_keys<V>(es: Seq<(Seq<char>, V)>, k: Seq<char>, v: V)
    ensures
        forall|i: int|
            0 <= i < assoc_set(es, k, v).len() ==> #[trigger] assoc_set(es, k, v)[i].0 == k
                || exists|j: int| 0 <= j < es.len() && es[j].0 == assoc_set(es, k, v)[i].0,
    decreases es.len(),
{
    if es.len() > 0 {
        lemma_assoc_set_keys(es.drop_first(), k, v);
        let s = assoc_set(es, k, v);
        if es[0].0 != k {
            assert forall|i: int| 0 <= i < s.len() implies #[trigger] s[i].0 == k || exists|
                j: int,
            | 0 <= j < es.len() && es[j].0 == s[i].0 by {
                if i == 0 {
                    assert(es[0].0 == s[0].0);
                } else {
                    let t = assoc_set(es.drop_first(), k, v);
                    assert(s[i] == t[i - 1]);
                    if t[i - 1].0 != k {
                        let j = choose|j: int|
                            0 <= j < es.drop_first().len() && es.drop_first()[j].0 == t[i - 1].0;
                        assert(es[j + 1].0 == s[i].0);
                    }
                }
            }
        } else {
            assert forall|i: int| 0 <= i < s.len() implies #[trigger] s[i].0 == k || exists|
                j: int,
            | 0 <= j < es.len() && es[j].0 == s[i].0 by {
                if i > 0 {
                    assert(es[i].0 == s[i].0);
                }
            }
        }
    }
}

/// Looking a key up after appending an entry: an earlier entry wins, else the new one
/// answers for its own key.
pub proof fn lemma_assoc_get_push<V>(es: Seq<(Seq<char>, V)>, k: Seq<char>, v: V)
    ensures
        forall|key: Seq<char>|
            #[trigger] assoc_get(es.push((k, v)), key) == (match assoc_get(es, key) {
                Some(x) => Some(x),
                None => if k == key {
                    Some(v)
                } else {
                    None
                },
            }),
    decreases es.len(),
{
    let p = es.push((k, v));
    if es.len() > 0 {
        assert(p.drop_first() =~= es.drop_first().push((k, v)));
        lemma_assoc_get_push(es.drop_first(), k, v);
        assert forall|key: Seq<char>|
            #[trigger] assoc_get(p, key) == (match assoc_get(es, key) {
                Some(x) => Some(x),
                None => if k == key {
                    Some(v)
                } else {
                    None
                },
            }) by {
            assert(p[0] == es[0]);
            if es[0].0 != key {
                assert(assoc_get(p, key) == assoc_get(es.drop_first().push((k, v)), key));
            }
        }
    } else {
        assert(p.drop_first() =~= Seq::<(Seq<char>, V)>::empty());
        assert forall|key: Seq<char>|
            #[trigger] assoc_get(p, key) == (match assoc_get(es, key) {
                Some(x) => Some(x),
                None => if k == key {
                    Some(v)
                } else {
                    None
                },
            }) by {
            assert(p[0] == (k, v));
            assert(assoc_get(p.drop_first(), key) is None);
        }
    }
}

} // verus!
