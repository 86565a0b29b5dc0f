//! A map from text to text.

use crate::text::text_eq;
use vstd::prelude::*;

verus! {

/// One entry of a [`TextMap`].
#[derive(Debug, Clone)]
pub struct TextEntry {
    pub key: String,
    pub value: String,
}

/// A map from text to text; each key stands once.
#[derive(Debug, Clone)]
pub struct TextMap {
    pub entries: Vec<TextEntry>,
}

/// The value under a key.
pub open spec fn value_at(s: Seq<TextEntry>, key: Seq<char>) -> Option<Seq<char>>
    decreases s.len(),
{
    if s.len() == 0 {
        None
    } else if s[0].key@ == key {
        Some(s[0].value@)
    } else {
        value_at(s.drop_first(), key)
    }
}

impl View for TextMap {
    type V = Map<Seq<char>, Seq<char>>;

    open spec fn view(&self) -> Map<Seq<char>, Seq<char>> {
        Map::new(|k: Seq<char>| value_at(self.entries@, k) is Some, |k: Seq<char>| value_at(self.entries@, k)->0)
    }
}

proof fn lemma_push(s: Seq<TextEntry>, e: TextEntry, key: Seq<char>)
    ensures
        value_at(s.push(e), key) == match value_at(s, key) {
            Some(v) => Some(v),
            None => if e.key@ == key {
                Some(e.value@)
            } else {
                None
            },
        },
    decreases s.len(),
{
    if s.len() == 0 {
        assert(s.push(e)[0] == e);
        assert(s.push(e).drop_first() =~= s);
    } else {
        assert(s.push(e)[0] == s[0]);
        assert(s.push(e).drop_first() =~= s.drop_first().push(e));
        lemma_push(s.drop_first(), e, key);
    }
}

proof fn lemma_update(s: Seq<TextEntry>, i: int, e: TextEntry, key: Seq<char>)
    requires
        0 <= i < s.len(),
        s[i].key@ == e.key@,
        forall|j: int| 0 <= j < i ==> (#[trigger] s[j]).key@ != e.key@,
    ensures
        value_at(s.update(i, e), key) == if key == e.key@ {
            Some(e.value@)
        } else {
            value_at(s, key)
        },
    decreases s.len(),
{
    if i == 0 {
        assert(s.update(i, e).drop_first() =~= s.drop_first());
    } else {
        assert(s.update(i, e).drop_first() =~= s.drop_first().update(i - 1, e));
        assert forall|j: int| 0 <= j < i - 1 implies (#[trigger] s.drop_first()[j]).key@ != e.key@ by {
            assert(s.drop_first()[j] == s[j + 1]);
        }
        lemma_update(s.drop_first(), i - 1, e, key);
    }
}

proof fn lemma_absent(s: Seq<TextEntry>, key: Seq<char>)
    requires
        forall|j: int| 0 <= j < s.len() ==> (#[trigger] s[j]).key@ != key,
    ensures
        value_at(s, key) is None,
    decreases s.len(),
{
    if s.len() > 0 {
        assert forall|j: int| 0 <= j < s.drop_first().len() implies (#[trigger] s.drop_first()[j]).key@ != key by {
            assert(s.drop_first()[j] == s[j + 1]);
        }
        lemma_absent(s.drop_first(), key);
    }
}

impl TextMap {
    /// Each key stands once.
    pub open spec fn wf(&self) -> bool {
        forall|i: int, j: int|
            0 <= i < j < self.entries@.len() ==> (#[trigger] self.entries@[i]).key@ != (#[trigger] self.entries@[j]).key@
    }

    /// An empty map.
    pub fn new() -> (r: TextMap)
        ensures
            r.wf(),
            r@ == Map::<Seq<char>, Seq<char>>::empty(),
    {
        let r = TextMap { entries: Vec::new() };
        proof {
            assert(r@ =~= Map::<Seq<char>, Seq<char>>::empty());
        }
        r
    }

    /// The value under a key.
    pub fn get(&self, key: &str) -> (r: Option<&String>)
        ensures
            match r {
                Some(v) => self@.contains_key(key@) && self@[key@] == v@,
                None => !self@.contains_key(key@),
            },
    {
        let mut i: usize = 0;
        proof {
            assert(self.entries@.skip(0) =~= self.entries@);
        }
        while i < self.entries.len()
            invariant
                i <= self.entries.len(),
                value_at(self.entries@, key@) == value_at(self.entries@.skip(i as int), key@),
            decreases self.entries.len() - i,
        {
            proof {
                assert(self.entries@.skip(i as int).drop_first() =~= self.entries@.skip(i as int + 1));
            }
            if text_eq(self.entries[i].key.as_str(), key) {
                return Some(&self.entries[i].value);
            }
            i += 1;
        }
        None
    }

    /// Sets the value under a key.
    pub fn insert(&mut self, key: String, value: String)
        requires
            old(self).wf(),
        ensures
            final(self).wf(),
            final(self)@ == old(self)@.insert(key@, value@),
    {
        let ghost before = self.entries@;
        let ghost k = key@;
        let ghost v = value@;
        let mut i: usize = 0;
        while i < self.entries.len() && !text_eq(self.entries[i].key.as_str(), key.as_str())
            invariant
                i <= self.entries.len(),
                self.entries@ == before,
                k == key@,
                forall|j: int| 0 <= j < i ==> (#[trigger] before[j]).key@ != k,
            decreases self.entries.len() - i,
        {
            i += 1;
        }
        let entry = TextEntry { key, value };
        let ghost e = entry;
        if i < self.entries.len() {
            self.entries.set(i, entry);
            proof {
                assert forall|x: Seq<char>| #[trigger] value_at(self.entries@, x) == (if x == k {
                    Some(v)
                } else {
                    value_at(before, x)
                }) by {
                    lemma_update(before, i as int, e, x);
                }
                assert forall|a: int, b: int| 0 <= a < b < self.entries@.len() implies (#[trigger] self.entries@[a]).key@
                    != (#[trigger] self.entries@[b]).key@ by {
                    assert(before[a].key@ == self.entries@[a].key@);
                    assert(before[b].key@ == self.entries@[b].key@);
                }
            }
        } else {
            self.entries.push(entry);
            proof {
                lemma_absent(before, k);
                assert forall|x: Seq<char>| #[trigger] value_at(self.entries@, x) == (if x == k {
                    Some(v)
                } else {
                    value_at(before, x)
                }) by {
                    lemma_push(before, e, x);
                }
            }
        }
        proof {
            assert(self@ =~= old(self)@.insert(k, v));
        }
    }
}

} // verus!
