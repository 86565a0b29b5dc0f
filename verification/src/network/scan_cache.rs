//! The last scan of each interface.

use crate::network::readings::{candidate_views, scan_views, CandidateView, ScanRow, ScanRowView, WifiStaCandidate};
use crate::text::text_eq;
use vstd::prelude::*;

verus! {

/// A scan and the time at which it was made, in milliseconds of a clock that only moves
/// forward.
#[derive(Debug, Clone)]
pub struct CachedScan {
    pub available: Vec<ScanRow>,
    pub candidates: Vec<WifiStaCandidate>,
    pub captured_at: u64,
}

/// [`CachedScan`] over mathematical values.
#[verifier::ext_equal]
pub struct CachedView {
    pub available: Seq<ScanRowView>,
    pub candidates: Seq<CandidateView>,
    pub captured_at: u64,
}

impl View for CachedScan {
    type V = CachedView;

    open spec fn view(&self) -> CachedView {
        CachedView {
            available: scan_views(self.available@),
            candidates: candidate_views(self.candidates@),
            captured_at: self.captured_at,
        }
    }
}

/// Copies a list of networks.
pub fn copy_rows(v: &Vec<ScanRow>) -> (r: Vec<ScanRow>)
    ensures
        scan_views(r@) == scan_views(v@),
{
    let mut out: Vec<ScanRow> = Vec::new();
    let mut i: usize = 0;
    while i < v.len()
        invariant
            i <= v.len(),
            out@.len() == i,
            forall|j: int| 0 <= j < i ==> (#[trigger] out@[j])@ == v@[j]@,
        decreases v.len() - i,
    {
        let row = &v[i];
        out.push(
            ScanRow { ssid: row.ssid.clone(), signal: row.signal, security: row.security.clone(), active: row.active },
        );
        i += 1;
    }
    proof {
        assert(scan_views(out@) =~= scan_views(v@));
    }
    out
}

/// Copies a list of access points.
pub fn copy_candidates(v: &Vec<WifiStaCandidate>) -> (r: Vec<WifiStaCandidate>)
    ensures
        candidate_views(r@) == candidate_views(v@),
{
    let mut out: Vec<WifiStaCandidate> = Vec::new();
    let mut i: usize = 0;
    while i < v.len()
        invariant
            i <= v.len(),
            out@.len() == i,
            forall|j: int| 0 <= j < i ==> (#[trigger] out@[j])@ == v@[j]@,
        decreases v.len() - i,
    {
        out.push(v[i].duplicate());
        i += 1;
    }
    proof {
        assert(candidate_views(out@) =~= candidate_views(v@));
    }
    out
}

/// One interface's scan.
#[derive(Debug, Clone)]
pub struct CacheEntry {
    pub key: String,
    pub scan: CachedScan,
}

/// The scans of the interfaces, by name; each name stands once.
#[derive(Debug, Clone)]
pub struct ScanCache {
    pub entries: Vec<CacheEntry>,
}

/// The index of the entry under a name.
pub open spec fn entry_index(s: Seq<CacheEntry>, key: Seq<char>) -> Option<int>
    decreases s.len(),
{
    if s.len() == 0 {
        None
    } else if s.last().key@ == key {
        Some(s.len() - 1)
    } else {
        entry_index(s.drop_last(), key)
    }
}

proof fn lemma_entry_index(s: Seq<CacheEntry>, key: Seq<char>)
    ensures
        match entry_index(s, key) {
            Some(i) => 0 <= i < s.len() && s[i].key@ == key,
            None => forall|i: int| 0 <= i < s.len() ==> (#[trigger] s[i]).key@ != key,
        },
    decreases s.len(),
{
    if s.len() > 0 && s.last().key@ != key {
        lemma_entry_index(s.drop_last(), key);
        assert forall|i: int| 0 <= i < s.len() && entry_index(s, key) is None implies (#[trigger] s[i]).key@
            != key by {
            if i < s.len() - 1 {
                assert(s.drop_last()[i] == s[i]);
            }
        }
    }
}

impl View for ScanCache {
    type V = Map<Seq<char>, CachedView>;

    open spec fn view(&self) -> Map<Seq<char>, CachedView> {
        Map::new(
            |k: Seq<char>| entry_index(self.entries@, k) is Some,
            |k: Seq<char>| self.entries@[entry_index(self.entries@, k)->0].scan@,
        )
    }
}

impl ScanCache {
    /// Each name stands once.
    pub open spec fn wf(&self) -> bool {
        forall|i: int, j: int|
            0 <= i < j < self.entries@.len() ==> (#[trigger] self.entries@[i]).key@ != (#[trigger] self.entries@[j]).key@
    }

    /// A cache without scans.
    pub fn new() -> (r: ScanCache)
        ensures
            r.wf(),
            r@ == Map::<Seq<char>, CachedView>::empty(),
    {
        let r = ScanCache { entries: Vec::new() };
        proof {
            assert(r@ =~= Map::<Seq<char>, CachedView>::empty());
        }
        r
    }

    fn position(&self, key: &str) -> (r: Option<usize>)
        requires
            self.wf(),
        ensures
            match r {
                Some(i) => i < self.entries@.len() && self.entries@[i as int].key@ == key@ && entry_index(
                    self.entries@,
                    key@,
                ) == Some(i as int),
                None => entry_index(self.entries@, key@) is None,
            },
    {
        proof {
            lemma_entry_index(self.entries@, key@);
        }
        let mut i: usize = 0;
        while i < self.entries.len()
            invariant
                i <= self.entries.len(),
                self.wf(),
                forall|j: int| 0 <= j < i ==> (#[trigger] self.entries@[j]).key@ != key@,
                match entry_index(self.entries@, key@) {
                    Some(k) => 0 <= k < self.entries@.len() && self.entries@[k].key@ == key@,
                    None => forall|k: int| 0 <= k < self.entries@.len() ==> (#[trigger] self.entries@[k]).key@ != key@,
                },
            decreases self.entries.len() - i,
        {
            if text_eq(self.entries[i].key.as_str(), key) {
                proof {
                    let k = entry_index(self.entries@, key@)->0;
                    assert(self.entries@[i as int].key@ == key@);
                    assert(k == i as int) by {
                        if k < i {
                            assert(self.entries@[k].key@ != self.entries@[i as int].key@);
                        } else if k > i {
                            assert(self.entries@[i as int].key@ != self.entries@[k].key@);
                        }
                    }
                }
                return Some(i);
            }
            i += 1;
        }
        None
    }

    /// The scan under a name.
    pub fn get(&self, key: &str) -> (r: Option<&CachedScan>)
        requires
            self.wf(),
        ensures
            match r {
                Some(s) => self@.contains_key(key@) && self@[key@] == s@,
                None => !self@.contains_key(key@),
            },
    {
        match self.position(key) {
            Some(i) => Some(&self.entries[i].scan),
            None => None,
        }
    }

    /// Keeps a scan under a name, in place of the one before.
    pub fn insert(&mut self, key: String, scan: CachedScan)
        requires
            old(self).wf(),
        ensures
            final(self).wf(),
            final(self)@ == old(self)@.insert(key@, scan@),
    {
        let ghost before = self.entries@;
        let ghost k = key@;
        let ghost v = scan@;
        match self.position(key.as_str()) {
            Some(i) => {
                self.entries.set(i, CacheEntry { key, scan });
                proof {
                    let after = self.entries@;
                    assert forall|x: Seq<char>| #[trigger] entry_index(after, x) == entry_index(before, x) by {
                        lemma_same_keys(before, after, x);
                    }
                    assert forall|x: Seq<char>| entry_index(before, x) is Some && x != k implies #[trigger] entry_index(
                        before,
                        x,
                    ) != Some(i as int) by {
                        lemma_entry_index(before, x);
                    }
                    assert forall|x: Seq<char>| entry_index(before, x) is Some implies 0 <= (#[trigger] entry_index(before, x))->0
                        < before.len() by {
                        lemma_entry_index(before, x);
                    }
                    assert(self@ =~= old(self)@.insert(k, v));
                }
            },
            None => {
                self.entries.push(CacheEntry { key, scan });
                proof {
                    let after = self.entries@;
                    lemma_entry_index(before, k);
                    assert(after.drop_last() =~= before);
                    assert forall|x: Seq<char>| entry_index(before, x) is Some implies 0 <= (#[trigger] entry_index(before, x))->0
                        < before.len() by {
                        lemma_entry_index(before, x);
                    }
                    assert(self@ =~= old(self)@.insert(k, v));
                }
            },
        }
    }

    /// Forgets every scan.
    pub fn clear(&mut self)
        ensures
            final(self).wf(),
            final(self)@ == Map::<Seq<char>, CachedView>::empty(),
    {
        self.entries.clear();
        proof {
            assert(self@ =~= Map::<Seq<char>, CachedView>::empty());
        }
    }
}

proof fn lemma_same_keys(a: Seq<CacheEntry>, b: Seq<CacheEntry>, key: Seq<char>)
    requires
        a.len() == b.len(),
        forall|i: int| 0 <= i < a.len() ==> (#[trigger] a[i]).key@ == b[i].key@,
    ensures
        entry_index(a, key) == entry_index(b, key),
    decreases a.len(),
{
    if a.len() > 0 {
        assert(a.last().key@ == b.last().key@) by {
            assert(a[a.len() - 1].key@ == b[b.len() - 1].key@);
        }
        assert forall|i: int| 0 <= i < a.drop_last().len() implies (#[trigger] a.drop_last()[i]).key@
            == b.drop_last()[i].key@ by {
            assert(a[i].key@ == b[i].key@);
        }
        lemma_same_keys(a.drop_last(), b.drop_last(), key);
    }
}

/// Each field is seen under its own name, as it is.
pub proof fn fields_are_seen_under_their_names(cached_scan: CachedScan)
    ensures
        cached_scan@.available == scan_views(cached_scan.available@),
        cached_scan@.candidates == candidate_views(cached_scan.candidates@),
        cached_scan@.captured_at == cached_scan.captured_at,
{
}

} // verus!
