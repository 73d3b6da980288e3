//! Content-addressed memoisation of stage results, with hit/miss accounting.
use crate::error::PipelineError;
use crate::queue::cap_u64;
use crate::vocabulary::{
    stage1_key, stage2_key, Payload, Stage1Result, Stage1ResultView, Stage2Result, Stage2ResultView,
    VocabularyItem,
};
use vstd::arithmetic::div_mod::{lemma_div_by_multiple, lemma_div_is_ordered};
use vstd::prelude::*;

verus! {

/// Which stage a cache entry belongs to.
#[derive(Debug, Clone, Copy, PartialEq, Eq, Structural)]
pub enum CacheType {
    Stage1,
    Stage2,
}

/// A stored result with the accounting fields of the computation that
/// produced it.
pub struct CacheEntry<V> {
    pub cache_key: String,
    pub payload: V,
    pub request_hash: String,
    pub token_count: u64,
    pub model_used: String,
    pub access_count: u64,
}

/// `a + b`, saturating at the largest `u64`.
pub open spec fn sat_add(a: u64, b: u64) -> u64 {
    if a + b > u64::MAX {
        u64::MAX
    } else {
        (a + b) as u64
    }
}

fn saturating_add(a: u64, b: u64) -> (r: u64)
    ensures
        r == sat_add(a, b),
{
    if a > u64::MAX - b {
        u64::MAX
    } else {
        a + b
    }
}

/// The results of one stage, keyed by cache key, with cumulative counters.
pub struct CacheTable<V> {
    pub entries: Vec<CacheEntry<V>>,
    pub hits: u64,
    pub misses: u64,
    pub tokens_saved: u64,
}

impl<V: Payload> CacheTable<V> {
    /// Cache keys are unique.
    pub open spec fn wf(&self) -> bool {
        forall|i: int, j: int|
            0 <= i < j < self.entries@.len() ==> (#[trigger] self.entries@[i]).cache_key@
                != (#[trigger] self.entries@[j]).cache_key@
    }

    pub open spec fn has_key(&self, key: Seq<char>) -> bool {
        exists|i: int| 0 <= i < self.entries@.len() && (#[trigger] self.entries@[i]).cache_key@ == key
    }

    pub open spec fn key_index(&self, key: Seq<char>) -> int {
        choose|i: int| 0 <= i < self.entries@.len() && (#[trigger] self.entries@[i]).cache_key@ == key
    }

    /// What the table holds: each key's stored result.
    pub open spec fn contents(&self) -> Map<Seq<char>, V::V> {
        Map::new(|k: Seq<char>| self.has_key(k), |k: Seq<char>| self.entries@[self.key_index(k)].payload@)
    }

    proof fn lemma_index(&self, i: int)
        requires
            self.wf(),
            0 <= i < self.entries@.len(),
        ensures
            self.has_key(self.entries@[i].cache_key@),
            self.key_index(self.entries@[i].cache_key@) == i,
            self.contents()[self.entries@[i].cache_key@] == self.entries@[i].payload@,
    {
        let k = self.entries@[i].cache_key@;
        assert(self.has_key(k));
        let j = self.key_index(k);
        if j < i {
            assert(self.entries@[j].cache_key@ != self.entries@[i].cache_key@);
        } else if i < j {
            assert(self.entries@[i].cache_key@ != self.entries@[j].cache_key@);
        }
    }

    /// An empty table.
    pub fn new() -> (r: Self)
        ensures
            r.wf(),
            r.contents() == Map::<Seq<char>, V::V>::empty(),
            r.entries@.len() == 0,
            r.hits == 0,
            r.misses == 0,
            r.tokens_saved == 0,
    {
        let r = CacheTable { entries: Vec::new(), hits: 0, misses: 0, tokens_saved: 0 };
        assert(r.contents() =~= Map::<Seq<char>, V::V>::empty());
        r
    }

    fn find(&self, key: &String) -> (r: Option<usize>)
        requires
            self.wf(),
        ensures
            match r {
                Some(i) => i < self.entries@.len() && self.entries@[i as int].cache_key@ == key@
                    && self.has_key(key@) && self.contents()[key@] == self.entries@[i as int].payload@,
                None => !self.has_key(key@),
            },
    {
        let mut i: usize = 0;
        while i < self.entries.len()
            invariant
                self.wf(),
                i <= self.entries@.len(),
                forall|j: int| 0 <= j < i ==> (#[trigger] self.entries@[j]).cache_key@ != key@,
            decreases self.entries.len() - i,
        {
            if self.entries[i].cache_key == *key {
                proof {
                    self.lemma_index(i as int);
                }
                return Some(i);
            }
            i += 1;
        }
        None
    }

    /// The stored result under `key`, without touching the counters.
    pub fn peek(&self, key: &str) -> (r: Option<V>)
        requires
            self.wf(),
        ensures
            match r {
                Some(v) => self.contents().contains_key(key@) && v@ == self.contents()[key@],
                None => !self.contents().contains_key(key@),
            },
    {
        let k = String::from_str(key);
        match self.find(&k) {
            Some(i) => Some(self.entries[i].payload.duplicate()),
            None => None,
        }
    }

    /// The stored result under `key`. A hit counts a hit, adds the entry's
    /// token count to the tokens saved and counts an access; a miss counts a
    /// miss. Counters saturate.
    pub fn lookup(&mut self, key: &str) -> (r: Option<V>)
        requires
            old(self).wf(),
        ensures
            final(self).wf(),
            final(self).contents() == old(self).contents(),
            final(self).entries@.len() == old(self).entries@.len(),
            match r {
                Some(v) => {
                    &&& old(self).contents().contains_key(key@)
                    &&& v@ == old(self).contents()[key@]
                    &&& final(self).hits == sat_add(old(self).hits, 1)
                    &&& final(self).misses == old(self).misses
                    &&& final(self).tokens_saved == sat_add(
                        old(self).tokens_saved,
                        old(self).entries@[old(self).key_index(key@)].token_count,
                    )
                },
                None => {
                    &&& !old(self).contents().contains_key(key@)
                    &&& final(self).hits == old(self).hits
                    &&& final(self).misses == sat_add(old(self).misses, 1)
                    &&& final(self).tokens_saved == old(self).tokens_saved
                },
            },
    {
        let k = String::from_str(key);
        match self.find(&k) {
            Some(i) => {
                let ghost before = *self;
                let v = self.entries[i].payload.duplicate();
                self.hits = saturating_add(self.hits, 1);
                self.tokens_saved = saturating_add(self.tokens_saved, self.entries[i].token_count);
                let c = saturating_add(self.entries[i].access_count, 1);
                self.entries[i].access_count = c;
                proof {
                    assert forall|a: int, b: int| 0 <= a < b < self.entries@.len() implies (
                    #[trigger] self.entries@[a]).cache_key@ != (#[trigger] self.entries@[b]).cache_key@ by {
                        assert(before.entries@[a].cache_key@ != before.entries@[b].cache_key@);
                    }
                    assert forall|kk: Seq<char>| #[trigger] self.has_key(kk) == before.has_key(kk) by {
                        if before.has_key(kk) {
                            let j = before.key_index(kk);
                            assert(self.entries@[j].cache_key@ == kk);
                        }
                        if self.has_key(kk) {
                            let j = self.key_index(kk);
                            assert(before.entries@[j].cache_key@ == kk);
                        }
                    }
                    assert forall|kk: Seq<char>| self.has_key(kk) implies self.contents()[kk]
                        == before.contents()[kk] by {
                        let j = self.key_index(kk);
                        assert(before.entries@[j].cache_key@ == kk);
                        before.lemma_index(j);
                    }
                    assert(self.contents() =~= before.contents());
                }
                Some(v)
            },
            None => {
                self.misses = saturating_add(self.misses, 1);
                None
            },
        }
    }

    /// Stores `payload` under `key`, replacing what was there.
    pub fn save(
        &mut self,
        key: String,
        payload: V,
        request_hash: String,
        token_count: u64,
        model_used: String,
    )
        requires
            old(self).wf(),
        ensures
            final(self).wf(),
            final(self).contents() == old(self).contents().insert(key@, payload@),
            final(self).hits == old(self).hits,
            final(self).misses == old(self).misses,
            final(self).tokens_saved == old(self).tokens_saved,
    {
        let ghost before = *self;
        let ghost pv = payload@;
        let entry = CacheEntry { cache_key: key, payload, request_hash, token_count, model_used, access_count: 1 };
        match self.find(&entry.cache_key) {
            Some(i) => {
                self.entries.set(i, entry);
                proof {
                    assert forall|a: int, b: int| 0 <= a < b < self.entries@.len() implies (
                    #[trigger] self.entries@[a]).cache_key@ != (#[trigger] self.entries@[b]).cache_key@ by {
                        assert(before.entries@[a].cache_key@ != before.entries@[b].cache_key@);
                    }
                    assert forall|kk: Seq<char>| #[trigger] self.has_key(kk) == before.has_key(kk) by {
                        if before.has_key(kk) {
                            let j = before.key_index(kk);
                            assert(self.entries@[j].cache_key@ == kk);
                        }
                        if self.has_key(kk) {
                            let j = self.key_index(kk);
                            assert(before.entries@[j].cache_key@ == kk);
                        }
                    }
                    assert forall|kk: Seq<char>| self.has_key(kk) implies self.contents()[kk]
                        == before.contents().insert(key@, pv)[kk] by {
                        let j = self.key_index(kk);
                        self.lemma_index(j);
                        if kk != key@ {
                            assert(before.entries@[j].cache_key@ == kk);
                            before.lemma_index(j);
                        }
                    }
                    assert(self.contents() =~= before.contents().insert(key@, pv));
                }
            },
            None => {
                self.entries.push(entry);
                proof {
                    let n = before.entries@.len() as int;
                    assert forall|a: int, b: int| 0 <= a < b < self.entries@.len() implies (
                    #[trigger] self.entries@[a]).cache_key@ != (#[trigger] self.entries@[b]).cache_key@ by {
                        if b < n {
                            assert(before.entries@[a].cache_key@ != before.entries@[b].cache_key@);
                        } else {
                            assert(self.entries@[a] == before.entries@[a]);
                        }
                    }
                    assert forall|kk: Seq<char>| #[trigger] self.has_key(kk) == (before.has_key(kk) || kk == key@) by {
                        if before.has_key(kk) {
                            let j = before.key_index(kk);
                            assert(self.entries@[j].cache_key@ == kk);
                        }
                        if kk == key@ {
                            assert(self.entries@[n].cache_key@ == kk);
                        }
                        if self.has_key(kk) && kk != key@ {
                            let j = self.key_index(kk);
                            assert(j < n);
                            assert(before.entries@[j].cache_key@ == kk);
                        }
                    }
                    assert forall|kk: Seq<char>| self.has_key(kk) implies self.contents()[kk]
                        == before.contents().insert(key@, pv)[kk] by {
                        let j = self.key_index(kk);
                        self.lemma_index(j);
                        if kk != key@ {
                            assert(j < n);
                            assert(before.entries@[j].cache_key@ == kk);
                            before.lemma_index(j);
                        }
                    }
                    assert(self.contents() =~= before.contents().insert(key@, pv));
                }
            },
        }
    }

    /// Removes every entry and returns how many there were.
    pub fn clear(&mut self) -> (r: usize)
        ensures
            final(self).wf(),
            r == old(self).entries@.len(),
            final(self).contents() == Map::<Seq<char>, V::V>::empty(),
            final(self).entries@.len() == 0,
            final(self).hits == old(self).hits,
            final(self).misses == old(self).misses,
            final(self).tokens_saved == old(self).tokens_saved,
    {
        let n = self.entries.len();
        self.entries = Vec::new();
        assert(self.contents() =~= Map::<Seq<char>, V::V>::empty());
        n
    }

    /// The stored result under `key` on a hit, never calling `compute_fn`;
    /// on a miss, the result of calling `compute_fn` once, stored under `key`
    /// when it succeeds and not stored when it fails. The flag tells whether
    /// it was a hit.
    pub fn get_or_compute<F>(&mut self, key: &str, compute_fn: F) -> (r: Result<(V, bool), PipelineError>)
        where
            F: FnOnce() -> Result<(V, String, u64, String), PipelineError>,
        requires
            old(self).wf(),
            compute_fn.requires(()),
        ensures
            final(self).wf(),
            computed(*old(self), *final(self), key@, r, |out| compute_fn.ensures((), out)),
    {
        match self.lookup(key) {
            Some(v) => Ok((v, true)),
            None => {
                let out = compute_fn();
                let ghost gout = out;
                match out {
                    Ok((v, request_hash, token_count, model_used)) => {
                        let copy = v.duplicate();
                        self.save(String::from_str(key), v, request_hash, token_count, model_used);
                        proof {
                            let o = gout.unwrap();
                            let produced = |out| compute_fn.ensures((), out);
                            assert(produced(Ok(o)));
                        }
                        Ok((copy, false))
                    },
                    Err(e) => Err(e),
                }
            },
        }
    }
}

/// What `get_or_compute` did, from the table `before` to the table `after`,
/// with result `r`, given what the producer may return (`produced`): a hit
/// serves the stored result and changes no entry; a miss returns what the
/// producer returned, stores it if it succeeded, and stores nothing if it
/// failed.
pub open spec fn computed<V: Payload>(
    before: CacheTable<V>,
    after: CacheTable<V>,
    key: Seq<char>,
    r: Result<(V, bool), PipelineError>,
    produced: spec_fn(Result<(V, String, u64, String), PipelineError>) -> bool,
) -> bool {
    if before.contents().contains_key(key) {
        &&& r matches Ok((v, true))
        &&& v@ == before.contents()[key]
        &&& after.contents() == before.contents()
        &&& after.hits == sat_add(before.hits, 1)
        &&& after.misses == before.misses
        &&& after.tokens_saved == sat_add(
            before.tokens_saved,
            before.entries@[before.key_index(key)].token_count,
        )
    } else {
        &&& after.misses == sat_add(before.misses, 1)
        &&& after.hits == before.hits
        &&& after.tokens_saved == before.tokens_saved
        &&& match r {
            Ok((v, hit)) => {
                &&& !hit
                &&& exists|o: (V, String, u64, String)|
                    #[trigger] produced(Ok(o)) && o.0@ == v@ && after.contents()
                        == before.contents().insert(key, o.0@)
            },
            Err(e) => produced(Err(e)) && after.contents() == before.contents(),
        }
    }
}

/// Once a computation under a fresh key has succeeded, a later
/// `get_or_compute` under that key is a hit that returns the stored result,
/// whatever its producer.
pub proof fn lemma_cache_round_trip<V: Payload>(
    t0: CacheTable<V>,
    t1: CacheTable<V>,
    t2: CacheTable<V>,
    key: Seq<char>,
    r1: Result<(V, bool), PipelineError>,
    r2: Result<(V, bool), PipelineError>,
    produced1: spec_fn(Result<(V, String, u64, String), PipelineError>) -> bool,
    produced2: spec_fn(Result<(V, String, u64, String), PipelineError>) -> bool,
)
    requires
        !t0.contents().contains_key(key),
        computed(t0, t1, key, r1, produced1),
        r1 is Ok,
        computed(t1, t2, key, r2, produced2),
    ensures
        r1 is Ok && !r1.unwrap().1,
        r2 is Ok && r2.unwrap().1,
        r2.unwrap().0@ == r1.unwrap().0@,
        t1.contents().contains_key(key),
        t2.contents() == t1.contents(),
{
    let v1 = r1.unwrap().0;
    let o = choose|o: (V, String, u64, String)|
        #[trigger] produced1(Ok(o)) && o.0@ == v1@ && t1.contents() == t0.contents().insert(key, o.0@);
    assert(t1.contents()[key] == v1@);
}

/// A failed computation stores nothing, so a later `get_or_compute` under
/// the same key misses again and calls its own producer.
pub proof fn lemma_failure_not_cached<V: Payload>(
    t0: CacheTable<V>,
    t1: CacheTable<V>,
    t2: CacheTable<V>,
    key: Seq<char>,
    r1: Result<(V, bool), PipelineError>,
    r2: Result<(V, bool), PipelineError>,
    produced1: spec_fn(Result<(V, String, u64, String), PipelineError>) -> bool,
    produced2: spec_fn(Result<(V, String, u64, String), PipelineError>) -> bool,
)
    requires
        !t0.contents().contains_key(key),
        computed(t0, t1, key, r1, produced1),
        r1 is Err,
        computed(t1, t2, key, r2, produced2),
    ensures
        !t1.contents().contains_key(key),
        t1.contents() == t0.contents(),
        match r2 {
            Ok((v, hit)) => !hit && exists|o: (V, String, u64, String)|
                #[trigger] produced2(Ok(o)) && o.0@ == v@,
            Err(e) => produced2(Err(e)),
        },
{
}

/// Cumulative statistics of both stages. The hit rate is in basis points
/// (hundredths of a percent, rounded down) and the cost saved in millionths
/// of a dollar, at $0.15 per thousand tokens.
#[derive(Debug, Clone, Copy)]
pub struct CacheStats {
    pub total_entries: u64,
    pub stage1_entries: u64,
    pub stage2_entries: u64,
    pub total_hits: u64,
    pub total_misses: u64,
    pub hit_rate_bp: u64,
    pub total_tokens_saved: u64,
    pub estimated_cost_saved_micros: u128,
}

/// The cost of a token, in millionths of a dollar.
pub const MICROS_PER_TOKEN: u128 = 150;

/// Hits per ten thousand lookups, rounded down; zero before any lookup.
pub open spec fn hit_rate_bp_of(hits: int, misses: int) -> int {
    if hits + misses > 0 {
        hits * 10000 / (hits + misses)
    } else {
        0
    }
}

impl CacheStats {
    /// Sets the hit rate from the hit and miss counts.
    pub fn calculate_hit_rate(&mut self)
        ensures
            final(self).hit_rate_bp == hit_rate_bp_of(
                old(self).total_hits as int,
                old(self).total_misses as int,
            ),
            *final(self) == (CacheStats { hit_rate_bp: final(self).hit_rate_bp, ..*old(self) }),
    {
        let h = self.total_hits as u128;
        let total = h + self.total_misses as u128;
        if total > 0 {
            proof {
                assert(h * 10000 <= total * 10000) by (nonlinear_arith)
                    requires
                        h <= total,
                ;
                lemma_div_is_ordered(h * 10000, total * 10000, total as int);
                lemma_div_by_multiple(10000, total as int);
                assert(total * 10000 == 10000int * (total as int));
            }
            self.hit_rate_bp = ((h * 10000) / total) as u64;
        } else {
            self.hit_rate_bp = 0;
        }
    }

    /// Sets the cost saved from the tokens saved.
    pub fn estimate_cost_saved(&mut self)
        ensures
            final(self).estimated_cost_saved_micros == old(self).total_tokens_saved as int
                * MICROS_PER_TOKEN,
            *final(self) == (CacheStats {
                estimated_cost_saved_micros: final(self).estimated_cost_saved_micros,
                ..*old(self)
            }),
    {
        self.estimated_cost_saved_micros = self.total_tokens_saved as u128 * MICROS_PER_TOKEN;
    }
}

/// What a batch would find in the cache.
#[derive(Debug, Clone, Copy)]
pub struct CacheWarmupStats {
    pub total_items: usize,
    pub stage1_cached: usize,
    pub stage2_cached: usize,
    pub stage1_missing: usize,
    pub stage2_missing: usize,
}

impl CacheWarmupStats {
    /// The share of the possible hits over both stages, in basis points,
    /// rounded down and capped at the largest `u64`; zero for no items.
    pub fn cache_hit_rate(&self) -> (r: u64)
        ensures
            self.total_items == 0 ==> r == 0,
            self.total_items > 0 ==> r == cap_u64(
                (self.stage1_cached + self.stage2_cached) as int * 10000 / (2 * self.total_items as int),
            ),
    {
        if self.total_items == 0 {
            return 0;
        }
        let h = self.stage1_cached as u128 + self.stage2_cached as u128;
        let t = 2 * self.total_items as u128;
        assert((h as int) * 10000 <= 0x1_ffff_ffff_ffff_fffeint * 10000) by (nonlinear_arith)
            requires
                h as int <= 0x1_ffff_ffff_ffff_fffeint,
                h >= 0,
        ;
        let q = (h * 10000) / t;
        if q > u64::MAX as u128 {
            u64::MAX
        } else {
            q as u64
        }
    }
}

/// Whether an item's stage-one result is cached.
pub open spec fn stage1_cached(m1: Map<Seq<char>, Stage1ResultView>, item: VocabularyItem) -> bool {
    m1.contains_key(stage1_key(item))
}

/// Whether an item's stage-two result is cached, under the key derived from
/// its cached stage-one result.
pub open spec fn stage2_cached(
    m1: Map<Seq<char>, Stage1ResultView>,
    m2: Map<Seq<char>, Stage2ResultView>,
    item: VocabularyItem,
) -> bool {
    stage1_cached(m1, item) && m2.contains_key(stage2_key(item, m1[stage1_key(item)].cache_key))
}

/// How many of `items` have their stage-one result cached.
pub open spec fn count_stage1_cached(m1: Map<Seq<char>, Stage1ResultView>, items: Seq<VocabularyItem>) -> nat
    decreases items.len(),
{
    if items.len() == 0 {
        0
    } else {
        count_stage1_cached(m1, items.drop_last()) + if stage1_cached(m1, items.last()) {
            1nat
        } else {
            0nat
        }
    }
}

/// How many of `items` have their stage-two result cached.
pub open spec fn count_stage2_cached(
    m1: Map<Seq<char>, Stage1ResultView>,
    m2: Map<Seq<char>, Stage2ResultView>,
    items: Seq<VocabularyItem>,
) -> nat
    decreases items.len(),
{
    if items.len() == 0 {
        0
    } else {
        count_stage2_cached(m1, m2, items.drop_last()) + if stage2_cached(m1, m2, items.last()) {
            1nat
        } else {
            0nat
        }
    }
}

proof fn lemma_stage_counts_bounded(
    m1: Map<Seq<char>, Stage1ResultView>,
    m2: Map<Seq<char>, Stage2ResultView>,
    items: Seq<VocabularyItem>,
)
    ensures
        count_stage2_cached(m1, m2, items) <= count_stage1_cached(m1, items),
        count_stage1_cached(m1, items) <= items.len(),
    decreases items.len(),
{
    if items.len() > 0 {
        lemma_stage_counts_bounded(m1, m2, items.drop_last());
    }
}

/// The cache of both stages.
pub struct CacheManager {
    pub stage1: CacheTable<Stage1Result>,
    pub stage2: CacheTable<Stage2Result>,
}

impl CacheManager {
    pub open spec fn wf(&self) -> bool {
        self.stage1.wf() && self.stage2.wf()
    }

    /// An empty cache.
    pub fn new() -> (r: Self)
        ensures
            r.wf(),
            r.stage1.contents() == Map::<Seq<char>, Stage1ResultView>::empty(),
            r.stage2.contents() == Map::<Seq<char>, Stage2ResultView>::empty(),
            r.stage1.hits == 0 && r.stage1.misses == 0 && r.stage2.hits == 0 && r.stage2.misses == 0,
            r.stage1.tokens_saved == 0 && r.stage2.tokens_saved == 0,
    {
        CacheManager { stage1: CacheTable::new(), stage2: CacheTable::new() }
    }

    /// The stage-one result of an item: from the cache under its stage-one
    /// key, or computed by `compute_fn` and stored. The flag tells a hit.
    pub fn get_or_compute_stage1<F>(&mut self, vocabulary_item: &VocabularyItem, compute_fn: F) -> (r:
        Result<(Stage1Result, bool), PipelineError>)
        where
            F: FnOnce() -> Result<(Stage1Result, String, u64, String), PipelineError>,
        requires
            old(self).wf(),
            compute_fn.requires(()),
        ensures
            final(self).wf(),
            computed(
                old(self).stage1,
                final(self).stage1,
                stage1_key(*vocabulary_item),
                r,
                |out| compute_fn.ensures((), out),
            ),
            final(self).stage2 == old(self).stage2,
    {
        let key = Stage1Result::generate_cache_key(vocabulary_item);
        self.stage1.get_or_compute(key.as_str(), compute_fn)
    }

    /// The stage-two result of an item: from the cache under the key derived
    /// from the item and the stage-one result's key, or computed by
    /// `compute_fn` and stored. The flag tells a hit.
    pub fn get_or_compute_stage2<F>(
        &mut self,
        vocabulary_item: &VocabularyItem,
        stage1_result: &Stage1Result,
        compute_fn: F,
    ) -> (r: Result<(Stage2Result, bool), PipelineError>)
        where
            F: FnOnce() -> Result<(Stage2Result, String, u64, String), PipelineError>,
        requires
            old(self).wf(),
            compute_fn.requires(()),
        ensures
            final(self).wf(),
            computed(
                old(self).stage2,
                final(self).stage2,
                stage2_key(*vocabulary_item, stage1_result.cache_key@),
                r,
                |out| compute_fn.ensures((), out),
            ),
            final(self).stage1 == old(self).stage1,
    {
        let key = Stage2Result::generate_cache_key(vocabulary_item, stage1_result.cache_key.as_str());
        self.stage2.get_or_compute(key.as_str(), compute_fn)
    }

    /// The statistics of the cache: entry counts of each stage and the
    /// counters of both, with the hit rate and cost saved worked out; sums
    /// saturate.
    pub open spec fn get_stats_spec(&self) -> CacheStats {
        let hits = sat_add(self.stage1.hits, self.stage2.hits);
        let misses = sat_add(self.stage1.misses, self.stage2.misses);
        let tokens = sat_add(self.stage1.tokens_saved, self.stage2.tokens_saved);
        CacheStats {
            total_entries: sat_add(
                self.stage1.entries@.len() as u64,
                self.stage2.entries@.len() as u64,
            ),
            stage1_entries: self.stage1.entries@.len() as u64,
            stage2_entries: self.stage2.entries@.len() as u64,
            total_hits: hits,
            total_misses: misses,
            hit_rate_bp: hit_rate_bp_of(hits as int, misses as int) as u64,
            total_tokens_saved: tokens,
            estimated_cost_saved_micros: (tokens as int * MICROS_PER_TOKEN) as u128,
        }
    }

    /// The statistics of the cache; see `get_stats_spec`.
    pub fn get_stats(&self) -> (r: CacheStats)
        ensures
            r == self.get_stats_spec(),
    {
        let s1 = self.stage1.entries.len() as u64;
        let s2 = self.stage2.entries.len() as u64;
        let mut stats = CacheStats {
            total_entries: saturating_add(s1, s2),
            stage1_entries: s1,
            stage2_entries: s2,
            total_hits: saturating_add(self.stage1.hits, self.stage2.hits),
            total_misses: saturating_add(self.stage1.misses, self.stage2.misses),
            hit_rate_bp: 0,
            total_tokens_saved: saturating_add(self.stage1.tokens_saved, self.stage2.tokens_saved),
            estimated_cost_saved_micros: 0,
        };
        stats.calculate_hit_rate();
        stats.estimate_cost_saved();
        stats
    }

    /// Deletes the entries of one stage, or of both, and returns how many
    /// were removed. Counters are kept.
    pub fn clear_cache(&mut self, cache_type: Option<CacheType>) -> (r: u64)
        requires
            old(self).wf(),
        ensures
            final(self).wf(),
            match cache_type {
                Some(CacheType::Stage1) => {
                    &&& r == old(self).stage1.entries@.len()
                    &&& final(self).stage1.contents().is_empty()
                    &&& final(self).stage2 == old(self).stage2
                },
                Some(CacheType::Stage2) => {
                    &&& r == old(self).stage2.entries@.len()
                    &&& final(self).stage2.contents().is_empty()
                    &&& final(self).stage1 == old(self).stage1
                },
                None => {
                    &&& r == sat_add(
                        old(self).stage1.entries@.len() as u64,
                        old(self).stage2.entries@.len() as u64,
                    )
                    &&& final(self).stage1.contents().is_empty()
                    &&& final(self).stage2.contents().is_empty()
                },
            },
    {
        match cache_type {
            Some(CacheType::Stage1) => self.stage1.clear() as u64,
            Some(CacheType::Stage2) => self.stage2.clear() as u64,
            None => {
                let a = self.stage1.clear() as u64;
                let b = self.stage2.clear() as u64;
                saturating_add(a, b)
            },
        }
    }

    /// The stored stage-one result under `cache_key`, counters untouched.
    pub fn get_stage1_direct(&self, cache_key: &str) -> (r: Option<Stage1Result>)
        requires
            self.wf(),
        ensures
            match r {
                Some(v) => self.stage1.contents().contains_key(cache_key@) && v@
                    == self.stage1.contents()[cache_key@],
                None => !self.stage1.contents().contains_key(cache_key@),
            },
    {
        self.stage1.peek(cache_key)
    }

    /// The stored stage-two result under `cache_key`, counters untouched.
    pub fn get_stage2_direct(&self, cache_key: &str) -> (r: Option<Stage2Result>)
        requires
            self.wf(),
        ensures
            match r {
                Some(v) => self.stage2.contents().contains_key(cache_key@) && v@
                    == self.stage2.contents()[cache_key@],
                None => !self.stage2.contents().contains_key(cache_key@),
            },
    {
        self.stage2.peek(cache_key)
    }

    /// For planning: how many items have each stage cached, without
    /// computing anything or touching the cache. A stage-two result counts
    /// only under the key derived from a cached stage-one result.
    pub fn warm_cache_for_batch(&self, vocabulary_items: &Vec<VocabularyItem>) -> (r: CacheWarmupStats)
        requires
            self.wf(),
        ensures
            r.total_items == vocabulary_items@.len(),
            r.stage1_cached == count_stage1_cached(self.stage1.contents(), vocabulary_items@),
            r.stage2_cached == count_stage2_cached(
                self.stage1.contents(),
                self.stage2.contents(),
                vocabulary_items@,
            ),
            r.stage1_missing == r.total_items - r.stage1_cached,
            r.stage2_missing == r.total_items - r.stage2_cached,
    {
        let ghost m1 = self.stage1.contents();
        let ghost m2 = self.stage2.contents();
        let n = vocabulary_items.len();
        let mut s1: usize = 0;
        let mut s2: usize = 0;
        let mut i: usize = 0;
        while i < n
            invariant
                self.wf(),
                m1 == self.stage1.contents(),
                m2 == self.stage2.contents(),
                n == vocabulary_items@.len(),
                i <= n,
                s1 == count_stage1_cached(m1, vocabulary_items@.take(i as int)),
                s2 == count_stage2_cached(m1, m2, vocabulary_items@.take(i as int)),
            decreases n - i,
        {
            let ghost pre = vocabulary_items@.take(i as int);
            proof {
                assert(vocabulary_items@.take(i + 1).drop_last() =~= pre);
                lemma_stage_counts_bounded(m1, m2, pre);
            }
            let item = &vocabulary_items[i];
            let k1 = Stage1Result::generate_cache_key(item);
            match self.stage1.peek(k1.as_str()) {
                Some(r1) => {
                    s1 += 1;
                    let k2 = Stage2Result::generate_cache_key(item, r1.cache_key.as_str());
                    if self.stage2.peek(k2.as_str()).is_some() {
                        s2 += 1;
                    }
                },
                None => {},
            }
            i += 1;
        }
        proof {
            assert(vocabulary_items@.take(n as int) =~= vocabulary_items@);
            lemma_stage_counts_bounded(m1, m2, vocabulary_items@);
        }
        CacheWarmupStats {
            total_items: n,
            stage1_cached: s1,
            stage2_cached: s2,
            stage1_missing: n - s1,
            stage2_missing: n - s2,
        }
    }
}

} // verus!
