//! The short-lived memory of IME states by UI thread (or window), which
//! bridges focus changes between controls, and the list of candidate windows
//! searched for an IME.
//!
//! Times are nanoseconds on a monotonic clock.
use vstd::prelude::*;

use crate::ime::{
    cache_key, normalized_conversion_mode, normalized_conversion_mode_spec, CacheKey, ImeSnapshot,
    ImeWindowQuery, Validity,
};

verus! {

/// A remembered state is reused for this long while focus moves.
pub const CACHE_BRIDGE_NS: u64 = 400_000_000;

/// Remembered states older than this are dropped once the cache grows large.
pub const CACHE_RETENTION_NS: u64 = 10_000_000_000;

/// The cache is pruned only when it holds more states than this.
pub const CACHE_PRUNE_THRESHOLD: usize = 128;

/// A remembered IME state and when it was seen.
#[derive(Clone, Copy, Debug, PartialEq, Eq, Structural)]
pub struct CachedIme {
    pub mode: u32,
    pub is_open: bool,
    pub language_id: u16,
    pub tick_ns: u64,
}

/// Whether a state seen at `tick_ns` is at most `limit_ns` old at `now_ns`;
/// a state from the future is never fresh.
pub open spec fn is_fresh(tick_ns: u64, now_ns: u64, limit_ns: u64) -> bool {
    tick_ns <= now_ns && now_ns - tick_ns <= limit_ns
}

fn fresh(tick_ns: u64, now_ns: u64, limit_ns: u64) -> (r: bool)
    ensures
        r == is_fresh(tick_ns, now_ns, limit_ns),
{
    tick_ns <= now_ns && now_ns - tick_ns <= limit_ns
}

/// The map that a list of entries stands for; a later entry for a key wins.
pub open spec fn entries_map(s: Seq<(CacheKey, CachedIme)>) -> Map<CacheKey, CachedIme>
    decreases s.len(),
{
    if s.len() == 0 {
        Map::empty()
    } else {
        entries_map(s.drop_last()).insert(s.last().0, s.last().1)
    }
}

/// No key occurs twice among the entries.
pub open spec fn keys_distinct(s: Seq<(CacheKey, CachedIme)>) -> bool {
    forall|i: int, j: int| 0 <= i < j < s.len() ==> s[i].0 != s[j].0
}

proof fn lemma_entries_map(s: Seq<(CacheKey, CachedIme)>)
    requires
        keys_distinct(s),
    ensures
        entries_map(s).dom().finite(),
        entries_map(s).dom().len() == s.len(),
        forall|k: CacheKey| #[trigger]
            entries_map(s).dom().contains(k) <==> exists|i: int| 0 <= i < s.len() && s[i].0 == k,
        forall|i: int| 0 <= i < s.len() ==> #[trigger] entries_map(s)[s[i].0] == s[i].1,
    decreases s.len(),
{
    if s.len() > 0 {
        let t = s.drop_last();
        assert(keys_distinct(t));
        lemma_entries_map(t);
        let last = s.last();
        assert(!entries_map(t).dom().contains(last.0)) by {
            if entries_map(t).dom().contains(last.0) {
                let i = choose|i: int| 0 <= i < t.len() && t[i].0 == last.0;
                assert(s[i].0 == s[s.len() - 1].0);
            }
        }
        assert forall|k: CacheKey| #[trigger]
            entries_map(s).dom().contains(k) <==> exists|i: int| 0 <= i < s.len() && s[i].0 == k by {
            if entries_map(s).dom().contains(k) {
                if k == last.0 {
                    assert(s[s.len() - 1].0 == k);
                } else {
                    let i = choose|i: int| 0 <= i < t.len() && t[i].0 == k;
                    assert(s[i].0 == k);
                }
            }
            if exists|i: int| 0 <= i < s.len() && s[i].0 == k {
                let i = choose|i: int| 0 <= i < s.len() && s[i].0 == k;
                if i < s.len() - 1 {
                    assert(t[i].0 == k);
                }
            }
        }
        assert forall|i: int| 0 <= i < s.len() implies #[trigger] entries_map(s)[s[i].0] == s[i].1 by {
            if i < s.len() - 1 {
                assert(t[i] == s[i]);
                assert(s[i].0 != last.0);
            }
        }
    }
}

/// Whether an entry stays: with a key to drop, every entry of another key;
/// without one, every entry at most `limit_ns` old at `now_ns`.
pub open spec fn keeps_entry(
    entry: (CacheKey, CachedIme),
    drop_key: Option<CacheKey>,
    now_ns: u64,
    limit_ns: u64,
) -> bool {
    match drop_key {
        Some(k) => entry.0 != k,
        None => is_fresh(entry.1.tick_ns, now_ns, limit_ns),
    }
}

/// What filtering the first `i` entries into `kept` has established.
pub open spec fn filter_progress(
    entries: Seq<(CacheKey, CachedIme)>,
    kept: Seq<(CacheKey, CachedIme)>,
    i: int,
    drop_key: Option<CacheKey>,
    now_ns: u64,
    limit_ns: u64,
) -> bool {
    &&& keys_distinct(kept)
    &&& forall|j: int|
        0 <= j < kept.len() ==> keeps_entry(#[trigger] kept[j], drop_key, now_ns, limit_ns)
            && entries.take(i).contains(kept[j])
    &&& forall|m: int|
        0 <= m < i && keeps_entry(#[trigger] entries[m], drop_key, now_ns, limit_ns)
            ==> kept.contains(entries[m])
}

proof fn lemma_filter_step(
    entries: Seq<(CacheKey, CachedIme)>,
    kept: Seq<(CacheKey, CachedIme)>,
    i: int,
    drop_key: Option<CacheKey>,
    now_ns: u64,
    limit_ns: u64,
)
    requires
        0 <= i < entries.len(),
        keys_distinct(entries),
        filter_progress(entries, kept, i, drop_key, now_ns, limit_ns),
    ensures
        keeps_entry(entries[i], drop_key, now_ns, limit_ns) ==> filter_progress(
            entries,
            kept.push(entries[i]),
            i + 1,
            drop_key,
            now_ns,
            limit_ns,
        ),
        !keeps_entry(entries[i], drop_key, now_ns, limit_ns) ==> filter_progress(
            entries,
            kept,
            i + 1,
            drop_key,
            now_ns,
            limit_ns,
        ),
{
    let entry = entries[i];
    let before = entries.take(i);
    let after = entries.take(i + 1);
    assert(after =~= before.push(entry));
    assert forall|x: (CacheKey, CachedIme)| before.contains(x) implies after.contains(x) by {
        let m = choose|m: int| 0 <= m < before.len() && before[m] == x;
        assert(after[m] == x);
    }
    if keeps_entry(entry, drop_key, now_ns, limit_ns) {
        let next = kept.push(entry);
        assert forall|j: int| 0 <= j < kept.len() implies kept[j].0 != entry.0 by {
            assert(keeps_entry(kept[j], drop_key, now_ns, limit_ns));
            let m = choose|m: int| 0 <= m < before.len() && before[m] == kept[j];
            assert(entries[m] == before[m]);
            assert(entries[m].0 != entries[i].0);
        }
        assert forall|a: int, b: int| 0 <= a < b < next.len() implies next[a].0 != next[b].0 by {
            assert(next[a] == kept[a]);
            if b < kept.len() {
                assert(next[b] == kept[b]);
            }
        }
        assert forall|j: int| 0 <= j < next.len() implies keeps_entry(
            #[trigger] next[j],
            drop_key,
            now_ns,
            limit_ns,
        ) && after.contains(next[j]) by {
            if j < kept.len() {
                assert(next[j] == kept[j]);
                assert(keeps_entry(kept[j], drop_key, now_ns, limit_ns));
                assert(before.contains(kept[j]));
            } else {
                assert(after[i] == entry);
            }
        }
        assert forall|m: int|
            0 <= m < i + 1 && keeps_entry(#[trigger] entries[m], drop_key, now_ns, limit_ns)
                implies next.contains(entries[m]) by {
            if m < i {
                assert(kept.contains(entries[m]));
                let j = choose|j: int| 0 <= j < kept.len() && kept[j] == entries[m];
                assert(next[j] == kept[j]);
            } else {
                assert(next[kept.len() as int] == entries[m]);
            }
        }
    } else {
        assert forall|j: int| 0 <= j < kept.len() implies keeps_entry(
            #[trigger] kept[j],
            drop_key,
            now_ns,
            limit_ns,
        ) && after.contains(kept[j]) by {
            assert(keeps_entry(kept[j], drop_key, now_ns, limit_ns));
            assert(before.contains(kept[j]));
        }
        assert forall|m: int|
            0 <= m < i + 1 && keeps_entry(#[trigger] entries[m], drop_key, now_ns, limit_ns)
                implies kept.contains(entries[m]) by {
            assert(m < i);
        }
    }
}

/// The entries that stay, in their order.
fn filter_entries(
    entries: &Vec<(CacheKey, CachedIme)>,
    drop_key: Option<CacheKey>,
    now_ns: u64,
    limit_ns: u64,
) -> (kept: Vec<(CacheKey, CachedIme)>)
    requires
        keys_distinct(entries@),
    ensures
        keys_distinct(kept@),
        forall|j: int|
            0 <= j < kept@.len() ==> keeps_entry(#[trigger] kept@[j], drop_key, now_ns, limit_ns)
                && entries@.contains(kept@[j]),
        forall|m: int|
            0 <= m < entries@.len() && keeps_entry(#[trigger] entries@[m], drop_key, now_ns, limit_ns)
                ==> kept@.contains(entries@[m]),
{
    let mut kept: Vec<(CacheKey, CachedIme)> = Vec::new();
    let mut i: usize = 0;
    while i < entries.len()
        invariant
            i <= entries@.len(),
            keys_distinct(entries@),
            filter_progress(entries@, kept@, i as int, drop_key, now_ns, limit_ns),
        decreases entries@.len() - i,
    {
        let entry = entries[i];
        let stays = match drop_key {
            Some(k) => entry.0 != k,
            None => fresh(entry.1.tick_ns, now_ns, limit_ns),
        };
        proof {
            lemma_filter_step(entries@, kept@, i as int, drop_key, now_ns, limit_ns);
        }
        if stays {
            kept.push(entry);
        }
        i = i + 1;
    }
    assert(entries@.take(entries@.len() as int) =~= entries@);
    kept
}

/// Remembered IME states, at most one per key.
pub struct ImeStateCache {
    entries: Vec<(CacheKey, CachedIme)>,
}

impl View for ImeStateCache {
    type V = Map<CacheKey, CachedIme>;

    closed spec fn view(&self) -> Map<CacheKey, CachedIme> {
        entries_map(self.entries@)
    }
}

impl ImeStateCache {
    #[verifier::type_invariant]
    closed spec fn keys_are_distinct(&self) -> bool {
        keys_distinct(self.entries@)
    }

    /// An empty cache.
    pub fn new() -> (c: Self)
        ensures
            c@ == Map::<CacheKey, CachedIme>::empty(),
    {
        ImeStateCache { entries: Vec::new() }
    }

    /// How many states are remembered.
    pub fn len(&self) -> (n: usize)
        ensures
            n == self@.dom().len(),
            self@.dom().finite(),
    {
        proof {
            use_type_invariant(self);
            lemma_entries_map(self.entries@);
        }
        self.entries.len()
    }

    /// The state remembered for `key`.
    pub fn get(&self, key: CacheKey) -> (r: Option<CachedIme>)
        ensures
            r == (if self@.dom().contains(key) {
                Some(self@[key])
            } else {
                None
            }),
    {
        proof {
            use_type_invariant(self);
            lemma_entries_map(self.entries@);
        }
        let mut i: usize = 0;
        while i < self.entries.len()
            invariant
                i <= self.entries@.len(),
                forall|j: int| 0 <= j < i ==> self.entries@[j].0 != key,
            decreases self.entries@.len() - i,
        {
            if self.entries[i].0 == key {
                proof {
                    use_type_invariant(self);
                    lemma_entries_map(self.entries@);
                }
                return Some(self.entries[i].1);
            }
            i = i + 1;
        }
        proof {
            use_type_invariant(self);
            lemma_entries_map(self.entries@);
        }
        None
    }

    /// Remembers `state` for `key`, replacing what was remembered for it.
    pub fn insert(&mut self, key: CacheKey, state: CachedIme)
        ensures
            final(self)@ == old(self)@.insert(key, state),
    {
        proof {
            use_type_invariant(&*self);
            lemma_entries_map(self.entries@);
        }
        let mut kept = filter_entries(&self.entries, Some(key), 0, 0);
        let ghost before = kept@;
        kept.push((key, state));
        proof {
            assert(keys_distinct(kept@)) by {
                assert forall|a: int, b: int| 0 <= a < b < kept@.len() implies kept@[a].0
                    != kept@[b].0 by {
                    if b == kept@.len() - 1 {
                        assert(kept@[a] == before[a]);
                        assert(keeps_entry(before[a], Some(key), 0, 0));
                    } else {
                        assert(kept@[a] == before[a] && kept@[b] == before[b]);
                    }
                }
            }
            lemma_entries_map(kept@);
            let target = entries_map(self.entries@).insert(key, state);
            assert forall|k: CacheKey| #[trigger] entries_map(kept@).dom().contains(k)
                <==> target.dom().contains(k) by {
                if k != key {
                    if entries_map(self.entries@).dom().contains(k) {
                        let m = choose|m: int|
                            0 <= m < self.entries@.len() && self.entries@[m].0 == k;
                        assert(keeps_entry(self.entries@[m], Some(key), 0, 0));
                        assert(before.contains(self.entries@[m]));
                        let j = choose|j: int| 0 <= j < before.len() && before[j] == self.entries@[m];
                        assert(kept@[j] == before[j]);
                    }
                    if entries_map(kept@).dom().contains(k) {
                        let j = choose|j: int| 0 <= j < kept@.len() && kept@[j].0 == k;
                        assert(j < before.len());
                        assert(kept@[j] == before[j]);
                        assert(keeps_entry(before[j], Some(key), 0, 0));
                    }
                } else {
                    assert(kept@[kept@.len() - 1].0 == key);
                }
            }
            assert forall|k: CacheKey| #[trigger] entries_map(kept@).dom().contains(k)
                implies entries_map(kept@)[k] == target[k] by {
                let j = choose|j: int| 0 <= j < kept@.len() && kept@[j].0 == k;
                if k == key {
                    if j < kept@.len() - 1 {
                        assert(kept@[j] == before[j]);
                        assert(keeps_entry(before[j], Some(key), 0, 0));
                    }
                    assert(j == kept@.len() - 1);
                } else {
                    assert(j < before.len());
                    assert(kept@[j] == before[j]);
                    assert(self.entries@.contains(before[j]));
                    let m = choose|m: int| 0 <= m < self.entries@.len() && self.entries@[m] == before[j];
                    assert(entries_map(self.entries@)[self.entries@[m].0] == self.entries@[m].1);
                }
            }
            assert(entries_map(kept@) =~= target);
        }
        self.entries = kept;
    }

    /// Forgets the states older than `limit_ns` (or from the future) at
    /// `now_ns`.
    pub fn retain_fresh(&mut self, now_ns: u64, limit_ns: u64)
        ensures
            final(self)@ == old(self)@.restrict(
                old(self)@.dom().filter(
                    |k: CacheKey| is_fresh(old(self)@[k].tick_ns, now_ns, limit_ns),
                ),
            ),
    {
        proof {
            use_type_invariant(&*self);
            lemma_entries_map(self.entries@);
        }
        let ghost old_map = self@;
        let kept = filter_entries(&self.entries, None, now_ns, limit_ns);
        proof {
            lemma_entries_map(kept@);
            let target = old_map.restrict(
                old_map.dom().filter(|k: CacheKey| is_fresh(old_map[k].tick_ns, now_ns, limit_ns)),
            );
            assert forall|k: CacheKey| #[trigger] entries_map(kept@).dom().contains(k)
                <==> target.dom().contains(k) by {
                if entries_map(kept@).dom().contains(k) {
                    let j = choose|j: int| 0 <= j < kept@.len() && kept@[j].0 == k;
                    assert(keeps_entry(kept@[j], None, now_ns, limit_ns));
                    assert(self.entries@.contains(kept@[j]));
                    let m = choose|m: int| 0 <= m < self.entries@.len() && self.entries@[m] == kept@[j];
                    assert(old_map[self.entries@[m].0] == self.entries@[m].1);
                }
                if target.dom().contains(k) {
                    let m = choose|m: int| 0 <= m < self.entries@.len() && self.entries@[m].0 == k;
                    assert(old_map[self.entries@[m].0] == self.entries@[m].1);
                    assert(keeps_entry(self.entries@[m], None, now_ns, limit_ns));
                    assert(kept@.contains(self.entries@[m]));
                    let j = choose|j: int| 0 <= j < kept@.len() && kept@[j] == self.entries@[m];
                }
            }
            assert forall|k: CacheKey| #[trigger] entries_map(kept@).dom().contains(k)
                implies entries_map(kept@)[k] == target[k] by {
                let j = choose|j: int| 0 <= j < kept@.len() && kept@[j].0 == k;
                assert(keeps_entry(kept@[j], None, now_ns, limit_ns));
                assert(self.entries@.contains(kept@[j]));
                let m = choose|m: int| 0 <= m < self.entries@.len() && self.entries@[m] == kept@[j];
                assert(old_map[self.entries@[m].0] == self.entries@[m].1);
            }
            assert(entries_map(kept@) =~= target);
        }
        self.entries = kept;
    }

    /// Drops the states older than the retention time, but only once the
    /// cache holds more than the threshold, so that a small cache is never
    /// scanned.
    pub fn prune(&mut self, now_ns: u64)
        ensures
            old(self)@.dom().len() > CACHE_PRUNE_THRESHOLD ==> final(self)@ == old(self)@.restrict(
                old(self)@.dom().filter(
                    |k: CacheKey| is_fresh(old(self)@[k].tick_ns, now_ns, CACHE_RETENTION_NS),
                ),
            ),
            old(self)@.dom().len() <= CACHE_PRUNE_THRESHOLD ==> final(self)@ == old(self)@,
    {
        if self.len() > CACHE_PRUNE_THRESHOLD {
            self.retain_fresh(now_ns, CACHE_RETENTION_NS);
        }
    }

    /// Records a state read live from `window` on `thread_id` at `now_ns`,
    /// and gives it back as a live snapshot.
    pub fn record_live(
        &mut self,
        thread_id: u32,
        window: usize,
        query: ImeWindowQuery,
        language_id: u16,
        now_ns: u64,
    ) -> (s: ImeSnapshot)
        ensures
            s == (ImeSnapshot {
                validity: Validity::Live,
                conversion_mode: normalized_conversion_mode_spec(query, language_id),
                language_id,
                is_open: query.is_open,
            }),
            final(self)@ == old(self)@.insert(
                if thread_id != 0 {
                    CacheKey::Thread(thread_id)
                } else {
                    CacheKey::Window(window)
                },
                CachedIme {
                    mode: normalized_conversion_mode_spec(query, language_id),
                    is_open: query.is_open,
                    language_id,
                    tick_ns: now_ns,
                },
            ),
    {
        let mode = normalized_conversion_mode(query, language_id);
        self.insert(
            cache_key(thread_id, window),
            CachedIme { mode, is_open: query.is_open, language_id, tick_ns: now_ns },
        );
        ImeSnapshot { validity: Validity::Live, conversion_mode: mode, language_id, is_open: query.is_open }
    }

    /// The state to bridge a focus change with: the first of `keys` (one per
    /// candidate window, in order) whose state is at most the bridge time
    /// old, as a cached snapshot.
    pub fn bridge(&self, keys: &Vec<CacheKey>, now_ns: u64) -> (r: Option<ImeSnapshot>)
        ensures
            r == bridge_spec(self@, keys@, now_ns),
    {
        let mut i: usize = 0;
        assert(keys@.skip(0) =~= keys@);
        while i < keys.len()
            invariant
                i <= keys@.len(),
                bridge_spec(self@, keys@, now_ns) == bridge_spec(self@, keys@.skip(i as int), now_ns),
            decreases keys@.len() - i,
        {
            assert(keys@.skip(i as int).drop_first() =~= keys@.skip(i + 1));
            match self.get(keys[i]) {
                Some(cached) => {
                    if fresh(cached.tick_ns, now_ns, CACHE_BRIDGE_NS) {
                        return Some(
                            ImeSnapshot {
                                validity: Validity::Cached,
                                conversion_mode: cached.mode,
                                language_id: cached.language_id,
                                is_open: cached.is_open,
                            },
                        );
                    }
                },
                None => {},
            }
            i = i + 1;
        }
        None
    }
}

/// The snapshot that bridges a focus change: the first key with a state at
/// most the bridge time old.
pub open spec fn bridge_spec(
    cache: Map<CacheKey, CachedIme>,
    keys: Seq<CacheKey>,
    now_ns: u64,
) -> Option<ImeSnapshot>
    decreases keys.len(),
{
    if keys.len() == 0 {
        None
    } else if cache.dom().contains(keys[0]) && is_fresh(cache[keys[0]].tick_ns, now_ns, CACHE_BRIDGE_NS) {
        Some(
            ImeSnapshot {
                validity: Validity::Cached,
                conversion_mode: cache[keys[0]].mode,
                language_id: cache[keys[0]].language_id,
                is_open: cache[keys[0]].is_open,
            },
        )
    } else {
        bridge_spec(cache, keys.drop_first(), now_ns)
    }
}

/// A state recorded for a key is what the cache then gives back for it,
/// and recording leaves the other keys' states as they were.
pub proof fn lemma_cache_reads_back_writes(
    cache: Map<CacheKey, CachedIme>,
    key: CacheKey,
    state: CachedIme,
    other: CacheKey,
)
    requires
        other != key,
    ensures
        cache.insert(key, state).dom().contains(key),
        cache.insert(key, state)[key] == state,
        cache.insert(key, state).dom().contains(other) == cache.dom().contains(other),
        cache.dom().contains(other) ==> cache.insert(key, state)[other] == cache[other],
{
}

/// Pruning keeps every state that is still within the retention time, and
/// keeps it unchanged.
pub proof fn lemma_pruning_keeps_fresh_states(
    cache: Map<CacheKey, CachedIme>,
    now_ns: u64,
    key: CacheKey,
)
    requires
        cache.dom().contains(key),
        is_fresh(cache[key].tick_ns, now_ns, CACHE_RETENTION_NS),
    ensures
        ({
            let pruned = cache.restrict(
                cache.dom().filter(
                    |k: CacheKey| is_fresh(cache[k].tick_ns, now_ns, CACHE_RETENTION_NS),
                ),
            );
            pruned.dom().contains(key) && pruned[key] == cache[key]
        }),
{
}

/// A state just recorded bridges the next focus change at once: asking
/// with its key first gives it back as a cached snapshot.
pub proof fn lemma_recorded_state_bridges(
    cache: Map<CacheKey, CachedIme>,
    key: CacheKey,
    state: CachedIme,
    keys: Seq<CacheKey>,
)
    requires
        keys.len() > 0,
        keys[0] == key,
    ensures
        bridge_spec(cache.insert(key, state), keys, state.tick_ns) == Some(
            ImeSnapshot {
                validity: Validity::Cached,
                conversion_mode: state.mode,
                language_id: state.language_id,
                is_open: state.is_open,
            },
        ),
{
}

/// Appends `window` to the candidates unless it is null or already listed.
pub fn add_window_candidate(candidates: &mut Vec<usize>, window: usize)
    ensures
        (window == 0 || old(candidates)@.contains(window)) ==> final(candidates)@ == old(
            candidates,
        )@,
        (window != 0 && !old(candidates)@.contains(window)) ==> final(candidates)@ == old(
            candidates,
        )@.push(window),
{
    if window == 0 {
        return;
    }
    let mut i: usize = 0;
    while i < candidates.len()
        invariant
            i <= candidates@.len(),
            forall|j: int| 0 <= j < i ==> candidates@[j] != window,
        decreases candidates@.len() - i,
    {
        if candidates[i] == window {
            return;
        }
        i = i + 1;
    }
    candidates.push(window);
}

/// The UI thread whose language to read: the target window's thread, or
/// when it is unknown (0) the first known thread among the candidates.
pub fn target_thread(target: u32, candidate_threads: &[u32]) -> (r: u32)
    ensures
        target != 0 ==> r == target,
        target == 0 && r == 0 ==> forall|i: int|
            0 <= i < candidate_threads@.len() ==> candidate_threads@[i] == 0,
        target == 0 && r != 0 ==> exists|i: int|
            0 <= i < candidate_threads@.len() && candidate_threads@[i] == r && forall|j: int|
                0 <= j < i ==> candidate_threads@[j] == 0,
{
    if target != 0 {
        return target;
    }
    let mut i: usize = 0;
    while i < candidate_threads.len()
        invariant
            target == 0,
            i <= candidate_threads@.len(),
            forall|j: int| 0 <= j < i ==> candidate_threads@[j] == 0,
        decreases candidate_threads@.len() - i,
    {
        if candidate_threads[i] != 0 {
            return candidate_threads[i];
        }
        i = i + 1;
    }
    0
}

} // verus!
