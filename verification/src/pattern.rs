//! The pattern store: clusters canonicalized lines by signature and keeps
//! per-pattern statistics — counts, rolling windows, trend, spike, and the
//! sparkline buckets. Time is carried as milliseconds on a monotonic clock.

use vstd::prelude::*;
use crate::parse::{Level, LogEvent};
use crate::util;

verus! {

/// How a pattern's short-term rate compares with its five-minute rate.
#[derive(Debug, Clone, Copy, PartialEq, Eq, Structural)]
pub enum Trend {
    Up,
    Down,
    Stable,
}

impl Trend {
    /// Arrow glyph for the trend.
    pub fn symbol(self) -> (r: &'static str)
        ensures
            r@ == self.spec_symbol(),
    {
        match self {
            Trend::Up => "↑",
            Trend::Down => "↓",
            Trend::Stable => "→",
        }
    }

    pub open spec fn spec_symbol(self) -> Seq<char> {
        match self {
            Trend::Up => "↑"@,
            Trend::Down => "↓"@,
            Trend::Stable => "→"@,
        }
    }
}

/// Width of the one-minute window, in milliseconds.
pub const WINDOW_1M_MS: u64 = 60_000;

/// Width of the five-minute window, in milliseconds.
pub const WINDOW_5M_MS: u64 = 300_000;

/// Bound on the sample ring.
pub const MAX_SAMPLES: usize = 10;

/// Width of one sparkline bucket, in milliseconds.
pub const SPARK_BUCKET_MS: u64 = 5_000;

/// Number of completed sparkline buckets kept.
pub const SPARK_BUCKET_COUNT: usize = 24;

/// One cluster of log lines sharing a signature.
pub struct Pattern {
    /// The signature: the canonical text after redaction; the clustering key.
    pub canonical: String,
    /// Highest severity observed so far.
    pub level: Level,
    /// Number of lines ingested since creation or the last counter clear.
    pub count_total: u64,
    pub first_seen: u64,
    pub last_seen: u64,
    /// Up to `MAX_SAMPLES` most recent raw lines, oldest first.
    pub samples: Vec<String>,
    pub trend: Trend,
    pub spike: bool,
    /// Ids of the sources that contributed lines, first contribution first.
    pub sources: Vec<String>,
    /// Completed sparkline buckets, oldest first.
    pub sparkline_buckets: Vec<u16>,
    /// Tally of the in-progress sparkline bucket.
    pub current_bucket_count: u16,
    /// Start of the in-progress sparkline bucket.
    pub sparkline_last_advance: u64,
    /// Ingest timestamps within the last minute, oldest first.
    pub timestamps_1m: Vec<u64>,
    /// Ingest timestamps within the last five minutes, oldest first.
    pub timestamps_5m: Vec<u64>,
}

/// Mathematical model of a `Pattern`.
#[verifier::ext_equal]
pub struct PatternV {
    pub canonical: Seq<char>,
    pub level: Level,
    pub count_total: u64,
    pub first_seen: u64,
    pub last_seen: u64,
    pub samples: Seq<Seq<char>>,
    pub trend: Trend,
    pub spike: bool,
    pub sources: Seq<Seq<char>>,
    pub buckets: Seq<u16>,
    pub current_bucket: u16,
    pub last_advance: u64,
    pub window_1m: Seq<u64>,
    pub window_5m: Seq<u64>,
}

impl View for Pattern {
    type V = PatternV;

    open spec fn view(&self) -> PatternV {
        PatternV {
            canonical: self.canonical@,
            level: self.level,
            count_total: self.count_total,
            first_seen: self.first_seen,
            last_seen: self.last_seen,
            samples: self.samples@.map_values(|s: String| s@),
            trend: self.trend,
            spike: self.spike,
            sources: self.sources@.map_values(|s: String| s@),
            buckets: self.sparkline_buckets@,
            current_bucket: self.current_bucket_count,
            last_advance: self.sparkline_last_advance,
            window_1m: self.timestamps_1m@,
            window_5m: self.timestamps_5m@,
        }
    }
}

/// `u64` addition that stops at the maximum instead of wrapping.
pub open spec fn sat_add64(c: u64) -> u64 {
    if c == u64::MAX {
        c
    } else {
        (c + 1) as u64
    }
}

/// `u16` addition that stops at the maximum instead of wrapping.
pub open spec fn sat_add16(c: u16) -> u16 {
    if c == u16::MAX {
        c
    } else {
        (c + 1) as u16
    }
}

pub open spec fn max64(a: u64, b: u64) -> u64 {
    if a >= b {
        a
    } else {
        b
    }
}

/// The pattern a first observation creates.
pub open spec fn fresh_pattern(
    sig: Seq<char>,
    level: Level,
    raw: Seq<char>,
    source: Seq<char>,
    now: u64,
) -> PatternV {
    PatternV {
        canonical: sig,
        level: level,
        count_total: 1,
        first_seen: now,
        last_seen: now,
        samples: seq![raw],
        trend: Trend::Stable,
        spike: false,
        sources: seq![source],
        buckets: Seq::<u16>::empty(),
        current_bucket: 1,
        last_advance: now,
        window_1m: seq![now],
        window_5m: seq![now],
    }
}

/// What one further observation does to a pattern: the count rises, the
/// severity widens upward, the ring keeps the ten newest samples, both
/// windows and the in-progress bucket record the event, and the source id is
/// added if it is new.
pub open spec fn recorded(
    p: PatternV,
    raw: Seq<char>,
    level: Level,
    source: Seq<char>,
    now: u64,
) -> PatternV {
    PatternV {
        canonical: p.canonical,
        level: if level.spec_severity() > p.level.spec_severity() {
            level
        } else {
            p.level
        },
        count_total: sat_add64(p.count_total),
        first_seen: p.first_seen,
        last_seen: now,
        samples: if p.samples.len() >= MAX_SAMPLES {
            p.samples.drop_first().push(raw)
        } else {
            p.samples.push(raw)
        },
        trend: p.trend,
        spike: p.spike,
        sources: if p.sources.contains(source) {
            p.sources
        } else {
            p.sources.push(source)
        },
        buckets: p.buckets,
        current_bucket: sat_add16(p.current_bucket),
        last_advance: p.last_advance,
        window_1m: p.window_1m.push(now),
        window_5m: p.window_5m.push(now),
    }
}

/// Drop timestamps older than `width` before `now` from the front.
pub open spec fn prune_front(w: Seq<u64>, now: u64, width: u64) -> Seq<u64>
    decreases w.len(),
{
    if w.len() > 0 && now - w[0] > width {
        prune_front(w.drop_first(), now, width)
    } else {
        w
    }
}

/// Advance the sparkline: each elapsed bucket interval commits the in-progress
/// tally (zero after the first) and evicts the oldest bucket past the bound.
/// Returns the buckets, the in-progress tally, and the new interval start.
pub open spec fn spark_advanced(b: Seq<u16>, cur: u16, last: u64, now: u64) -> (Seq<u16>, u16, u64)
    decreases now - last,
{
    if last <= now && now - last >= SPARK_BUCKET_MS {
        let nb = b.push(cur);
        let nb2 = if nb.len() > SPARK_BUCKET_COUNT {
            nb.drop_first()
        } else {
            nb
        };
        spark_advanced(nb2, 0, (last + SPARK_BUCKET_MS) as u64, now)
    } else {
        (b, cur, last)
    }
}

/// Windows pruned and sparkline advanced, trend and spike untouched.
pub open spec fn pruned(p: PatternV, now: u64) -> PatternV {
    let sa = spark_advanced(p.buckets, p.current_bucket, p.last_advance, now);
    PatternV {
        window_1m: prune_front(p.window_1m, now, WINDOW_1M_MS),
        window_5m: prune_front(p.window_5m, now, WINDOW_5M_MS),
        buckets: sa.0,
        current_bucket: sa.1,
        last_advance: sa.2,
        ..p
    }
}

/// Trend classification over the current windows. With `r1` the per-minute
/// rate `|window_1m|` and `r5` the per-minute rate `|window_5m| / 5`:
/// `r5 < 0.1` means the five-minute window is empty; `r1 > 1.5 * r5` is
/// `10 * |w1| > 3 * |w5|`; `r1 < 0.5 * r5` is `10 * |w1| < |w5|`.
pub open spec fn trend_of(p: PatternV) -> Trend {
    if p.window_5m.len() == 0 {
        if p.window_1m.len() > 0 {
            Trend::Up
        } else {
            Trend::Stable
        }
    } else if 10 * p.window_1m.len() > 3 * p.window_5m.len() {
        Trend::Up
    } else if 10 * p.window_1m.len() < p.window_5m.len() {
        Trend::Down
    } else {
        Trend::Stable
    }
}

/// A spike needs both `r1 > 3 * r5`, that is `5 * |w1| > 3 * |w5|`, and more
/// than ten lines since the last counter clear.
pub open spec fn spike_of(p: PatternV) -> bool {
    5 * p.window_1m.len() > 3 * p.window_5m.len() && p.count_total > 10
}

/// Trend and spike recomputed from the current windows.
pub open spec fn trended(p: PatternV) -> PatternV {
    PatternV { trend: trend_of(p), spike: spike_of(p), ..p }
}

/// What one store tick does to a pattern.
pub open spec fn ticked(p: PatternV, now: u64) -> PatternV {
    trended(pruned(p, now))
}

/// What clearing counters does to a pattern: counts, windows and sparkline
/// are emptied; signature, severity, samples, seen times and sources stay.
pub open spec fn cleared(p: PatternV, now: u64) -> PatternV {
    PatternV {
        count_total: 0,
        window_1m: Seq::<u64>::empty(),
        window_5m: Seq::<u64>::empty(),
        buckets: Seq::<u16>::empty(),
        current_bucket: 0,
        last_advance: now,
        trend: Trend::Stable,
        spike: false,
        ..p
    }
}

/// Timestamps are nondecreasing.
pub open spec fn ts_sorted(w: Seq<u64>) -> bool {
    forall|i: int, j: int| 0 <= i <= j < w.len() ==> w[i] <= w[j]
}

/// Every timestamp is at most `t`.
pub open spec fn ts_below(w: Seq<u64>, t: u64) -> bool {
    forall|i: int| 0 <= i < w.len() ==> w[i] <= t
}

/// `a` is a suffix of `b`.
pub open spec fn suffix_of(a: Seq<u64>, b: Seq<u64>) -> bool {
    a.len() <= b.len() && a == b.subrange(b.len() - a.len(), b.len() as int)
}

/// Internal consistency of one pattern. The one-minute window is a suffix
/// of the five-minute window: every timestamp still within a minute is also
/// within five minutes.
pub open spec fn pattern_wf(p: PatternV) -> bool {
    &&& p.first_seen <= p.last_seen
    &&& p.samples.len() <= MAX_SAMPLES
    &&& ts_sorted(p.window_1m)
    &&& ts_sorted(p.window_5m)
    &&& ts_below(p.window_1m, p.last_seen)
    &&& ts_below(p.window_5m, p.last_seen)
    &&& suffix_of(p.window_1m, p.window_5m)
    &&& p.buckets.len() <= SPARK_BUCKET_COUNT
}

// ---------------------------------------------------------------------------
// Pattern methods
// ---------------------------------------------------------------------------

impl Pattern {
    /// Seed a pattern from its first observation.
    pub fn new(canonical: String, level: Level, raw: String, source: String, now: u64) -> (p:
        Pattern)
        ensures
            p@ == fresh_pattern(canonical@, level, raw@, source@, now),
    {
        let ghost rs = raw@;
        let ghost ss = source@;
        let ghost cs = canonical@;
        let p = Pattern {
            canonical,
            level,
            count_total: 1,
            first_seen: now,
            last_seen: now,
            samples: vec![raw],
            trend: Trend::Stable,
            spike: false,
            sources: vec![source],
            sparkline_buckets: Vec::new(),
            current_bucket_count: 1,
            sparkline_last_advance: now,
            timestamps_1m: vec![now],
            timestamps_5m: vec![now],
        };
        proof {
            assert(p@.samples =~= seq![rs]);
            assert(p@.sources =~= seq![ss]);
            assert(p@.window_1m =~= seq![now]);
            assert(p@.window_5m =~= seq![now]);
            assert(p@.buckets =~= Seq::<u16>::empty());
            assert(p@ =~= fresh_pattern(cs, level, rs, ss, now));
        }
        p
    }

    /// Fold one further observation into the pattern.
    pub fn record(&mut self, raw: String, level: Level, source: &str, now: u64)
        ensures
            final(self)@ == recorded(old(self)@, raw@, level, source@, now),
    {
        let ghost o = old(self)@;
        let ghost rs = raw@;
        let src = String::from_str(source);
        if !contains_string(&self.sources, &src) {
            self.sources.push(src);
        }
        proof {
            assert(self@.sources =~= recorded(o, rs, level, source@, now).sources);
        }
        self.count_total = if self.count_total == u64::MAX {
            u64::MAX
        } else {
            self.count_total + 1
        };
        self.last_seen = now;
        if level.severity() > self.level.severity() {
            self.level = level;
        }
        if self.samples.len() >= MAX_SAMPLES {
            self.samples.remove(0);
        }
        self.samples.push(raw);
        self.timestamps_1m.push(now);
        self.timestamps_5m.push(now);
        self.current_bucket_count = if self.current_bucket_count == u16::MAX {
            u16::MAX
        } else {
            self.current_bucket_count + 1
        };
        proof {
            assert(self@.samples =~= recorded(o, rs, level, source@, now).samples);
            assert(self@.window_1m =~= recorded(o, rs, level, source@, now).window_1m);
            assert(self@.window_5m =~= recorded(o, rs, level, source@, now).window_5m);
            assert(self@ =~= recorded(o, rs, level, source@, now));
        }
    }

    /// Events in the one-minute window, which is the per-minute rate.
    pub fn rate_1m(&self) -> (r: usize)
        ensures
            r == self@.window_1m.len(),
    {
        self.timestamps_1m.len()
    }

    /// Events in the five-minute window; a fifth of this is the per-minute
    /// rate over that window.
    pub fn window_5m_len(&self) -> (r: usize)
        ensures
            r == self@.window_5m.len(),
    {
        self.timestamps_5m.len()
    }

    /// Prune both windows and advance the sparkline buckets.
    pub fn prune_windows(&mut self, now: u64)
        ensures
            final(self)@ == pruned(old(self)@, now),
    {
        let ghost target = pruned(old(self)@, now);
        prune_vec(&mut self.timestamps_1m, now, WINDOW_1M_MS);
        prune_vec(&mut self.timestamps_5m, now, WINDOW_5M_MS);
        while self.sparkline_last_advance <= now && now - self.sparkline_last_advance
            >= SPARK_BUCKET_MS
            invariant
                spark_advanced(self@.buckets, self@.current_bucket, self@.last_advance, now) == (
                target.buckets,
                target.current_bucket,
                target.last_advance,
                ),
                self@ == (PatternV {
                    buckets: self@.buckets,
                    current_bucket: self@.current_bucket,
                    last_advance: self@.last_advance,
                    ..target
                }),
            decreases now - self.sparkline_last_advance,
        {
            let ghost b0 = self@.buckets;
            let ghost c0 = self@.current_bucket;
            let ghost l0 = self@.last_advance;
            self.sparkline_buckets.push(self.current_bucket_count);
            self.current_bucket_count = 0;
            if self.sparkline_buckets.len() > SPARK_BUCKET_COUNT {
                self.sparkline_buckets.remove(0);
                proof {
                    assert(self@.buckets =~= b0.push(c0).drop_first());
                }
            }
            self.sparkline_last_advance = self.sparkline_last_advance + SPARK_BUCKET_MS;
            proof {
                assert(spark_advanced(b0, c0, l0, now) == spark_advanced(
                    self@.buckets,
                    self@.current_bucket,
                    self@.last_advance,
                    now,
                ));
            }
        }
    }

    /// Recompute trend and spike from the current windows.
    pub fn update_trend(&mut self)
        ensures
            final(self)@ == trended(old(self)@),
    {
        let r1 = self.timestamps_1m.len();
        let r5 = self.timestamps_5m.len();
        if r5 == 0 {
            self.trend = if r1 > 0 {
                Trend::Up
            } else {
                Trend::Stable
            };
        } else if 10 * (r1 as u128) > 3 * (r5 as u128) {
            self.trend = Trend::Up;
        } else if 10 * (r1 as u128) < r5 as u128 {
            self.trend = Trend::Down;
        } else {
            self.trend = Trend::Stable;
        }
        self.spike = 5 * (r1 as u128) > 3 * (r5 as u128) && self.count_total > 10;
    }
}

/// Whether a vector of strings holds the given text.
pub(crate) fn contains_string(v: &Vec<String>, s: &String) -> (b: bool)
    ensures
        b == v@.map_values(|x: String| x@).contains(s@),
{
    let ghost m = v@.map_values(|x: String| x@);
    let mut i: usize = 0;
    while i < v.len()
        invariant
            i <= v.len(),
            m == v@.map_values(|x: String| x@),
            forall|k: int| 0 <= k < i ==> m[k] != s@,
        decreases v.len() - i,
    {
        if v[i].eq(s) {
            assert(m[i as int] == s@);
            return true;
        }
        i = i + 1;
    }
    false
}

/// Drop timestamps older than `width` before `now` from the front.
fn prune_vec(w: &mut Vec<u64>, now: u64, width: u64)
    ensures
        final(w)@ == prune_front(old(w)@, now, width),
{
    while w.len() > 0 && w[0] < now && now - w[0] > width
        invariant
            prune_front(w@, now, width) == prune_front(old(w)@, now, width),
        decreases w.len(),
    {
        w.remove(0);
    }
    proof {
        if w@.len() > 0 {
            assert(!(now - w@[0] > width));
        }
    }
}


// ---------------------------------------------------------------------------
// Hashing
// ---------------------------------------------------------------------------

/// One FNV-1a step: fold a character into the hash.
pub open spec fn fnv1a_step(h: u64, c: char) -> u64 {
    vstd::wrapping::u64_specs::wrapping_mul(h ^ ((c as u32) as u64), 0x100000001b3)
}

pub open spec fn fnv1a_loop(s: Seq<char>, i: int, h: u64) -> u64
    decreases s.len() - i,
{
    if i < 0 || i >= s.len() {
        h
    } else {
        fnv1a_loop(s, i + 1, fnv1a_step(h, s[i]))
    }
}

/// FNV-1a over the characters of a signature.
pub open spec fn fnv1a_of(s: Seq<char>) -> u64 {
    fnv1a_loop(s, 0, 0xcbf29ce484222325)
}

/// Stable 64-bit string hash (FNV-1a over characters) for the signature index.
pub fn hash_str(s: &str) -> (r: u64)
    ensures
        r == fnv1a_of(s@),
{
    let v = util::chars_of(s);
    let mut h: u64 = 0xcbf29ce484222325;
    let mut i: usize = 0;
    while i < v.len()
        invariant
            i <= v.len(),
            v@ == s@,
            fnv1a_loop(s@, i as int, h) == fnv1a_of(s@),
        decreases v.len() - i,
    {
        h = (h ^ ((v[i] as u32) as u64)).wrapping_mul(0x100000001b3);
        i = i + 1;
    }
    h
}

// ---------------------------------------------------------------------------
// The store
// ---------------------------------------------------------------------------

/// Index of the first pattern carrying the signature, or `-1`.
pub open spec fn find_sig(ps: Seq<PatternV>, sig: Seq<char>) -> int
    decreases ps.len(),
{
    if ps.len() == 0 {
        -1
    } else if ps[0].canonical == sig {
        0
    } else {
        let r = find_sig(ps.drop_first(), sig);
        if r < 0 {
            -1
        } else {
            1 + r
        }
    }
}

pub proof fn lemma_find_sig(ps: Seq<PatternV>, sig: Seq<char>)
    ensures
        find_sig(ps, sig) >= 0 ==> 0 <= find_sig(ps, sig) < ps.len() && ps[find_sig(
            ps,
            sig,
        )].canonical == sig && (forall|m: int|
            0 <= m < find_sig(ps, sig) ==> ps[m].canonical != sig),
        find_sig(ps, sig) < 0 ==> forall|m: int| 0 <= m < ps.len() ==> ps[m].canonical != sig,
    decreases ps.len(),
{
    if ps.len() == 0 {
    } else if ps[0].canonical == sig {
    } else {
        lemma_find_sig(ps.drop_first(), sig);
        assert forall|m: int| 1 <= m < ps.len() implies ps.drop_first()[m - 1] == ps[m] by {}
    }
}

/// The one-step transition `ingest` performs on the pattern table.
pub open spec fn ingest_transition(
    ps: Seq<PatternV>,
    sig: Seq<char>,
    raw: Seq<char>,
    level: Level,
    source: Seq<char>,
    t: u64,
) -> Seq<PatternV> {
    let j = find_sig(ps, sig);
    if j >= 0 {
        ps.update(j, recorded(ps[j], raw, level, source, t))
    } else {
        ps.push(fresh_pattern(sig, level, raw, source, t))
    }
}

/// No two patterns share a signature.
pub open spec fn unique_sigs(ps: Seq<PatternV>) -> bool {
    forall|i: int, j: int|
        0 <= i < j < ps.len() ==> (#[trigger] ps[i]).canonical != (#[trigger] ps[j]).canonical
}

/// Sort order of the pattern view: higher one-minute rate first, more
/// recently seen first among equals. Total and transitive.
pub open spec fn pat_before(a: PatternV, b: PatternV) -> bool {
    a.window_1m.len() > b.window_1m.len() || (a.window_1m.len() == b.window_1m.len()
        && a.last_seen >= b.last_seen)
}

/// The views of a sequence of patterns.
pub open spec fn pattern_views(s: Seq<Pattern>) -> Seq<PatternV> {
    s.map_values(|p: Pattern| p@)
}

/// The pattern table: a dense array of patterns and, beside it, the hash of
/// each pattern's signature. Membership in the two always agrees.
pub struct PatternStore {
    patterns: Vec<Pattern>,
    index: Vec<u64>,
    latest: u64,
}

impl PatternStore {
    /// The model of the table: one `PatternV` per pattern, in table order.
    pub closed spec fn spec_patterns(&self) -> Seq<PatternV> {
        pattern_views(self.patterns@)
    }

    /// The model of the hash index.
    pub closed spec fn spec_index(&self) -> Seq<u64> {
        self.index@
    }

    /// The latest time the store has seen; ingest and tick never go back
    /// before it.
    pub closed spec fn spec_latest(&self) -> u64 {
        self.latest
    }

    /// Internal consistency of the table: the index mirrors the array entry
    /// for entry, signatures are unique, every pattern is consistent, and no
    /// pattern was seen after the store's latest time.
    pub closed spec fn wf(&self) -> bool {
        &&& self.index@.len() == self.patterns@.len()
        &&& forall|i: int|
            0 <= i < self.patterns@.len() ==> self.index@[i] == fnv1a_of(
                (#[trigger] self.patterns@[i])@.canonical,
            )
        &&& unique_sigs(self.spec_patterns())
        &&& forall|i: int|
            0 <= i < self.patterns@.len() ==> pattern_wf((#[trigger] self.patterns@[i])@)
        &&& forall|i: int|
            0 <= i < self.patterns@.len() ==> (#[trigger] self.patterns@[i])@.last_seen
                <= self.latest
    }

    pub fn new() -> (s: PatternStore)
        ensures
            s.wf(),
            s.spec_patterns().len() == 0,
            s.spec_index().len() == 0,
            s.spec_latest() == 0,
    {
        PatternStore { patterns: Vec::new(), index: Vec::new(), latest: 0 }
    }

    /// Number of patterns in the table. The hash index always agrees with
    /// the dense array in size: one entry per pattern.
    pub fn len(&self) -> (n: usize)
        ensures
            n == self.spec_patterns().len(),
            self.wf() ==> self.spec_index().len() == self.spec_patterns().len(),
    {
        self.patterns.len()
    }

    /// The hash index and the dense array agree on membership: one entry per
    /// pattern, carrying the hash of that pattern's signature.
    pub proof fn lemma_index_matches(&self)
        requires
            self.wf(),
        ensures
            self.spec_index().len() == self.spec_patterns().len(),
            forall|i: int|
                0 <= i < self.spec_patterns().len() ==> self.spec_index()[i] == fnv1a_of(
                    (#[trigger] self.spec_patterns()[i]).canonical,
                ),
    {
    }

    /// Every pattern was first seen no later than last seen, and its sample
    /// ring is bounded by ten.
    pub proof fn lemma_pattern_bounds(&self)
        requires
            self.wf(),
        ensures
            forall|i: int|
                0 <= i < self.spec_patterns().len() ==> (
                #[trigger] self.spec_patterns()[i]).first_seen
                    <= self.spec_patterns()[i].last_seen
                    && self.spec_patterns()[i].samples.len() <= MAX_SAMPLES,
    {
    }

    /// Every pattern's one-minute window is a suffix of its five-minute
    /// window: a timestamp within the last minute is also within the last
    /// five minutes.
    pub proof fn lemma_windows_nested(&self)
        requires
            self.wf(),
        ensures
            forall|i: int|
                0 <= i < self.spec_patterns().len() ==> suffix_of(
                    (#[trigger] self.spec_patterns()[i]).window_1m,
                    self.spec_patterns()[i].window_5m,
                ),
    {
    }

    /// At most one pattern carries any given signature.
    pub proof fn lemma_signatures_unique(&self)
        requires
            self.wf(),
        ensures
            unique_sigs(self.spec_patterns()),
    {
    }

    /// Read-only view of the dense pattern array. Every pattern was first
    /// seen no later than last seen, its sample ring is bounded, and no two
    /// patterns share a signature.
    pub fn patterns(&self) -> (r: &[Pattern])
        ensures
            r@.len() == self.spec_patterns().len(),
            forall|i: int| 0 <= i < r@.len() ==> (#[trigger] r@[i])@ == self.spec_patterns()[i],
    {
        self.patterns.as_slice()
    }




    /// Fold one canonicalized line into the table: update the pattern that
    /// carries the signature, or append a fresh one.
    pub fn ingest(&mut self, event: &LogEvent, now: u64)
        requires
            old(self).wf(),
        ensures
            final(self).wf(),
            final(self).spec_latest() == max64(now, old(self).spec_latest()),
            final(self).spec_patterns() == ingest_transition(
                old(self).spec_patterns(),
                event.normalized@,
                event.raw@,
                event.level,
                event.source@,
                max64(now, old(self).spec_latest()),
            ),
            final(self).spec_index() == (if find_sig(old(self).spec_patterns(), event.normalized@)
                >= 0 {
                old(self).spec_index()
            } else {
                old(self).spec_index().push(fnv1a_of(event.normalized@))
            }),
            // ingest can only raise a pattern's severity
            forall|i: int|
                0 <= i < old(self).spec_patterns().len() ==> (#[trigger] final(self).spec_patterns()[i]).level.spec_severity() >= old(self).spec_patterns()[i].level.spec_severity(),
    {
        let ghost ps0 = self.spec_patterns();
        let ghost sig = event.normalized@;
        let t = if now >= self.latest {
            now
        } else {
            self.latest
        };
        self.latest = t;
        let h = hash_str(event.normalized.as_str());
        let n = self.patterns.len();
        let mut k: usize = 0;
        while k < n
            invariant
                n == self.patterns@.len(),
                k <= n,
                forall|m: int| 0 <= m < k ==> (#[trigger] ps0[m]).canonical != sig,
                ps0 == self.spec_patterns(),
                ps0 == old(self).spec_patterns(),
                sig == event.normalized@,
                self.index@ == old(self).index@,
                self.latest == t,
                t == max64(now, old(self).spec_latest()),
                self.index@.len() == self.patterns@.len(),
                forall|i: int|
                    0 <= i < self.patterns@.len() ==> self.index@[i] == fnv1a_of(
                        (#[trigger] self.patterns@[i])@.canonical,
                    ),
                unique_sigs(ps0),
                forall|i: int| 0 <= i < ps0.len() ==> pattern_wf(#[trigger] ps0[i]),
                forall|i: int| 0 <= i < ps0.len() ==> (#[trigger] ps0[i]).last_seen <= t,
                h == fnv1a_of(sig),
            decreases n - k,
        {
            if self.index[k] == h {
                if self.patterns[k].canonical.eq(&event.normalized) {
                    proof {
                        lemma_find_sig(ps0, sig);
                        assert(ps0[k as int] =~= (self.patterns@[k as int])@);
                        assert((self.patterns@[k as int])@.canonical == (
                        self.patterns@[k as int]).canonical@);
                        assert((self.patterns@[k as int]).canonical@ == event.normalized@);
                        assert(ps0[k as int].canonical =~= sig);
                        assert(find_sig(ps0, sig) == k as int);
                    }
                    self.patterns[k].record(
                        event.raw.clone(),
                        event.level,
                        event.source.as_str(),
                        t,
                    );
                    proof {
                        lemma_recorded_wf(ps0[k as int], event.raw@, event.level, event.source@, t);
                        assert(self.spec_patterns() =~= ingest_transition(
                            ps0,
                            sig,
                            event.raw@,
                            event.level,
                            event.source@,
                            t,
                        ));
                        assert forall|i: int, j: int|
                            0 <= i < j < self.spec_patterns().len() implies (
                        #[trigger] self.spec_patterns()[i]).canonical != (
                        #[trigger] self.spec_patterns()[j]).canonical by {
                            assert(self.spec_patterns()[i].canonical == ps0[i].canonical);
                            assert(self.spec_patterns()[j].canonical == ps0[j].canonical);
                        }
                        assert forall|i: int|
                            0 <= i < self.patterns@.len() implies pattern_wf(
                            (#[trigger] self.patterns@[i])@,
                        ) && (self.patterns@[i])@.last_seen <= self.latest by {
                            if i == k as int {
                                assert((self.patterns@[i])@ == recorded(
                                    ps0[i],
                                    event.raw@,
                                    event.level,
                                    event.source@,
                                    t,
                                ));
                            } else {
                                assert((self.patterns@[i])@ == ps0[i]);
                            }
                        }
                        assert forall|i: int|
                            0 <= i < self.patterns@.len() implies self.index@[i] == fnv1a_of(
                            (#[trigger] self.patterns@[i])@.canonical,
                        ) by {
                            if i == k as int {
                                assert((self.patterns@[i])@.canonical == ps0[i].canonical);
                            } else {
                                assert((self.patterns@[i])@ == ps0[i]);
                            }
                        }
                        assert(self.wf());
                    }
                    return ;
                }
            } else {
                proof {
                    assert(self.index@[k as int] == fnv1a_of(ps0[k as int].canonical));
                    assert(ps0[k as int].canonical != sig);
                }
            }
            k = k + 1;
        }
        proof {
            lemma_find_sig(ps0, sig);
            if find_sig(ps0, sig) >= 0 {
                assert(ps0[find_sig(ps0, sig)].canonical == sig);
                assert(false);
            }
        }
        let p = Pattern::new(
            event.normalized.clone(),
            event.level,
            event.raw.clone(),
            event.source.clone(),
            t,
        );
        self.patterns.push(p);
        self.index.push(h);
        proof {
            assert(self.spec_patterns() =~= ps0.push(
                fresh_pattern(sig, event.level, event.raw@, event.source@, t),
            ));
            assert forall|i: int|
                0 <= i < self.patterns@.len() implies self.index@[i] == fnv1a_of(
                (#[trigger] self.patterns@[i])@.canonical,
            ) by {
                if i < self.patterns@.len() - 1 {
                    assert((self.patterns@[i])@ == ps0[i]);
                }
            }
            assert forall|i: int, j: int|
                0 <= i < j < self.spec_patterns().len() implies (
            #[trigger] self.spec_patterns()[i]).canonical != (
            #[trigger] self.spec_patterns()[j]).canonical by {
                if j < self.spec_patterns().len() - 1 {
                    assert(self.spec_patterns()[i] == ps0[i]);
                    assert(self.spec_patterns()[j] == ps0[j]);
                } else {
                    assert(self.spec_patterns()[i] == ps0[i]);
                    assert(self.spec_patterns()[j].canonical == sig);
                }
            }
            let fp = fresh_pattern(sig, event.level, event.raw@, event.source@, t);
            assert(pattern_wf(fp)) by {
                assert(fp.window_1m == seq![t]);
                assert(fp.window_1m.len() == 1);
                assert(fp.window_1m[0] == t);
                assert(fp.window_5m.len() == 1);
                assert(fp.window_5m[0] == t);
                assert(fp.samples.len() == 1);
                assert(fp.buckets.len() == 0);
                assert(fp.window_1m =~= fp.window_5m.subrange(0, 1));
            }
            assert forall|i: int|
                0 <= i < self.patterns@.len() implies pattern_wf(
                (#[trigger] self.patterns@[i])@,
            ) && (self.patterns@[i])@.last_seen <= self.latest by {
                if i < self.patterns@.len() - 1 {
                    assert((self.patterns@[i])@ == ps0[i]);
                } else {
                    assert((self.patterns@[i])@ == fp);
                }
            }
            assert(self.wf());
        }
    }

    /// Prune every pattern's windows, advance its sparkline, and recompute
    /// its trend and spike flags.
    pub fn tick(&mut self, now: u64)
        requires
            old(self).wf(),
        ensures
            final(self).wf(),
            final(self).spec_latest() == max64(now, old(self).spec_latest()),
            final(self).spec_index() == old(self).spec_index(),
            final(self).spec_patterns() == old(self).spec_patterns().map_values(
                |p: PatternV| ticked(p, max64(now, old(self).spec_latest())),
            ),
            // after a tick no surviving window timestamp is stale
            forall|i: int, k: int|
                0 <= i < final(self).spec_patterns().len() && 0 <= k < final(self).spec_patterns()[i].window_1m.len() ==> max64(now, old(self).spec_latest()) - (
                #[trigger] final(self).spec_patterns()[i].window_1m[k]) <= WINDOW_1M_MS,
            forall|i: int, k: int|
                0 <= i < final(self).spec_patterns().len() && 0 <= k < final(self).spec_patterns()[i].window_5m.len() ==> max64(now, old(self).spec_latest()) - (
                #[trigger] final(self).spec_patterns()[i].window_5m[k]) <= WINDOW_5M_MS,
            // a spike needs both a rate burst and more than ten lines
            forall|i: int|
                0 <= i < final(self).spec_patterns().len() ==> (#[trigger] final(self).spec_patterns()[i]).spike == (5 * final(self).spec_patterns()[i].window_1m.len()
                    > 3 * final(self).spec_patterns()[i].window_5m.len() && final(self).spec_patterns()[i].count_total > 10),
    {
        let ghost ps0 = self.spec_patterns();
        let t = if now >= self.latest {
            now
        } else {
            self.latest
        };
        self.latest = t;
        let n = self.patterns.len();
        let mut i: usize = 0;
        while i < n
            invariant
                n == self.patterns@.len(),
                i <= n,
                self.patterns@.len() == ps0.len(),
                self.index@.len() == ps0.len(),
                self.index@ == old(self).index@,
                self.latest == t,
                unique_sigs(ps0),
                forall|k: int|
                    0 <= k < ps0.len() ==> self.index@[k] == fnv1a_of((#[trigger] ps0[k]).canonical),
                forall|k: int| 0 <= k < ps0.len() ==> (#[trigger] ps0[k]).last_seen <= t,
                forall|j: int| 0 <= j < i ==> (#[trigger] self.patterns@[j])@ == ticked(ps0[j], t),
                forall|j: int| i <= j < n ==> (#[trigger] self.patterns@[j])@ == ps0[j],
                forall|j: int| 0 <= j < n ==> pattern_wf(#[trigger] ps0[j]),
            decreases n - i,
        {
            proof {
                lemma_prune_props(ps0[i as int].window_1m, t, WINDOW_1M_MS);
                lemma_prune_props(ps0[i as int].window_5m, t, WINDOW_5M_MS);
                lemma_spark_bound(
                    ps0[i as int].buckets,
                    ps0[i as int].current_bucket,
                    ps0[i as int].last_advance,
                    t,
                );
            }
            self.patterns[i].prune_windows(t);
            self.patterns[i].update_trend();
            i = i + 1;
        }
        proof {
            assert(self.spec_patterns() =~= ps0.map_values(|p: PatternV| ticked(p, t)));
            assert forall|j: int| 0 <= j < self.patterns@.len() implies pattern_wf(
                (#[trigger] self.patterns@[j])@,
            ) && (self.patterns@[j])@.last_seen <= self.latest by {
                lemma_prune_props(ps0[j].window_1m, t, WINDOW_1M_MS);
                lemma_prune_props(ps0[j].window_5m, t, WINDOW_5M_MS);
                lemma_prune_keeps_suffix(ps0[j].window_1m, ps0[j].window_5m, t);
                lemma_spark_bound(ps0[j].buckets, ps0[j].current_bucket, ps0[j].last_advance, t);
                assert((self.patterns@[j])@ == ticked(ps0[j], t));
            }
            assert forall|i2: int, k: int|
                0 <= i2 < self.spec_patterns().len() && 0 <= k
                    < self.spec_patterns()[i2].window_1m.len() implies t - (
            #[trigger] self.spec_patterns()[i2].window_1m[k]) <= WINDOW_1M_MS by {
                lemma_prune_props(ps0[i2].window_1m, t, WINDOW_1M_MS);
            }
            assert forall|i2: int, k: int|
                0 <= i2 < self.spec_patterns().len() && 0 <= k
                    < self.spec_patterns()[i2].window_5m.len() implies t - (
            #[trigger] self.spec_patterns()[i2].window_5m[k]) <= WINDOW_5M_MS by {
                lemma_prune_props(ps0[i2].window_5m, t, WINDOW_5M_MS);
            }
        }
    }

    /// Zero every pattern's counters, windows and sparkline; the patterns
    /// themselves, their signatures, samples, seen times and sources stay.
    pub fn clear_counters(&mut self, now: u64)
        requires
            old(self).wf(),
        ensures
            final(self).wf(),
            final(self).spec_latest() == max64(now, old(self).spec_latest()),
            final(self).spec_index() == old(self).spec_index(),
            final(self).spec_patterns() == old(self).spec_patterns().map_values(
                |p: PatternV| cleared(p, max64(now, old(self).spec_latest())),
            ),
    {
        let ghost ps0 = self.spec_patterns();
        let t = if now >= self.latest {
            now
        } else {
            self.latest
        };
        self.latest = t;
        let n = self.patterns.len();
        let mut i: usize = 0;
        while i < n
            invariant
                n == self.patterns@.len(),
                i <= n,
                self.patterns@.len() == ps0.len(),
                self.index@.len() == ps0.len(),
                self.index@ == old(self).index@,
                self.latest == t,
                unique_sigs(ps0),
                forall|k: int|
                    0 <= k < ps0.len() ==> self.index@[k] == fnv1a_of((#[trigger] ps0[k]).canonical),
                forall|k: int| 0 <= k < ps0.len() ==> pattern_wf(#[trigger] ps0[k]),
                forall|k: int| 0 <= k < ps0.len() ==> (#[trigger] ps0[k]).last_seen <= t,
                forall|j: int| 0 <= j < i ==> (#[trigger] self.patterns@[j])@ == cleared(ps0[j], t),
                forall|j: int| i <= j < n ==> (#[trigger] self.patterns@[j])@ == ps0[j],
            decreases n - i,
        {
            clear_one(&mut self.patterns, i, t);
            i = i + 1;
        }
        proof {
            assert(self.spec_patterns() =~= ps0.map_values(|p: PatternV| cleared(p, t)));
            assert forall|j: int| 0 <= j < self.patterns@.len() implies pattern_wf(
                (#[trigger] self.patterns@[j])@,
            ) by {
                let c = cleared(ps0[j], t);
                assert((self.patterns@[j])@ == c);
                assert(c.window_1m =~= c.window_5m.subrange(0, 0));
            }
        }
    }

    /// Drop every pattern and clear the hash index.
    pub fn reset(&mut self)
        ensures
            final(self).wf(),
            final(self).spec_patterns().len() == 0,
            final(self).spec_index().len() == 0,
            final(self).spec_latest() == old(self).spec_latest(),
    {
        self.patterns.clear();
        self.index.clear();
        proof {
            assert(self.spec_patterns() =~= Seq::<PatternV>::empty());
        }
    }

    /// Table order for display: one-minute rate descending, then last seen
    /// descending; equal patterns keep their table order.
    pub fn sorted_indices(&self) -> (r: Vec<usize>)
        ensures
            r@.len() == self.spec_patterns().len(),
            forall|i: int| 0 <= i < r@.len() ==> (#[trigger] r@[i]) < self.spec_patterns().len(),
            forall|i: int, j: int| 0 <= i < j < r@.len() ==> r@[i] != r@[j],
            forall|i: int, j: int|
                0 <= i <= j < r@.len() ==> pat_before(
                    self.spec_patterns()[#[trigger] r@[i] as int],
                    self.spec_patterns()[#[trigger] r@[j] as int],
                ),
    {
        let ghost ps = self.spec_patterns();
        let n = self.patterns.len();
        let mut out: Vec<usize> = Vec::new();
        let mut k: usize = 0;
        while k < n
            invariant
                n == self.patterns@.len(),
                ps == self.spec_patterns(),
                k <= n,
                out@.len() == k,
                forall|i: int| 0 <= i < out@.len() ==> (#[trigger] out@[i]) < k,
                forall|i: int, j: int| 0 <= i < j < out@.len() ==> out@[i] != out@[j],
                forall|i: int, j: int|
                    0 <= i <= j < out@.len() ==> pat_before(
                        ps[#[trigger] out@[i] as int],
                        ps[#[trigger] out@[j] as int],
                    ),
            decreases n - k,
        {
            let ghost out0 = out@;
            let mut pos: usize = 0;
            while pos < out.len() && cmp_before(&self.patterns[out[pos]], &self.patterns[k])
                invariant
                    n == self.patterns@.len(),
                    ps == self.spec_patterns(),
                    k < n,
                    out@ == out0,
                    out@.len() == k,
                    pos <= out@.len(),
                    forall|i: int| 0 <= i < out@.len() ==> (#[trigger] out@[i]) < k,
                    forall|i: int|
                        0 <= i < pos ==> pat_before(ps[#[trigger] out@[i] as int], ps[k as int]),
                decreases out@.len() - pos,
            {
                pos = pos + 1;
            }
            proof {
                out0.insert_ensures(pos as int, k);
            }
            out.insert(pos, k);
            proof {
                assert forall|i: int, j: int| 0 <= i <= j < out@.len() implies pat_before(
                    ps[#[trigger] out@[i] as int],
                    ps[#[trigger] out@[j] as int],
                ) by {
                    if i == j {
                    } else if j < pos {
                    } else if i < pos && j == pos {
                    } else if i < pos && j > pos {
                    } else if i == pos {
                        if j > pos {
                            assert(pat_before(ps[out0[pos as int] as int], ps[out0[j - 1] as int]));
                        }
                    } else {
                    }
                }
            }
            k = k + 1;
        }
        out
    }
}

fn cmp_before(a: &Pattern, b: &Pattern) -> (r: bool)
    ensures
        r == pat_before(a@, b@),
{
    a.timestamps_1m.len() > b.timestamps_1m.len() || (a.timestamps_1m.len()
        == b.timestamps_1m.len() && a.last_seen >= b.last_seen)
}

fn clear_one(patterns: &mut Vec<Pattern>, i: usize, now: u64)
    requires
        i < old(patterns)@.len(),
    ensures
        final(patterns)@.len() == old(patterns)@.len(),
        (final(patterns)@[i as int])@ == cleared((old(patterns)@[i as int])@, now),
        forall|j: int|
            0 <= j < old(patterns)@.len() && j != i ==> final(patterns)@[j] == old(patterns)@[j],
{
    let ghost o = (old(patterns)@[i as int])@;
    patterns[i].count_total = 0;
    patterns[i].timestamps_1m = Vec::new();
    patterns[i].timestamps_5m = Vec::new();
    patterns[i].sparkline_buckets = Vec::new();
    patterns[i].current_bucket_count = 0;
    patterns[i].sparkline_last_advance = now;
    patterns[i].trend = Trend::Stable;
    patterns[i].spike = false;
    proof {
        assert((patterns@[i as int])@ =~= cleared(o, now));
    }
}

/// What the recorded transition preserves of a pattern's consistency.
proof fn lemma_recorded_wf(p: PatternV, raw: Seq<char>, level: Level, source: Seq<char>, t: u64)
    requires
        pattern_wf(p),
        p.last_seen <= t,
    ensures
        pattern_wf(recorded(p, raw, level, source, t)),
        recorded(p, raw, level, source, t).last_seen == t,
{
    let q = recorded(p, raw, level, source, t);
    assert forall|i: int, j: int| 0 <= i <= j < q.window_1m.len() implies q.window_1m[i]
        <= q.window_1m[j] by {
        if j < p.window_1m.len() {
        } else {
            assert(q.window_1m[j] == t);
        }
    }
    assert forall|i: int, j: int| 0 <= i <= j < q.window_5m.len() implies q.window_5m[i]
        <= q.window_5m[j] by {
        if j < p.window_5m.len() {
        } else {
            assert(q.window_5m[j] == t);
        }
    }
    let l = p.window_1m.len() as int;
    let bl = p.window_5m.len() as int;
    assert forall|i: int| 0 <= i < q.window_1m.len() implies q.window_1m[i]
        == q.window_5m.subrange(bl + 1 - (l + 1), bl + 1)[i] by {
        if i < l {
            assert(p.window_1m[i] == p.window_5m.subrange(bl - l, bl)[i]);
        }
    }
    assert(q.window_1m =~= q.window_5m.subrange(
        q.window_5m.len() - q.window_1m.len(),
        q.window_5m.len() as int,
    ));
}

/// What pruning drops: the result is a suffix of the window, and everything
/// before it was stale.
pub proof fn lemma_prune_suffix(w: Seq<u64>, now: u64, width: u64)
    ensures
        prune_front(w, now, width).len() <= w.len(),
        prune_front(w, now, width) == w.subrange(
            w.len() - prune_front(w, now, width).len(),
            w.len() as int,
        ),
        forall|j: int|
            0 <= j < w.len() - prune_front(w, now, width).len() ==> now - (#[trigger] w[j])
                > width,
    decreases w.len(),
{
    if w.len() > 0 && now - w[0] > width {
        lemma_prune_suffix(w.drop_first(), now, width);
        let r = prune_front(w, now, width);
        assert(w.drop_first().subrange(
            w.drop_first().len() - r.len(),
            w.drop_first().len() as int,
        ) =~= w.subrange(w.len() - r.len(), w.len() as int));
        assert forall|j: int| 0 <= j < w.len() - r.len() implies now - (#[trigger] w[j])
            > width by {
            if j > 0 {
                assert(w.drop_first()[j - 1] == w[j]);
            }
        }
    } else {
        assert(prune_front(w, now, width) =~= w.subrange(0, w.len() as int));
    }
}

/// Pruning both windows keeps the one-minute window a suffix of the
/// five-minute window.
pub proof fn lemma_prune_keeps_suffix(w1: Seq<u64>, w5: Seq<u64>, now: u64)
    requires
        ts_sorted(w5),
        suffix_of(w1, w5),
    ensures
        suffix_of(
            prune_front(w1, now, WINDOW_1M_MS),
            prune_front(w5, now, WINDOW_5M_MS),
        ),
{
    let r1 = prune_front(w1, now, WINDOW_1M_MS);
    let r5 = prune_front(w5, now, WINDOW_5M_MS);
    let l = w1.len() as int;
    let bl = w5.len() as int;
    lemma_prune_suffix(w1, now, WINDOW_1M_MS);
    lemma_prune_suffix(w5, now, WINDOW_5M_MS);
    assert forall|i: int, j: int| 0 <= i <= j < w1.len() implies w1[i] <= w1[j] by {
        assert(w1[i] == w5[bl - l + i]);
        assert(w1[j] == w5[bl - l + j]);
    }
    lemma_prune_props(w1, now, WINDOW_1M_MS);
    if r1.len() == 0 {
        assert(r1 =~= r5.subrange(r5.len() - 0, r5.len() as int));
    } else {
        assert(r1[0] == w1[l - r1.len()]);
        assert(w1[l - r1.len()] == w5[bl - r1.len()]);
        assert(now - r1[0] <= WINDOW_1M_MS);
        if r5.len() < r1.len() {
            assert(bl - r1.len() < bl - r5.len());
            assert(now - w5[bl - r1.len()] > WINDOW_5M_MS);
            assert(false);
        }
        assert forall|i: int| 0 <= i < r1.len() implies r1[i] == r5.subrange(
            r5.len() - r1.len(),
            r5.len() as int,
        )[i] by {
            assert(r1[i] == w1[l - r1.len() + i]);
            assert(w1[l - r1.len() + i] == w5[bl - l + (l - r1.len() + i)]);
            assert(r5[r5.len() - r1.len() + i] == w5[bl - r5.len() + (r5.len() - r1.len() + i)]);
        }
        assert(r1 =~= r5.subrange(r5.len() - r1.len(), r5.len() as int));
    }
}

/// Pruning a sorted window keeps it sorted, keeps every bound it obeyed, and
/// leaves no timestamp more than `width` before `now`.
pub proof fn lemma_prune_props(w: Seq<u64>, now: u64, width: u64)
    requires
        ts_sorted(w),
    ensures
        ts_sorted(prune_front(w, now, width)),
        forall|b: u64| ts_below(w, b) ==> ts_below(prune_front(w, now, width), b),
        forall|k: int|
            0 <= k < prune_front(w, now, width).len() ==> now - prune_front(w, now, width)[k]
                <= width,
    decreases w.len(),
{
    if w.len() > 0 && now - w[0] > width {
        assert forall|i: int, j: int| 0 <= i <= j < w.drop_first().len() implies w.drop_first()[i]
            <= w.drop_first()[j] by {
            assert(w.drop_first()[i] == w[i + 1]);
            assert(w.drop_first()[j] == w[j + 1]);
        }
        lemma_prune_props(w.drop_first(), now, width);
        assert forall|b: u64| ts_below(w, b) implies ts_below(
            prune_front(w, now, width),
            b,
        ) by {
            assert(ts_below(w.drop_first(), b));
        }
    } else {
        if w.len() > 0 {
            assert forall|k: int| 0 <= k < w.len() implies now - w[k] <= width by {
                assert(w[0] <= w[k]);
            }
        }
    }
}

/// Advancing the sparkline keeps the bucket ring within its bound.
proof fn lemma_spark_bound(b: Seq<u16>, cur: u16, last: u64, now: u64)
    requires
        b.len() <= SPARK_BUCKET_COUNT,
    ensures
        spark_advanced(b, cur, last, now).0.len() <= SPARK_BUCKET_COUNT,
    decreases now - last,
{
    if last <= now && now - last >= SPARK_BUCKET_MS {
        let nb = b.push(cur);
        let nb2 = if nb.len() > SPARK_BUCKET_COUNT {
            nb.drop_first()
        } else {
            nb
        };
        lemma_spark_bound(nb2, 0, (last + SPARK_BUCKET_MS) as u64, now);
    }
}

// ---------------------------------------------------------------------------
// Laws about repeated ingestion
// ---------------------------------------------------------------------------

/// How many patterns carry the signature.
pub open spec fn count_sig(ps: Seq<PatternV>, sig: Seq<char>) -> int
    decreases ps.len(),
{
    if ps.len() == 0 {
        0
    } else {
        (if ps[0].canonical == sig {
            1int
        } else {
            0int
        }) + count_sig(ps.drop_first(), sig)
    }
}

pub proof fn lemma_count_sig_find(ps: Seq<PatternV>, sig: Seq<char>)
    requires
        unique_sigs(ps),
    ensures
        find_sig(ps, sig) >= 0 ==> count_sig(ps, sig) == 1,
        find_sig(ps, sig) < 0 ==> count_sig(ps, sig) == 0,
    decreases ps.len(),
{
    if ps.len() == 0 {
    } else {
        assert forall|i: int, j: int| 0 <= i < j < ps.drop_first().len() implies (
        #[trigger] ps.drop_first()[i]).canonical != (#[trigger] ps.drop_first()[j]).canonical by {
            assert(ps.drop_first()[i] == ps[i + 1]);
            assert(ps.drop_first()[j] == ps[j + 1]);
        }
        lemma_count_sig_find(ps.drop_first(), sig);
        if ps[0].canonical == sig {
            lemma_find_sig(ps.drop_first(), sig);
            if find_sig(ps.drop_first(), sig) >= 0 {
                assert(ps.drop_first()[find_sig(ps.drop_first(), sig)].canonical == sig);
                assert(ps[find_sig(ps.drop_first(), sig) + 1].canonical == sig);
                assert(false);
            }
        }
    }
}

/// Ingesting a line whose signature is already in the table leaves exactly
/// one pattern with that signature and raises its count by one; ingesting an
/// unseen signature creates exactly one pattern with count one. Signatures
/// stay unique, so ingesting the same line `N` times yields one pattern whose
/// count is `N`.
pub proof fn lemma_ingest_clusters(
    ps: Seq<PatternV>,
    sig: Seq<char>,
    raw: Seq<char>,
    level: Level,
    source: Seq<char>,
    t: u64,
)
    requires
        unique_sigs(ps),
    ensures
        unique_sigs(ingest_transition(ps, sig, raw, level, source, t)),
        count_sig(ingest_transition(ps, sig, raw, level, source, t), sig) == 1,
        find_sig(ps, sig) >= 0 ==> ingest_transition(ps, sig, raw, level, source, t)[find_sig(
            ps,
            sig,
        )].count_total == sat_add64(ps[find_sig(ps, sig)].count_total),
        find_sig(ps, sig) < 0 ==> ingest_transition(ps, sig, raw, level, source, t).last()
            .count_total == 1,
{
    let after = ingest_transition(ps, sig, raw, level, source, t);
    lemma_find_sig(ps, sig);
    if find_sig(ps, sig) >= 0 {
        let j = find_sig(ps, sig);
        assert(after =~= ps.update(j, recorded(ps[j], raw, level, source, t)));
        assert(unique_sigs(after));
        lemma_count_sig_unchanged(ps, after, sig);
        lemma_count_sig_find(ps, sig);
    } else {
        assert forall|i: int, j: int| 0 <= i < j < after.len() implies (
        #[trigger] after[i]).canonical != (#[trigger] after[j]).canonical by {
            if j == after.len() - 1 {
                assert(after[i] == ps[i]);
                assert(after[j].canonical == sig);
            }
        }
        lemma_count_sig_find(ps, sig);
        lemma_count_sig_push(ps, fresh_pattern(sig, level, raw, source, t), sig);
    }
}

proof fn lemma_count_sig_unchanged(ps: Seq<PatternV>, qs: Seq<PatternV>, sig: Seq<char>)
    requires
        ps.len() == qs.len(),
        forall|i: int| 0 <= i < ps.len() ==> ((#[trigger] ps[i]).canonical == sig <==> (
        #[trigger] qs[i]).canonical == sig),
    ensures
        count_sig(ps, sig) == count_sig(qs, sig),
    decreases ps.len(),
{
    if ps.len() > 0 {
        assert forall|i: int| 0 <= i < ps.drop_first().len() implies ((
        #[trigger] ps.drop_first()[i]).canonical == sig <==> (#[trigger] qs.drop_first()[i]).canonical
            == sig) by {
            assert(ps.drop_first()[i] == ps[i + 1]);
            assert(qs.drop_first()[i] == qs[i + 1]);
        }
        lemma_count_sig_unchanged(ps.drop_first(), qs.drop_first(), sig);
    }
}

proof fn lemma_count_sig_push(ps: Seq<PatternV>, p: PatternV, sig: Seq<char>)
    ensures
        count_sig(ps.push(p), sig) == count_sig(ps, sig) + (if p.canonical == sig {
            1int
        } else {
            0int
        }),
    decreases ps.len(),
{
    if ps.len() == 0 {
        assert(ps.push(p)[0] == p);
        assert(ps.push(p).drop_first() =~= Seq::<PatternV>::empty());
        assert(count_sig(Seq::<PatternV>::empty(), sig) == 0);
        assert(count_sig(ps, sig) == 0);
    } else {
        assert(ps.push(p)[0] == ps[0]);
        assert(ps.push(p).drop_first() =~= ps.drop_first().push(p));
        lemma_count_sig_push(ps.drop_first(), p, sig);
    }
}

/// The sample ring is strictly bounded: the eleventh sample pushes out the
/// first, and insertion order is kept.
pub proof fn lemma_sample_ring(p: PatternV, raw: Seq<char>, level: Level, source: Seq<char>, t: u64)
    requires
        p.samples.len() == MAX_SAMPLES,
    ensures
        recorded(p, raw, level, source, t).samples.len() == MAX_SAMPLES,
        recorded(p, raw, level, source, t).samples == p.samples.subrange(
            1,
            MAX_SAMPLES as int,
        ).push(raw),
{
    assert(recorded(p, raw, level, source, t).samples =~= p.samples.subrange(
        1,
        MAX_SAMPLES as int,
    ).push(raw));
}

/// A pattern with no activity in the last minute has an empty one-minute
/// window after the next tick, so its one-minute rate is zero.
pub proof fn lemma_idle_window_empties(p: PatternV, now: u64)
    requires
        ts_sorted(p.window_1m),
        forall|k: int| 0 <= k < p.window_1m.len() ==> now - (#[trigger] p.window_1m[k])
            > WINDOW_1M_MS,
    ensures
        ticked(p, now).window_1m.len() == 0,
{
    lemma_prune_all(p.window_1m, now, WINDOW_1M_MS);
}

proof fn lemma_prune_all(w: Seq<u64>, now: u64, width: u64)
    requires
        forall|k: int| 0 <= k < w.len() ==> now - (#[trigger] w[k]) > width,
    ensures
        prune_front(w, now, width).len() == 0,
    decreases w.len(),
{
    if w.len() > 0 {
        assert forall|k: int| 0 <= k < w.drop_first().len() implies now - (
        #[trigger] w.drop_first()[k]) > width by {
            assert(w.drop_first()[k] == w[k + 1]);
        }
        lemma_prune_all(w.drop_first(), now, width);
    }
}

} // verus!
