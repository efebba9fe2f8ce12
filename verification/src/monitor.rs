//! The sampling core: bounded per-port history and the per-tick engine that
//! turns raw counter readings into peak-held rate points.

use crate::data::PortType;
use crate::fast_io::CounterError;
use vstd::prelude::*;

verus! {

/// How many points one port's history retains (per direction).
pub const HISTORY_CAPACITY: usize = 200;

/// One committed aggregation point: a logical timestamp in milliseconds and
/// the peak rates, in bytes per second, observed in the window it closes.
#[derive(Debug, Clone, Copy, PartialEq, Eq, Structural)]
pub struct HistoryPoint {
    pub time_ms: u64,
    pub rx_rate: u64,
    pub tx_rate: u64,
}

/// What one bounded series looks like after appending a point: the point goes
/// on the back, and when the series is full the oldest entry leaves the front.
pub open spec fn series_push(s: Seq<(u64, u64)>, t: u64, v: u64) -> Seq<(u64, u64)> {
    if s.len() < HISTORY_CAPACITY {
        s.push((t, v))
    } else {
        s.skip(1).push((t, v))
    }
}

/// Bounded, strictly-FIFO time series for one port, written by that port's
/// engine and snapshotted by the renderer. The rx and tx series are parallel:
/// points are always appended as a pair so the time axes stay aligned.
pub struct PortHistory {
    pub name: String,
    pub port_type: PortType,
    /// (time in ms, rx rate in bytes/s) pairs, oldest first.
    pub rx_data: Vec<(u64, u64)>,
    /// (time in ms, tx rate in bytes/s) pairs, oldest first.
    pub tx_data: Vec<(u64, u64)>,
}

impl PortHistory {
    /// The two series hold the same number of points, never more than the
    /// capacity, and agree pairwise on their timestamps.
    pub open spec fn wf(self) -> bool {
        &&& self.rx_data@.len() == self.tx_data@.len()
        &&& self.rx_data@.len() <= HISTORY_CAPACITY
        &&& forall|i: int|
            0 <= i < self.rx_data@.len() ==> (#[trigger] self.rx_data@[i]).0 == self.tx_data@[i].0
    }

    pub fn new(name: String, port_type: PortType) -> (h: Self)
        ensures
            h.wf(),
            h.name == name,
            h.port_type == port_type,
            h.rx_data@ == Seq::<(u64, u64)>::empty(),
            h.tx_data@ == Seq::<(u64, u64)>::empty(),
    {
        Self { name, port_type, rx_data: Vec::new(), tx_data: Vec::new() }
    }

    /// Append one aggregated point to both series, evicting the oldest pair
    /// first when the history is at capacity.
    pub fn push_point(&mut self, time_ms: u64, rx: u64, tx: u64)
        requires
            old(self).wf(),
        ensures
            final(self).wf(),
            final(self).name == old(self).name,
            final(self).port_type == old(self).port_type,
            final(self).rx_data@ == series_push(old(self).rx_data@, time_ms, rx),
            final(self).tx_data@ == series_push(old(self).tx_data@, time_ms, tx),
    {
        if self.rx_data.len() >= HISTORY_CAPACITY {
            self.rx_data.remove(0);
            self.tx_data.remove(0);
            proof {
                assert(self.rx_data@ =~= old(self).rx_data@.skip(1));
                assert(self.tx_data@ =~= old(self).tx_data@.skip(1));
            }
        }
        self.rx_data.push((time_ms, rx));
        self.tx_data.push((time_ms, tx));
    }

    /// The largest rate in either series, in bytes per second; zero when
    /// the history is empty. The chart's Y axis is scaled to this.
    pub fn max_rate(&self) -> (r: u64)
        ensures
            r == max64(series_max(self.rx_data@), series_max(self.tx_data@)),
    {
        let rx_max = vec_rate_max(&self.rx_data);
        let tx_max = vec_rate_max(&self.tx_data);
        if rx_max >= tx_max {
            rx_max
        } else {
            tx_max
        }
    }
}

/// The largest rate in one series, zero when it is empty.
pub open spec fn series_max(s: Seq<(u64, u64)>) -> u64
    decreases s.len(),
{
    if s.len() == 0 {
        0u64
    } else {
        max64(series_max(s.drop_last()), s.last().1)
    }
}

fn vec_rate_max(v: &Vec<(u64, u64)>) -> (r: u64)
    ensures
        r == series_max(v@),
{
    let mut best: u64 = 0;
    let mut i: usize = 0;
    proof {
        assert(v@.take(0) =~= Seq::<(u64, u64)>::empty());
    }
    while i < v.len()
        invariant
            i <= v@.len(),
            best == series_max(v@.take(i as int)),
        decreases v@.len() - i,
    {
        proof {
            assert(v@.take(i + 1).drop_last() =~= v@.take(i as int));
            assert(v@.take(i + 1).last() == v@[i as int]);
        }
        if v[i].1 > best {
            best = v[i].1;
        }
        i = i + 1;
    }
    proof {
        assert(v@.take(v@.len() as int) =~= v@);
    }
    best
}

/// Nominal sampling period: one tick per millisecond.
pub const TICK_INTERVAL_NS: u64 = 1_000_000;

/// Aggregation window: one point is committed per 50 ms of wall time.
pub const COMMIT_INTERVAL_NS: u64 = 50_000_000;

/// A rate is computed only when more than this much wall time has elapsed
/// since the previous successful sample; shorter gaps are degenerate.
pub const MIN_ELAPSED_NS: u64 = 1_000;

/// How far the logical time axis advances per committed point.
pub const COMMIT_STEP_MS: u64 = 50;

pub const NS_PER_SEC: u64 = 1_000_000_000;

pub open spec fn max64(a: u64, b: u64) -> u64 {
    if a >= b {
        a
    } else {
        b
    }
}

pub open spec fn sat_add64(a: u64, b: u64) -> u64 {
    if a + b <= u64::MAX {
        (a + b) as u64
    } else {
        u64::MAX
    }
}

/// Absolute-deadline scheduling: the next wake time is the previous deadline
/// plus the fixed tick interval, unless that moment has already passed, in
/// which case the anchor resets to the present.
pub open spec fn next_deadline_spec(anchor_ns: u64, now_ns: u64) -> u64 {
    if sat_add64(anchor_ns, TICK_INTERVAL_NS) > now_ns {
        sat_add64(anchor_ns, TICK_INTERVAL_NS)
    } else {
        now_ns
    }
}

/// The rate, in bytes per second, that a raw counter delta stands for over an
/// elapsed wall time: `delta * bytes_per_count / seconds`, saturated at
/// `u64::MAX`.
pub open spec fn rate_spec(delta: u64, bytes_per_count: u64, elapsed_ns: u64) -> u64
    recommends
        elapsed_ns > 0,
{
    let r = delta * bytes_per_count * NS_PER_SEC / (elapsed_ns as int);
    if r <= u64::MAX {
        r as u64
    } else {
        u64::MAX
    }
}

/// Exact rate conversion on raw integers, saturating at `u64::MAX`.
pub fn compute_rate(delta: u64, bytes_per_count: u64, elapsed_ns: u64) -> (r: u64)
    requires
        elapsed_ns > 0,
        bytes_per_count <= 4,
    ensures
        r == rate_spec(delta, bytes_per_count, elapsed_ns),
{
    proof {
        assert((delta as int) * (bytes_per_count as int) * (NS_PER_SEC as int) < u128::MAX)
            by (nonlinear_arith)
            requires
                delta <= u64::MAX,
                bytes_per_count <= 4,
        ;
    }
    let wide: u128 = (delta as u128) * (bytes_per_count as u128) * (NS_PER_SEC as u128);
    let q: u128 = wide / (elapsed_ns as u128);
    if q > u64::MAX as u128 {
        u64::MAX
    } else {
        q as u64
    }
}

/// A counter that advances at a constant true rate of `r` raw units per
/// second gives, on any tick whose delta matches that rate exactly over the
/// elapsed time, a computed rate of exactly `r * bytes_per_count` bytes per
/// second — the engine's output converges to the true byte rate, with no
/// drift from the tick or window cadence.
pub proof fn lemma_constant_rate(delta: u64, r: u64, bytes_per_count: u64, elapsed_ns: u64)
    requires
        elapsed_ns > 0,
        delta * NS_PER_SEC == r * elapsed_ns,
        r * bytes_per_count <= u64::MAX,
    ensures
        rate_spec(delta, bytes_per_count, elapsed_ns) == r * bytes_per_count,
{
    assert(delta * bytes_per_count * NS_PER_SEC == (r * bytes_per_count) * elapsed_ns)
        by (nonlinear_arith)
        requires
            delta * NS_PER_SEC == r * elapsed_ns,
    ;
    vstd::arithmetic::div_mod::lemma_div_by_multiple(
        (r * bytes_per_count) as int,
        elapsed_ns as int,
    );
}

/// The peak-hold accumulator after a window that starts at `w0` absorbs the
/// rates of `rates`, in order.
pub open spec fn window_after(w0: u64, rates: Seq<u64>) -> u64
    decreases rates.len(),
{
    if rates.len() == 0 {
        w0
    } else {
        max64(window_after(w0, rates.drop_last()), rates.last())
    }
}

/// Absorbing one window after another is the same as absorbing their
/// concatenation: a commit moment at which the writer lock was unavailable
/// leaves the accumulator untouched, so the extended window up to a later
/// successful commit still accumulates exactly the maximum over everything
/// observed since the last successful commit.
pub proof fn lemma_window_extend(w0: u64, r1: Seq<u64>, r2: Seq<u64>)
    ensures
        window_after(w0, r1 + r2) == window_after(window_after(w0, r1), r2),
    decreases r2.len(),
{
    if r2.len() == 0 {
        assert(r1 + r2 =~= r1);
    } else {
        assert((r1 + r2).drop_last() =~= r1 + r2.drop_last());
        lemma_window_extend(w0, r1, r2.drop_last());
    }
}

/// What peak-hold means: the accumulator ends up no smaller than its start
/// and than every rate it absorbed, and it equals one of those — the window
/// commits the maximum rate observed, not the latest and not an average.
pub proof fn lemma_window_is_peak(w0: u64, rates: Seq<u64>)
    ensures
        window_after(w0, rates) >= w0,
        forall|i: int| 0 <= i < rates.len() ==> window_after(w0, rates) >= rates[i],
        window_after(w0, rates) == w0 || exists|i: int|
            0 <= i < rates.len() && rates[i] == window_after(w0, rates),
    decreases rates.len(),
{
    if rates.len() > 0 {
        lemma_window_is_peak(w0, rates.drop_last());
        assert(forall|i: int| 0 <= i < rates.len() - 1 ==> rates[i] == rates.drop_last()[i]);
        if window_after(w0, rates) == rates.last() {
            assert(rates[rates.len() - 1] == window_after(w0, rates));
        }
    }
}

/// One bounded series after the points of `points` are pushed, in order,
/// into an initially empty history.
pub open spec fn series_after(points: Seq<(u64, u64)>) -> Seq<(u64, u64)>
    decreases points.len(),
{
    if points.len() == 0 {
        Seq::empty()
    } else {
        series_push(series_after(points.drop_last()), points.last().0, points.last().1)
    }
}

/// As long as a series stays within capacity, pushing only appends: the
/// series holds exactly the points pushed so far, in order.
pub proof fn lemma_series_within_capacity(points: Seq<(u64, u64)>)
    requires
        points.len() <= HISTORY_CAPACITY,
    ensures
        series_after(points) =~= points,
    decreases points.len(),
{
    if points.len() > 0 {
        lemma_series_within_capacity(points.drop_last());
    }
}

/// Strict FIFO eviction at capacity: pushing capacity-plus-one points into
/// an empty history yields exactly capacity points — the oldest point is
/// gone and the remaining points keep their relative order.
pub proof fn lemma_series_evicts_oldest(points: Seq<(u64, u64)>)
    requires
        points.len() == HISTORY_CAPACITY + 1,
    ensures
        series_after(points) =~= points.skip(1),
{
    lemma_series_within_capacity(points.drop_last());
}

/// Per-port sampling engine. One instance runs on its own thread of
/// execution for the life of the process: each tick it takes the two fresh
/// counter readings and the current monotonic time, updates its baseline and
/// the window's peak-hold accumulators, and periodically offers one
/// aggregated point for a non-blocking commit into the shared history.
pub struct SamplingEngine {
    /// Unit multiplier fixed from the port type at construction.
    pub bytes_per_count: u64,
    /// Raw counter values of the previous successful sample pair.
    pub prev_rx: u64,
    pub prev_tx: u64,
    /// Whether a baseline sample pair has been established yet.
    pub initialized: bool,
    /// Monotonic time of the previous successful sample pair, in ns.
    pub prev_sample_ns: u64,
    /// Peak rates observed since the last successful commit, in bytes/s.
    pub window_max_rx: u64,
    pub window_max_tx: u64,
    /// Monotonic time of the last successful commit, in ns.
    pub last_commit_ns: u64,
    /// Absolute deadline of the next tick, in ns (drift-corrected anchor).
    pub next_tick_ns: u64,
    /// Logical time axis of the next committed point, in ms.
    pub logical_time_ms: u64,
}

impl SamplingEngine {
    pub open spec fn wf(self) -> bool {
        self.bytes_per_count == 1 || self.bytes_per_count == 4
    }

    /// Whether a sample pair read at `now_ns` contributes a rate: enough wall
    /// time has passed, and neither counter went backwards (a decrease means
    /// wraparound or reset, and is discarded rather than turned into a
    /// negative or inflated rate).
    pub open spec fn tick_counts(self, rx_now: u64, tx_now: u64, now_ns: u64) -> bool {
        &&& now_ns - self.prev_sample_ns > MIN_ELAPSED_NS
        &&& rx_now >= self.prev_rx
        &&& tx_now >= self.prev_tx
    }

    /// The rx peak-hold accumulator after an initialized engine takes in a
    /// successful sample pair: the running maximum absorbs the tick's rate
    /// when the tick counts, and is untouched otherwise.
    pub open spec fn window_rx_after(self, rx_now: u64, tx_now: u64, now_ns: u64) -> u64 {
        if self.tick_counts(rx_now, tx_now, now_ns) {
            max64(
                self.window_max_rx,
                rate_spec(
                    (rx_now - self.prev_rx) as u64,
                    self.bytes_per_count,
                    (now_ns - self.prev_sample_ns) as u64,
                ),
            )
        } else {
            self.window_max_rx
        }
    }

    /// The tx counterpart of `window_rx_after`.
    pub open spec fn window_tx_after(self, rx_now: u64, tx_now: u64, now_ns: u64) -> u64 {
        if self.tick_counts(rx_now, tx_now, now_ns) {
            max64(
                self.window_max_tx,
                rate_spec(
                    (tx_now - self.prev_tx) as u64,
                    self.bytes_per_count,
                    (now_ns - self.prev_sample_ns) as u64,
                ),
            )
        } else {
            self.window_max_tx
        }
    }

    pub fn new(port_type: PortType, start_ns: u64) -> (e: Self)
        ensures
            e.wf(),
            e.bytes_per_count == port_type.spec_bytes_per_count(),
            !e.initialized,
            e.prev_sample_ns == start_ns,
            e.last_commit_ns == start_ns,
            e.next_tick_ns == start_ns,
            e.window_max_rx == 0,
            e.window_max_tx == 0,
            e.logical_time_ms == 0,
    {
        Self {
            bytes_per_count: port_type.bytes_per_count(),
            prev_rx: 0,
            prev_tx: 0,
            initialized: false,
            prev_sample_ns: start_ns,
            window_max_rx: 0,
            window_max_tx: 0,
            last_commit_ns: start_ns,
            next_tick_ns: start_ns,
            logical_time_ms: 0,
        }
    }

    /// One sampling tick. A failed read (either direction) contributes
    /// nothing and leaves the whole state untouched; the engine keeps
    /// running. The first successful pair only establishes the baseline. A
    /// later successful pair always advances the baseline to the new values,
    /// and feeds the peak-hold accumulators exactly when it counts: enough
    /// elapsed time and no counter decrease.
    pub fn tick(
        &mut self,
        rx: Result<u64, CounterError>,
        tx: Result<u64, CounterError>,
        now_ns: u64,
    )
        requires
            old(self).wf(),
            now_ns >= old(self).prev_sample_ns,
        ensures
            final(self).wf(),
            final(self).bytes_per_count == old(self).bytes_per_count,
            final(self).last_commit_ns == old(self).last_commit_ns,
            final(self).next_tick_ns == old(self).next_tick_ns,
            final(self).logical_time_ms == old(self).logical_time_ms,
            (rx is Err || tx is Err) ==> *final(self) == *old(self),
            (rx is Ok && tx is Ok && !old(self).initialized) ==> *final(self) == (Self {
                prev_rx: rx.unwrap(),
                prev_tx: tx.unwrap(),
                initialized: true,
                prev_sample_ns: now_ns,
                ..*old(self)
            }),
            (rx is Ok && tx is Ok && old(self).initialized) ==> *final(self) == (Self {
                prev_rx: rx.unwrap(),
                prev_tx: tx.unwrap(),
                prev_sample_ns: now_ns,
                window_max_rx: old(self).window_rx_after(rx.unwrap(), tx.unwrap(), now_ns),
                window_max_tx: old(self).window_tx_after(rx.unwrap(), tx.unwrap(), now_ns),
                ..*old(self)
            }),
            (rx is Ok && tx is Ok) ==> *final(self) == old(self).tick_step(
                rx.unwrap(),
                tx.unwrap(),
                now_ns,
            ),
    {
        if let (Ok(rx_now), Ok(tx_now)) = (rx, tx) {
            if self.initialized {
                let elapsed_ns = now_ns - self.prev_sample_ns;
                if elapsed_ns > MIN_ELAPSED_NS && rx_now >= self.prev_rx && tx_now
                    >= self.prev_tx {
                    let rx_rate = compute_rate(rx_now - self.prev_rx, self.bytes_per_count,
                        elapsed_ns);
                    let tx_rate = compute_rate(tx_now - self.prev_tx, self.bytes_per_count,
                        elapsed_ns);
                    if rx_rate > self.window_max_rx {
                        self.window_max_rx = rx_rate;
                    }
                    if tx_rate > self.window_max_tx {
                        self.window_max_tx = tx_rate;
                    }
                }
                self.prev_rx = rx_now;
                self.prev_tx = tx_now;
                self.prev_sample_ns = now_ns;
            } else {
                self.prev_rx = rx_now;
                self.prev_tx = tx_now;
                self.initialized = true;
                self.prev_sample_ns = now_ns;
            }
        }
    }

    /// Whether the aggregation window is over, so that this tick should
    /// attempt a (non-blocking) commit.
    pub fn commit_due(&self, now_ns: u64) -> (due: bool)
        ensures
            due == (self.last_commit_ns + COMMIT_INTERVAL_NS <= now_ns),
    {
        now_ns >= self.last_commit_ns && now_ns - self.last_commit_ns >= COMMIT_INTERVAL_NS
    }

    /// The point a commit would publish right now: the window's peak rates at
    /// the engine's logical timestamp.
    pub fn commit_point(&self) -> (p: HistoryPoint)
        ensures
            p.time_ms == self.logical_time_ms,
            p.rx_rate == self.window_max_rx,
            p.tx_rate == self.window_max_tx,
    {
        HistoryPoint {
            time_ms: self.logical_time_ms,
            rx_rate: self.window_max_rx,
            tx_rate: self.window_max_tx,
        }
    }

    /// Record the outcome of a commit attempt. Only a successful commit
    /// resets the peak-hold accumulators and opens the next window; a failed
    /// try-acquire changes nothing, so the accumulated peak stays eligible
    /// and is retried at the next tick.
    pub fn on_commit_attempt(&mut self, now_ns: u64, acquired: bool)
        requires
            old(self).wf(),
        ensures
            final(self).wf(),
            !acquired ==> *final(self) == *old(self),
            acquired ==> *final(self) == (Self {
                window_max_rx: 0,
                window_max_tx: 0,
                last_commit_ns: now_ns,
                logical_time_ms: sat_add64(old(self).logical_time_ms, COMMIT_STEP_MS),
                ..*old(self)
            }),
    {
        if acquired {
            self.window_max_rx = 0;
            self.window_max_tx = 0;
            self.last_commit_ns = now_ns;
            self.logical_time_ms = if self.logical_time_ms <= u64::MAX - COMMIT_STEP_MS {
                self.logical_time_ms + COMMIT_STEP_MS
            } else {
                u64::MAX
            };
        }
    }

    /// The engine state after one successful sample pair, as `tick` leaves
    /// it: the first pair establishes the baseline, every later pair
    /// advances it and feeds the peak-hold window when the tick counts.
    pub open spec fn tick_step(self, rx_now: u64, tx_now: u64, now_ns: u64) -> SamplingEngine {
        if !self.initialized {
            SamplingEngine {
                prev_rx: rx_now,
                prev_tx: tx_now,
                initialized: true,
                prev_sample_ns: now_ns,
                ..self
            }
        } else {
            SamplingEngine {
                prev_rx: rx_now,
                prev_tx: tx_now,
                prev_sample_ns: now_ns,
                window_max_rx: self.window_rx_after(rx_now, tx_now, now_ns),
                window_max_tx: self.window_tx_after(rx_now, tx_now, now_ns),
                ..self
            }
        }
    }

    /// Advance the absolute tick deadline and say when the loop should next
    /// wake: the previous deadline plus the fixed interval — never "now plus
    /// interval", so per-iteration jitter does not accumulate into drift.
    /// If that deadline has already passed (persistent overrun), the anchor
    /// resets to the present instead of piling up a backlog of catch-up
    /// ticks.
    pub fn next_wake(&mut self, now_ns: u64) -> (wake_ns: u64)
        requires
            old(self).wf(),
        ensures
            final(self).wf(),
            wake_ns == next_deadline_spec(old(self).next_tick_ns, now_ns),
            *final(self) == (Self { next_tick_ns: wake_ns, ..*old(self) }),
    {
        let bumped = if self.next_tick_ns <= u64::MAX - TICK_INTERVAL_NS {
            self.next_tick_ns + TICK_INTERVAL_NS
        } else {
            u64::MAX
        };
        if bumped > now_ns {
            self.next_tick_ns = bumped;
        } else {
            self.next_tick_ns = now_ns;
        }
        self.next_tick_ns
    }
}

/// The engine after a whole run of successful sample pairs, each given as
/// (rx counter, tx counter, time in ns), applied oldest first.
pub open spec fn engine_after(s: SamplingEngine, samples: Seq<(u64, u64, u64)>) -> SamplingEngine
    decreases samples.len(),
{
    if samples.len() == 0 {
        s
    } else {
        engine_after(s, samples.drop_last()).tick_step(
            samples.last().0,
            samples.last().1,
            samples.last().2,
        )
    }
}

/// The rx rates of exactly those samples of the run that count: the engine
/// was past its baseline and the sample showed enough elapsed time and no
/// counter decrease.
pub open spec fn rx_rates_of(s: SamplingEngine, samples: Seq<(u64, u64, u64)>) -> Seq<u64>
    decreases samples.len(),
{
    if samples.len() == 0 {
        Seq::empty()
    } else {
        let prev = engine_after(s, samples.drop_last());
        let smp = samples.last();
        if prev.initialized && prev.tick_counts(smp.0, smp.1, smp.2) {
            rx_rates_of(s, samples.drop_last()).push(
                rate_spec((smp.0 - prev.prev_rx) as u64, prev.bytes_per_count, (smp.2
                    - prev.prev_sample_ns) as u64),
            )
        } else {
            rx_rates_of(s, samples.drop_last())
        }
    }
}

/// The tx counterpart of `rx_rates_of`.
pub open spec fn tx_rates_of(s: SamplingEngine, samples: Seq<(u64, u64, u64)>) -> Seq<u64>
    decreases samples.len(),
{
    if samples.len() == 0 {
        Seq::empty()
    } else {
        let prev = engine_after(s, samples.drop_last());
        let smp = samples.last();
        if prev.initialized && prev.tick_counts(smp.0, smp.1, smp.2) {
            tx_rates_of(s, samples.drop_last()).push(
                rate_spec((smp.1 - prev.prev_tx) as u64, prev.bytes_per_count, (smp.2
                    - prev.prev_sample_ns) as u64),
            )
        } else {
            tx_rates_of(s, samples.drop_last())
        }
    }
}

/// Peak-hold over a whole run: after any sequence of successful samples the
/// engine's window accumulators hold exactly the peak-hold fold of the
/// rates of the ticks that counted. With `lemma_window_is_peak` this says
/// the point a commit publishes carries the maximum rate observed in the
/// window — wraparound ticks, degenerate gaps and the samples before the
/// baseline contribute nothing.
pub proof fn lemma_engine_accumulates_peak(s: SamplingEngine, samples: Seq<(u64, u64, u64)>)
    ensures
        engine_after(s, samples).window_max_rx == window_after(
            s.window_max_rx,
            rx_rates_of(s, samples),
        ),
        engine_after(s, samples).window_max_tx == window_after(
            s.window_max_tx,
            tx_rates_of(s, samples),
        ),
    decreases samples.len(),
{
    if samples.len() > 0 {
        lemma_engine_accumulates_peak(s, samples.drop_last());
        let prev = engine_after(s, samples.drop_last());
        let smp = samples.last();
        if prev.initialized && prev.tick_counts(smp.0, smp.1, smp.2) {
            assert(rx_rates_of(s, samples).drop_last() =~= rx_rates_of(s, samples.drop_last()));
            assert(tx_rates_of(s, samples).drop_last() =~= tx_rates_of(s, samples.drop_last()));
        }
    }
}

} // verus!
