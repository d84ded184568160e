//! Per-control signal conditioning: a rolling average, a delta threshold and
//! a debounce interval turn the stream of raw hardware samples into a sparser
//! stream of accepted values. Raw endpoint samples (0 and 255) bypass every
//! stage so the physical extremes always stay reachable.

use vstd::prelude::*;

verus! {

use vstd::arithmetic::div_mod::{lemma_div_is_ordered, lemma_div_by_multiple};

/// Per-control signal processing pipeline.
///
/// Stages: rolling average -> delta threshold -> debounce.
/// Endpoints (0, 255) always pass through regardless of the settings.
#[derive(Debug)]
pub struct SignalPipeline {
    /// Rolling average window, oldest sample first.
    pub window: Vec<u8>,
    /// Capacity of the window; at least 1.
    pub window_size: usize,
    /// Suppress output if the change from the last emitted value is smaller
    /// than this.
    pub delta_threshold: u8,
    /// Suppress output if fewer than this many milliseconds passed since the
    /// last emission (0 disables debouncing).
    pub debounce_ms: u64,
    /// Last value that passed through the pipeline.
    pub last_emitted: Option<u8>,
    /// Timestamp (milliseconds) of the last emission.
    pub last_emit_time: Option<u64>,
}

/// The mathematical state of a pipeline.
pub ghost struct PipelineModel {
    pub window: Seq<u8>,
    pub window_size: nat,
    pub delta_threshold: u8,
    pub debounce_ms: u64,
    pub last_emitted: Option<u8>,
    pub last_emit_time: Option<u64>,
}

impl View for SignalPipeline {
    type V = PipelineModel;

    open spec fn view(&self) -> PipelineModel {
        PipelineModel {
            window: self.window@,
            window_size: self.window_size as nat,
            delta_threshold: self.delta_threshold,
            debounce_ms: self.debounce_ms,
            last_emitted: self.last_emitted,
            last_emit_time: self.last_emit_time,
        }
    }
}

impl PipelineModel {
    /// The window never exceeds its capacity, which is at least 1.
    pub open spec fn wf(self) -> bool {
        1 <= self.window_size && self.window.len() <= self.window_size
    }
}

/// Sum of a sequence of samples.
pub open spec fn sum_of(s: Seq<u8>) -> int
    decreases s.len(),
{
    if s.len() == 0 {
        0
    } else {
        s[0] + sum_of(s.drop_first())
    }
}

/// Integer-truncated mean of a non-empty window.
pub open spec fn mean_of(s: Seq<u8>) -> u8
    recommends
        s.len() > 0,
{
    (sum_of(s) / s.len() as int) as u8
}

/// The window after pushing `raw`, dropping the oldest sample once full.
pub open spec fn pushed_window(w: Seq<u8>, raw: u8, size: nat) -> Seq<u8> {
    if w.len() + 1 > size {
        w.push(raw).drop_first()
    } else {
        w.push(raw)
    }
}

/// Milliseconds elapsed from `t` to `now` (clamped at zero if time went
/// backwards).
pub open spec fn elapsed_ms(t: u64, now: u64) -> int {
    if now >= t {
        now - t
    } else {
        0
    }
}

/// Stage 2: the mean is suppressed when it differs from the last emitted
/// value by less than the threshold (never before the first emission).
pub open spec fn delta_suppressed(m: PipelineModel, avg: u8) -> bool {
    match m.last_emitted {
        Some(last) => abs_diff(avg, last) < m.delta_threshold,
        None => false,
    }
}

/// Absolute difference of two samples.
pub open spec fn abs_diff(a: u8, b: u8) -> int {
    if a >= b {
        a - b
    } else {
        b - a
    }
}

/// Stage 3: suppressed when a debounce interval is configured and too little
/// time passed since the last emission.
pub open spec fn debounce_suppressed(m: PipelineModel, now: u64) -> bool {
    m.debounce_ms > 0 && match m.last_emit_time {
        Some(t) => elapsed_ms(t, now) < m.debounce_ms,
        None => false,
    }
}

/// What one processing step does: the successor state and the emitted value,
/// for every possible input.
pub open spec fn process_step(m: PipelineModel, raw: u8, now: u64) -> (PipelineModel, Option<u8>) {
    if raw == 0 || raw == 255 {
        (
            PipelineModel {
                window: seq![raw],
                last_emitted: Some(raw),
                last_emit_time: Some(now),
                ..m
            },
            Some(raw),
        )
    } else {
        let w = pushed_window(m.window, raw, m.window_size);
        let avg = mean_of(w);
        if delta_suppressed(m, avg) || debounce_suppressed(m, now) {
            (PipelineModel { window: w, ..m }, None)
        } else {
            (
                PipelineModel {
                    window: w,
                    last_emitted: Some(avg),
                    last_emit_time: Some(now),
                    ..m
                },
                Some(avg),
            )
        }
    }
}

/// An endpoint sample is always emitted unchanged, whatever the pipeline's
/// configuration and state.
pub proof fn lemma_endpoint_bypass(m: PipelineModel, raw: u8, now: u64)
    requires
        raw == 0 || raw == 255,
    ensures
        process_step(m, raw, now).1 == Some(raw),
{
}

/// Sum over one more element.
proof fn lemma_sum_of_snoc(s: Seq<u8>, n: int)
    requires
        0 <= n < s.len(),
    ensures
        sum_of(s.take(n + 1)) == sum_of(s.take(n)) + s[n],
    decreases n,
{
    if n == 0 {
        assert(s.take(1) =~= seq![s[0]]);
        assert(s.take(1).drop_first() =~= Seq::<u8>::empty());
        assert(s.take(0) =~= Seq::<u8>::empty());
    } else {
        lemma_sum_of_snoc(s.drop_first(), n - 1);
        assert(s.take(n + 1).drop_first() =~= s.drop_first().take(n));
        assert(s.take(n).drop_first() =~= s.drop_first().take(n - 1));
        assert(s.drop_first()[n - 1] == s[n]);
        assert(s.take(n + 1)[0] == s[0]);
        assert(s.take(n)[0] == s[0]);
    }
}

/// The sum of a window is at most 255 per sample.
proof fn lemma_sum_of_bound(s: Seq<u8>)
    ensures
        0 <= sum_of(s) <= 255 * s.len(),
    decreases s.len(),
{
    if s.len() > 0 {
        lemma_sum_of_bound(s.drop_first());
    }
}

/// The mean of a window is itself a valid sample.
proof fn lemma_mean_in_range(s: Seq<u8>)
    requires
        s.len() > 0,
    ensures
        0 <= sum_of(s) / s.len() as int <= 255,
{
    lemma_sum_of_bound(s);
    lemma_div_is_ordered(sum_of(s), 255 * s.len() as int, s.len() as int);
    lemma_div_by_multiple(255, s.len() as int);
    lemma_div_is_ordered(0, sum_of(s), s.len() as int);
}

impl SignalPipeline {
    /// Create a pipeline with the given parameters; a window size of 0 is
    /// clamped to 1.
    pub fn new(window_size: usize, delta_threshold: u8, debounce_ms: u64) -> (r: Self)
        ensures
            r@.wf(),
            r@.window =~= Seq::<u8>::empty(),
            r@.window_size == if window_size >= 1 { window_size as nat } else { 1nat },
            r@.delta_threshold == delta_threshold,
            r@.debounce_ms == debounce_ms,
            r@.last_emitted is None,
            r@.last_emit_time is None,
    {
        let window_size = if window_size >= 1 { window_size } else { 1 };
        SignalPipeline {
            window: Vec::new(),
            window_size,
            delta_threshold,
            debounce_ms,
            last_emitted: None,
            last_emit_time: None,
        }
    }

    /// A pipeline with the default slider parameters.
    pub fn slider_defaults() -> (r: Self)
        ensures
            r@.wf(),
            r@.window =~= Seq::<u8>::empty(),
            r@.window_size == 5,
            r@.delta_threshold == 2,
            r@.debounce_ms == 10,
            r@.last_emitted is None,
            r@.last_emit_time is None,
    {
        Self::new(5, 2, 10)
    }

    /// A pipeline with the default knob parameters.
    pub fn knob_defaults() -> (r: Self)
        ensures
            r@.wf(),
            r@.window =~= Seq::<u8>::empty(),
            r@.window_size == 3,
            r@.delta_threshold == 1,
            r@.debounce_ms == 0,
            r@.last_emitted is None,
            r@.last_emit_time is None,
    {
        Self::new(3, 1, 0)
    }

    /// Process a raw hardware sample at an explicit timestamp (milliseconds).
    ///
    /// Returns `Some(value)` if the value should be emitted, `None` if it was
    /// suppressed; the state changes exactly as [`process_step`] says.
    pub fn process_at(&mut self, raw: u8, now: u64) -> (r: Option<u8>)
        requires
            old(self)@.wf(),
        ensures
            final(self)@.wf(),
            (final(self)@, r) == process_step(old(self)@, raw, now),
    {
        if raw == 0 || raw == 255 {
            self.window.clear();
            self.window.push(raw);
            self.last_emitted = Some(raw);
            self.last_emit_time = Some(now);
            proof {
                assert(self@.window =~= seq![raw]);
                assert(self@ =~= process_step(old(self)@, raw, now).0);
            }
            return Some(raw);
        }

        // Stage 1: rolling average
        self.window.push(raw);
        if self.window.len() > self.window_size {
            self.window.remove(0);
            proof {
                assert(self.window@ =~= pushed_window(old(self)@.window, raw, old(
                    self,
                )@.window_size));
            }
        } else {
            proof {
                assert(self.window@ =~= pushed_window(old(self)@.window, raw, old(
                    self,
                )@.window_size));
            }
        }

        let n = self.window.len();
        let mut sum: u128 = 0;
        let mut i: usize = 0;
        proof {
            assert(self.window@.take(0) =~= Seq::<u8>::empty());
            lemma_sum_of_bound(self.window@);
        }
        while i < n
            invariant
                n == self.window@.len(),
                i <= n,
                sum == sum_of(self.window@.take(i as int)),
                sum <= 255 * i,
            decreases n - i,
        {
            proof {
                lemma_sum_of_snoc(self.window@, i as int);
                lemma_sum_of_bound(self.window@.take(i as int));
            }
            sum = sum + self.window[i] as u128;
            i = i + 1;
        }
        proof {
            assert(self.window@.take(n as int) =~= self.window@);
            lemma_mean_in_range(self.window@);
        }
        let avg = (sum / n as u128) as u8;
        assert(avg == mean_of(self.window@));

        // Stage 2: delta threshold
        if let Some(last) = self.last_emitted {
            let delta = if avg >= last {
                avg - last
            } else {
                last - avg
            };
            if delta < self.delta_threshold {
                return None;
            }
        }

        // Stage 3: debounce
        if self.debounce_ms > 0 {
            if let Some(last_time) = self.last_emit_time {
                let elapsed = if now >= last_time {
                    now - last_time
                } else {
                    0
                };
                if elapsed < self.debounce_ms {
                    return None;
                }
            }
        }

        self.last_emitted = Some(avg);
        self.last_emit_time = Some(now);
        Some(avg)
    }

    /// Process a raw hardware sample, timestamped with the current time.
    pub fn process(&mut self, raw: u8) -> (r: Option<u8>)
        requires
            old(self)@.wf(),
        ensures
            final(self)@.wf(),
            exists|now: u64| (final(self)@, r) == process_step(old(self)@, raw, now),
    {
        let now = now_millis();
        let r = self.process_at(raw, now);
        proof {
            assert((final(self)@, r) == process_step(old(self)@, raw, now));
        }
        r
    }

    /// Reset the filter state (window, last emitted value and time); the
    /// configured parameters stay. Used on reconnect or reconfiguration.
    pub fn reset(&mut self)
        ensures
            old(self)@.wf() ==> final(self)@.wf(),
            final(self)@.window =~= Seq::<u8>::empty(),
            final(self)@.last_emitted is None,
            final(self)@.last_emit_time is None,
            final(self)@.window_size == old(self)@.window_size,
            final(self)@.delta_threshold == old(self)@.delta_threshold,
            final(self)@.debounce_ms == old(self)@.debounce_ms,
    {
        self.window.clear();
        self.last_emitted = None;
        self.last_emit_time = None;
    }
}

/// Relies on std::time::SystemTime::now: the current wall-clock time, read as
/// whole milliseconds since the Unix epoch. Nothing is promised of the value.
#[verifier::external_body]
fn now_millis() -> u64 {
    match std::time::SystemTime::now().duration_since(std::time::UNIX_EPOCH) {
        Ok(d) => d.as_millis() as u64,
        Err(_) => 0,
    }
}

} // verus!
