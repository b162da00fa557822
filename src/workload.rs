//! Load phases and the read/write draw made on each request tick.

use vstd::prelude::*;
use rand::Rng;

verus! {

/// Ratios are counted in parts of this many: a ratio of `RATIO_SCALE` means
/// every request is a read, `0` means every request is a write.
pub const RATIO_SCALE: u64 = 1000000;

/// One segment of the workload: its read share, the pause between two
/// requests and how long it lasts.
#[derive(Clone, Copy, Debug, PartialEq, Eq, Structural)]
pub struct WorkloadPhase {
    read_ratio: u64,
    request_delay_ms: u64,
    phase_duration_ms: u64,
}

impl WorkloadPhase {
    pub closed spec fn read_ratio_spec(&self) -> u64 {
        self.read_ratio
    }

    pub closed spec fn request_delay_spec(&self) -> u64 {
        self.request_delay_ms
    }

    pub closed spec fn phase_duration_spec(&self) -> u64 {
        self.phase_duration_ms
    }

    /// A phase with the given read share (in parts of `RATIO_SCALE`), request
    /// delay and duration, both in milliseconds. `None` where the share lies
    /// outside `[0, RATIO_SCALE]` or the delay or the duration is zero: each
    /// drives a periodic timer.
    pub fn new(read_ratio: u64, request_delay_ms: u64, phase_duration_ms: u64) -> (r: Option<
        WorkloadPhase,
    >)
        ensures
            r is Some <==> (read_ratio <= RATIO_SCALE && request_delay_ms > 0 && phase_duration_ms > 0),
            r is Some ==> r->Some_0.read_ratio_spec() == read_ratio
                && r->Some_0.request_delay_spec() == request_delay_ms
                && r->Some_0.phase_duration_spec() == phase_duration_ms,
    {
        if read_ratio <= RATIO_SCALE && request_delay_ms > 0 && phase_duration_ms > 0 {
            Some(WorkloadPhase { read_ratio, request_delay_ms, phase_duration_ms })
        } else {
            None
        }
    }

    pub fn get_read_ratio(&self) -> (r: u64)
        ensures
            r == self.read_ratio_spec(),
    {
        self.read_ratio
    }

    pub fn get_request_delay(&self) -> (r: u64)
        ensures
            r == self.request_delay_spec(),
    {
        self.request_delay_ms
    }

    pub fn get_interval_duration(&self) -> (r: u64)
        ensures
            r == self.phase_duration_spec(),
    {
        self.phase_duration_ms
    }
}

/// A tick with uniform sample `sample` in `[0, RATIO_SCALE)` is a write iff
/// the sample is not below the read share.
pub open spec fn is_write_draw(sample: u64, read_ratio: u64) -> bool {
    sample >= read_ratio
}

/// Classifies a request tick as write (`true`) or read (`false`).
pub fn classify_tick(sample: u64, read_ratio: u64) -> (r: bool)
    ensures
        r == is_write_draw(sample, read_ratio),
{
    sample >= read_ratio
}

/// Relies on rand 0.8's `thread_rng().gen_range(0..bound)`: a sample below
/// `bound`; it panics on an empty range, which `bound > 0` excludes.
#[verifier::external_body]
fn sample_below(bound: u64) -> (r: u64)
    requires
        bound > 0,
    ensures
        r < bound,
{
    rand::thread_rng().gen_range(0..bound)
}

/// Draws the uniform sample for one request tick.
pub fn draw_sample() -> (r: u64)
    ensures
        r < RATIO_SCALE,
{
    sample_below(RATIO_SCALE)
}

/// How many of the samples `0 .. n` classify as reads.
pub open spec fn reads_among(n: nat, read_ratio: u64) -> nat
    decreases n,
{
    if n == 0 {
        0
    } else {
        reads_among((n - 1) as nat, read_ratio) + if is_write_draw((n - 1) as u64, read_ratio) {
            0nat
        } else {
            1nat
        }
    }
}

/// Of the `RATIO_SCALE` equally likely samples, exactly `read_ratio` make a
/// read and the rest a write, so the read share of a phase converges to its
/// ratio.
pub proof fn lemma_read_share(read_ratio: u64)
    requires
        read_ratio <= RATIO_SCALE,
    ensures
        reads_among(RATIO_SCALE as nat, read_ratio) == read_ratio,
{
    lemma_reads_among_prefix(RATIO_SCALE as nat, read_ratio);
}

proof fn lemma_reads_among_prefix(n: nat, read_ratio: u64)
    requires
        n <= RATIO_SCALE,
    ensures
        reads_among(n, read_ratio) == if n < read_ratio { n } else { read_ratio as nat },
    decreases n,
{
    if n > 0 {
        lemma_reads_among_prefix((n - 1) as nat, read_ratio);
    }
}

} // verus!
