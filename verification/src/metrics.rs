//! Latency and outcome counts of a benchmark run.
//!
//! A [`Recorder`] counts successful and failed requests and keeps one latency
//! sample (in microseconds) per successful request in an HDR histogram, which
//! records in constant time with bounded memory. Recorders of concurrent
//! workers are merged into one at the end of a run.
use hdrhistogram::{AdditionError, CreationError, Histogram};
use std::time::Duration;
use vstd::multiset::Multiset;
use vstd::prelude::*;

verus! {

/// An HDR histogram of `u64` values. The verifier does not read inside it:
/// what it holds is named by [`histogram_samples`] and [`histogram_bounds`].
#[verifier::external_body]
pub struct LatencyHistogram {
    pub hist: Histogram<u64>,
}

#[verifier::external_type_specification]
#[verifier::external_body]
pub struct ExCreationError(CreationError);

#[verifier::external_type_specification]
#[verifier::external_body]
pub struct ExAdditionError(AdditionError);

/// What a histogram holds, read as a multiset of bucket values: each bucket
/// (named by the lowest value it covers) occurs as often as its count.
pub uninterp spec fn histogram_samples(h: LatencyHistogram) -> Multiset<u64>;

/// The bucket (named by the lowest value it covers) under which a histogram
/// made with bounds `low`, `high`, `sigfig` files the recorded `value`; a
/// value beyond its last bucket is filed under the highest trackable value.
pub uninterp spec fn bucket_floor(low: u64, high: u64, sigfig: u8, value: u64) -> u64;

/// The bounds a histogram was made with: lowest discernible value, highest
/// trackable value, significant decimal digits.
pub uninterp spec fn histogram_bounds(h: LatencyHistogram) -> (u64, u64, u8);

/// The whole microseconds of a duration (`Duration::as_micros`).
pub uninterp spec fn duration_micros(d: Duration) -> u128;

/// Calls `hdrhistogram::Histogram::new_with_bounds`. A histogram it returns
/// holds no sample and has the bounds it was given. It fails only on bounds it
/// cannot work with (a lowest value of 0 or above half the range, a highest
/// value under twice the lowest, more than 5 significant digits, or a
/// precision that cannot be represented at the lowest value); with a lowest
/// value of 1, a highest value of at least 2 and at most 5 digits none of
/// these holds, and it succeeds.
#[verifier::external_body]
fn histogram_with_bounds(low: u64, high: u64, sigfig: u8) -> (r: Result<LatencyHistogram, CreationError>)
    ensures
        match r {
            Ok(h) => histogram_samples(h) =~= Multiset::<u64>::empty() && histogram_bounds(h) == (
                low,
                high,
                sigfig,
            ),
            Err(_) => true,
        },
        (low == 1 && high >= 2 && sigfig <= 5) ==> r is Ok,
{
    match Histogram::<u64>::new_with_bounds(low, high, sigfig) {
        Ok(hist) => Ok(LatencyHistogram { hist }),
        Err(e) => Err(e),
    }
}

/// Calls `hdrhistogram::Histogram::saturating_record`, which adds one to the
/// count of the bucket that the value is filed under (see [`bucket_floor`])
/// and keeps the bounds. Counts saturate at `u64::MAX`, so the call is made
/// only below that total.
#[verifier::external_body]
fn histogram_saturating_record(h: &mut LatencyHistogram, value: u64)
    requires
        histogram_samples(*old(h)).len() < u64::MAX,
    ensures
        histogram_bounds(*final(h)) == histogram_bounds(*old(h)),
        histogram_samples(*final(h)) == histogram_samples(*old(h)).insert(
            bucket_floor(
                histogram_bounds(*old(h)).0,
                histogram_bounds(*old(h)).1,
                histogram_bounds(*old(h)).2,
                value,
            ),
        ),
{
    h.hist.saturating_record(value)
}

/// Calls `hdrhistogram::Histogram::add`. Two histograms made with the same
/// bounds cover the same values, so neither needs resizing and the addition
/// succeeds: the bucket counts of `source` are added to those of `h`, whose bounds
/// stay. Counts saturate at `u64::MAX`, so the call is made only when the
/// combined count fits.
#[verifier::external_body]
fn histogram_add(h: &mut LatencyHistogram, source: &LatencyHistogram) -> (r: Result<(), AdditionError>)
    requires
        histogram_bounds(*old(h)) == histogram_bounds(*source),
        histogram_samples(*old(h)).len() + histogram_samples(*source).len() <= u64::MAX,
    ensures
        r is Ok,
        histogram_bounds(*final(h)) == histogram_bounds(*old(h)),
        histogram_samples(*final(h)) == histogram_samples(*old(h)).add(histogram_samples(*source)),
{
    h.hist.add(&source.hist)
}

/// Calls `std::time::Duration::as_micros`, the whole microseconds of `d`.
#[verifier::external_body]
fn duration_as_micros(d: &Duration) -> (r: u128)
    ensures
        r == duration_micros(*d),
{
    d.as_micros()
}

/// The lowest latency the histogram tells apart, in microseconds.
pub const LATENCY_LOW_US: u64 = 1;

/// The highest latency the histogram tracks, in microseconds (120 s).
pub const LATENCY_HIGH_US: u64 = 120_000_000;

/// Significant decimal digits kept for latencies.
pub const LATENCY_SIGFIG: u8 = 3;

/// The sample recorded for a latency of `micros` microseconds: saturated
/// into `u64`, and at least 1.
pub open spec fn latency_sample(micros: u128) -> u64 {
    if micros > u64::MAX as u128 {
        u64::MAX
    } else if micros < 1 {
        1
    } else {
        micros as u64
    }
}

/// The bucket under which a recorder files a latency.
pub open spec fn latency_bucket(latency: Duration) -> u64 {
    bucket_floor(LATENCY_LOW_US, LATENCY_HIGH_US, LATENCY_SIGFIG, latency_sample(duration_micros(latency)))
}

/// Computes [`latency_sample`].
pub fn sample_of_micros(micros: u128) -> (r: u64)
    ensures
        r == latency_sample(micros),
{
    let us: u64 = if micros > u64::MAX as u128 {
        u64::MAX
    } else {
        micros as u64
    };
    if us < 1 {
        1
    } else {
        us
    }
}

/// Latency samples and success/failure counts of one benchmark run.
pub struct Recorder {
    hist: LatencyHistogram,
    success: u64,
    failure: u64,
}

impl Recorder {
    /// The latency samples recorded, each as the bucket it was filed under.
    pub closed spec fn samples(&self) -> Multiset<u64> {
        histogram_samples(self.hist)
    }

    /// The number of successful requests recorded.
    pub closed spec fn spec_success(&self) -> u64 {
        self.success
    }

    /// The number of failed requests recorded.
    pub closed spec fn spec_failure(&self) -> u64 {
        self.failure
    }

    /// The histogram has the latency bounds and holds one sample per
    /// successful request.
    pub closed spec fn wf(&self) -> bool {
        &&& histogram_bounds(self.hist) == (LATENCY_LOW_US, LATENCY_HIGH_US, LATENCY_SIGFIG)
        &&& histogram_samples(self.hist).len() == self.success
    }

    /// An empty recorder, for latencies from 1 µs to 120 s with 3 significant
    /// digits.
    pub fn new() -> (r: Self)
        ensures
            r.wf(),
            r.samples() =~= Multiset::<u64>::empty(),
            r.spec_success() == 0,
            r.spec_failure() == 0,
    {
        let hist = match histogram_with_bounds(LATENCY_LOW_US, LATENCY_HIGH_US, LATENCY_SIGFIG) {
            Ok(h) => h,
            Err(_) => vstd::pervasive::unreached(),
        };
        Recorder { hist, success: 0, failure: 0 }
    }

    /// Records a successful request and its latency (in whole microseconds,
    /// at least 1), filed under its bucket.
    pub fn record_success(&mut self, latency: Duration)
        requires
            old(self).wf(),
            old(self).spec_success() < u64::MAX,
        ensures
            final(self).wf(),
            final(self).spec_success() == old(self).spec_success() + 1,
            final(self).spec_failure() == old(self).spec_failure(),
            final(self).samples() == old(self).samples().insert(latency_bucket(latency)),
    {
        let us = sample_of_micros(duration_as_micros(&latency));
        histogram_saturating_record(&mut self.hist, us);
        self.success = self.success + 1;
    }

    /// Records a failed request (no latency sample).
    pub fn record_failure(&mut self)
        requires
            old(self).spec_failure() < u64::MAX,
        ensures
            final(self).spec_failure() == old(self).spec_failure() + 1,
            final(self).spec_success() == old(self).spec_success(),
            final(self).samples() == old(self).samples(),
            old(self).wf() ==> final(self).wf(),
    {
        self.failure = self.failure + 1;
    }

    /// Adds the samples and counts of another recorder (one worker's) to
    /// this one.
    pub fn merge(&mut self, other: &Recorder)
        requires
            old(self).wf(),
            other.wf(),
            old(self).spec_success() + other.spec_success() <= u64::MAX,
            old(self).spec_failure() + other.spec_failure() <= u64::MAX,
        ensures
            final(self).wf(),
            final(self).samples() == old(self).samples().add(other.samples()),
            final(self).spec_success() == old(self).spec_success() + other.spec_success(),
            final(self).spec_failure() == old(self).spec_failure() + other.spec_failure(),
    {
        let added = histogram_add(&mut self.hist, &other.hist);
        match added {
            Ok(()) => {},
            Err(_) => vstd::pervasive::unreached(),
        }
        self.success = self.success + other.success;
        self.failure = self.failure + other.failure;
    }

    /// The number of successful requests.
    pub fn success(&self) -> (r: u64)
        ensures
            r == self.spec_success(),
    {
        self.success
    }

    /// The number of failed requests.
    pub fn failure(&self) -> (r: u64)
        ensures
            r == self.spec_failure(),
    {
        self.failure
    }

    /// The number of requests recorded.
    pub fn total(&self) -> (r: u64)
        requires
            self.spec_success() + self.spec_failure() <= u64::MAX,
        ensures
            r == self.spec_success() + self.spec_failure(),
    {
        self.success + self.failure
    }

    /// Whether latency percentiles can be asked: at least one request
    /// succeeded, so the histogram holds a sample.
    pub fn has_latencies(&self) -> (r: bool)
        requires
            self.wf(),
        ensures
            r == (self.spec_success() > 0),
            r == (self.samples().len() > 0),
    {
        self.success > 0
    }

    /// The latency histogram (for percentile queries).
    pub fn histogram(&self) -> (r: &LatencyHistogram)
        ensures
            histogram_samples(*r) == self.samples(),
    {
        &self.hist
    }
}

impl Default for Recorder {
    fn default() -> (r: Self)
        ensures
            r.wf(),
            r.samples() =~= Multiset::<u64>::empty(),
            r.spec_success() == 0,
            r.spec_failure() == 0,
    {
        Recorder::new()
    }
}

/// A recorder holds exactly one latency sample per successful request.
pub proof fn law_one_sample_per_success(r: Recorder)
    requires
        r.wf(),
    ensures
        r.samples().len() == r.spec_success(),
{
}

} // verus!
