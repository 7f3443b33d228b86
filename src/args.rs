use itertools::Itertools;
use vstd::prelude::*;
use vstd::string::StringSliceAdditionalSpecFns;

verus! {

/// Relies on nothing of `humantime::DurationError` but its existence: values
/// are only carried.
#[verifier::external_type_specification]
#[verifier::external_body]
pub struct ExDurationError(humantime::DurationError);

/// A target to probe: an address (a host name or a literal address with its
/// port) and the statsd key of the counter that each probe increments.
#[derive(Debug, PartialEq)]
pub struct ProbeTarget {
    pub address: String,
    pub statsd_key: String,
}

/// A span of time: whole seconds and the nanoseconds beyond them.
#[derive(Clone, Copy, Debug, PartialEq, Eq, Structural)]
pub struct Interval {
    pub secs: u64,
    pub nanos: u32,
}

/// What a prober is built from: the tick period and the targets, in order.
pub struct Configuration {
    pub interval: Interval,
    pub targets: Vec<ProbeTarget>,
}

/// Why a configuration could not be built.
#[derive(Debug)]
pub enum Error {
    /// The interval text is not a duration.
    ParseDuration { source: humantime::DurationError },
    /// The interval text holds more than `MAX_INTERVAL_DIGITS` digits, and so
    /// may name a span too long to hold.
    IntervalTooLong,
}

/// The most digits an interval text may hold.
pub const MAX_INTERVAL_DIGITS: usize = 11;

/// The number of ASCII digits among `bytes`. In UTF-8 these bytes stand
/// only for the digit characters themselves.
pub open spec fn digit_count(bytes: Seq<u8>) -> nat
    decreases bytes.len(),
{
    if bytes.len() == 0 {
        0
    } else {
        let here: nat = if 48 <= bytes.last() <= 57 { 1 } else { 0 };
        digit_count(bytes.drop_last()) + here
    }
}

/// The seconds and nanoseconds of the duration that `humantime::parse_duration`
/// reads in `text`, or `None` where it refuses the text.
pub uninterp spec fn parsed_duration(text: Seq<char>) -> Option<(u64, u32)>;

/// Relies on `humantime::parse_duration`: whether it accepts the text, and
/// the duration it reads, depend on the text alone; the nanoseconds of a
/// `Duration` are below one billion. It panics only where the spans add up
/// to `u64::MAX` seconds; with at most eleven digits in the text they stay
/// below 4 * 10^18 seconds.
#[verifier::external_body]
fn parse_interval(text: &str) -> (r: Result<Interval, humantime::DurationError>)
    requires
        digit_count(text.spec_bytes()) <= MAX_INTERVAL_DIGITS,
    ensures
        r is Ok <==> parsed_duration(text@) is Some,
        r matches Ok(i) ==> parsed_duration(text@) == Some((i.secs, i.nanos)) && i.nanos < 1_000_000_000,
{
    humantime::parse_duration(text).map(|d| Interval { secs: d.as_secs(), nanos: d.subsec_nanos() })
}

/// Counts the ASCII digits of `text`.
pub fn count_digits(text: &str) -> (r: usize)
    ensures
        r == digit_count(text.spec_bytes()),
{
    let bytes = text.as_bytes();
    let mut count: usize = 0;
    let mut i: usize = 0;
    while i < bytes.len()
        invariant
            i <= bytes@.len(),
            bytes@ == text.spec_bytes(),
            count == digit_count(bytes@.subrange(0, i as int)),
            count <= i,
        decreases bytes@.len() - i,
    {
        assert(bytes@.subrange(0, i as int + 1).drop_last() =~= bytes@.subrange(0, i as int));
        if 48 <= bytes[i] && bytes[i] <= 57 {
            count = count + 1;
        }
        i = i + 1;
    }
    assert(bytes@.subrange(0, i as int) =~= bytes@);
    count
}

/// Relies on `Itertools::tuples`: consecutive values taken two by two, in
/// order; a last value without a partner is left out.
#[verifier::external_body]
fn pairs(values: Vec<String>) -> (r: Vec<(String, String)>)
    ensures
        r@.len() == values@.len() / 2,
        forall|i: int|
            0 <= i < r@.len() ==> (#[trigger] r@[i]).0@ == values@[2 * i]@ && r@[i].1@
                == values@[2 * i + 1]@,
{
    values.into_iter().tuples().collect()
}

/// `targets` holds one target per pair of consecutive `values`, address
/// first, in order.
pub open spec fn are_targets_of(targets: Seq<ProbeTarget>, values: Seq<String>) -> bool {
    &&& targets.len() == values.len() / 2
    &&& forall|i: int|
        0 <= i < targets.len() ==> (#[trigger] targets[i]).address@ == values[2 * i]@
            && targets[i].statsd_key@ == values[2 * i + 1]@
}

/// Reads targets from values that alternate address and statsd key; a last
/// address without a key is left out.
pub fn parse_targets(values: Vec<String>) -> (r: Vec<ProbeTarget>)
    ensures
        are_targets_of(r@, values@),
{
    let ghost given = values@;
    let pairs = pairs(values);
    let mut targets: Vec<ProbeTarget> = Vec::new();
    let mut i: usize = 0;
    while i < pairs.len()
        invariant
            i <= pairs@.len(),
            pairs@.len() == given.len() / 2,
            forall|j: int|
                0 <= j < pairs@.len() ==> (#[trigger] pairs@[j]).0@ == given[2 * j]@ && pairs@[j].1@
                    == given[2 * j + 1]@,
            targets@.len() == i,
            forall|j: int|
                0 <= j < i ==> (#[trigger] targets@[j]).address@ == given[2 * j]@
                    && targets@[j].statsd_key@ == given[2 * j + 1]@,
        decreases pairs@.len() - i,
    {
        let address = pairs[i].0.clone();
        let statsd_key = pairs[i].1.clone();
        targets.push(ProbeTarget { address, statsd_key });
        i = i + 1;
    }
    targets
}

/// Builds a configuration from the interval text and the target values.
pub fn build_configuration(interval: &str, target_values: Vec<String>) -> (r: Result<Configuration, Error>)
    ensures
        r matches Err(Error::IntervalTooLong) <==> digit_count(interval.spec_bytes()) > MAX_INTERVAL_DIGITS,
        digit_count(interval.spec_bytes()) <= MAX_INTERVAL_DIGITS ==> (r is Ok <==> parsed_duration(interval@) is Some),
        r matches Ok(c) ==> parsed_duration(interval@) == Some((c.interval.secs, c.interval.nanos)),
        r matches Ok(c) ==> are_targets_of(c.targets@, target_values@),
{
    if count_digits(interval) > MAX_INTERVAL_DIGITS {
        return Err(Error::IntervalTooLong);
    }
    match parse_interval(interval) {
        Ok(interval) => Ok(Configuration { interval, targets: parse_targets(target_values) }),
        Err(e) => Err(Error::ParseDuration { source: e }),
    }
}

} // verus!
