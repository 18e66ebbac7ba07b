//! The diagnostic branch: one random draw, one log record.
//!
//! A draw is a fraction in `[0, 1)`. It is kept in fixed point, as the
//! numerator over [`SAMPLE_RESOLUTION`], so that the threshold test is
//! integer arithmetic. A draw below one half is reported at informational
//! severity, any other at error severity. The record is handed back to the
//! caller, who owns the log sink.

use rand::Rng;
use vstd::prelude::*;

verus! {

/// The denominator of a [`UnitSample`]: a sample is one of this many
/// equally spaced fractions `0/2^24, 1/2^24, ..`, all below one.
pub const SAMPLE_RESOLUTION: u32 = 0x100_0000;

/// How loudly a record is logged.
#[derive(Clone, Copy, PartialEq, Eq, Debug, Structural)]
pub enum Severity {
    Info,
    Error,
}

/// A fraction in `[0, 1)`, held as its numerator over [`SAMPLE_RESOLUTION`].
#[derive(Clone, Copy, Debug)]
pub struct UnitSample {
    numerator: u32,
}

/// One log record, ready for the sink.
#[derive(Debug)]
pub struct LogRecord {
    pub severity: Severity,
    pub message: String,
}

/// The severity that a sample with this numerator is logged at:
/// informational exactly when the fraction is strictly below one half.
pub open spec fn severity_of(numerator: int) -> Severity {
    if 2 * numerator < SAMPLE_RESOLUTION {
        Severity::Info
    } else {
        Severity::Error
    }
}

/// The text logged at each severity.
pub open spec fn message_of(severity: Severity) -> Seq<char> {
    match severity {
        Severity::Info => "C"@,
        Severity::Error => "E"@,
    }
}

/// Whether `record` is the one record written for a sample with this numerator.
pub open spec fn is_record_of(record: LogRecord, numerator: int) -> bool {
    &&& record.severity == severity_of(numerator)
    &&& record.message@ == message_of(record.severity)
}

/// The numerators of the samples that are logged at `severity`.
pub open spec fn outcomes(severity: Severity) -> Set<int> {
    Set::new(|n: int| 0 <= n < SAMPLE_RESOLUTION && severity_of(n) == severity)
}

impl UnitSample {
    #[verifier::type_invariant]
    spec fn below_one(self) -> bool {
        self.numerator < SAMPLE_RESOLUTION
    }

    /// The numerator of the fraction; the denominator is [`SAMPLE_RESOLUTION`].
    pub closed spec fn numerator(self) -> int {
        self.numerator as int
    }

    /// The sample that a uniformly drawn 32-bit word stands for: its 24 most
    /// significant bits, read as a fraction. Each sample comes from exactly
    /// 256 words, so uniform words give uniform samples.
    pub fn from_word(word: u32) -> (sample: Self)
        ensures
            sample.numerator() == word / 256,
            0 <= sample.numerator() < SAMPLE_RESOLUTION,
    {
        let numerator: u32 = word >> 8;
        assert(numerator == word / 256 && numerator < 0x100_0000u32) by (bit_vector)
            requires
                numerator == word >> 8u32,
        ;
        UnitSample { numerator }
    }

    /// The numerator as a machine integer.
    pub fn get_numerator(&self) -> (n: u32)
        ensures
            n == self.numerator(),
            n < SAMPLE_RESOLUTION,
    {
        proof {
            use_type_invariant(self);
        }
        self.numerator
    }
}

/// Decides the severity for one sample: informational if the sample is
/// strictly below one half, error otherwise.
pub fn classify(sample: UnitSample) -> (severity: Severity)
    ensures
        severity == severity_of(sample.numerator()),
{
    proof {
        use_type_invariant(sample);
    }
    if sample.numerator < SAMPLE_RESOLUTION / 2 {
        Severity::Info
    } else {
        Severity::Error
    }
}

/// The one record that is written for `sample`.
pub fn diagnostic_record(sample: UnitSample) -> (record: LogRecord)
    ensures
        is_record_of(record, sample.numerator()),
{
    let severity = classify(sample);
    let message = match severity {
        Severity::Info => "C".to_string(),
        Severity::Error => "E".to_string(),
    };
    LogRecord { severity, message }
}

/// `rand::Rng::gen` on `rand::thread_rng()`, for a `u32`: the next word of the
/// calling thread's generator. Nothing is claimed of the word.
///
/// # Panics
///
/// `thread_rng` panics if the operating system cannot seed the generator.
#[verifier::external_body]
fn draw_word() -> u32 {
    rand::thread_rng().gen::<u32>()
}

/// Draws one sample from the process's random source and returns the one
/// record to log for it. Whatever is drawn, the record is that of some sample.
pub fn diagnose() -> (record: LogRecord)
    ensures
        exists|n: int| 0 <= n < SAMPLE_RESOLUTION && is_record_of(record, n),
{
    let sample = UnitSample::from_word(draw_word());
    let record = diagnostic_record(sample);
    assert(0 <= sample.numerator() < SAMPLE_RESOLUTION && is_record_of(record, sample.numerator()));
    record
}

/// The samples split evenly: of the `2^24` fractions a sample can be, half
/// are logged at informational severity and half at error severity. A source
/// that draws samples uniformly therefore logs the two in the ratio 1:1.
pub proof fn law_outcomes_split_evenly()
    ensures
        outcomes(Severity::Info).finite(),
        outcomes(Severity::Error).finite(),
        outcomes(Severity::Info).len() == SAMPLE_RESOLUTION / 2,
        outcomes(Severity::Error).len() == SAMPLE_RESOLUTION / 2,
        outcomes(Severity::Info).disjoint(outcomes(Severity::Error)),
        outcomes(Severity::Info).union(outcomes(Severity::Error)) == Set::new(
            |n: int| 0 <= n < SAMPLE_RESOLUTION,
        ),
{
    let half: int = SAMPLE_RESOLUTION as int / 2;
    let full: int = SAMPLE_RESOLUTION as int;
    vstd::set_lib::lemma_int_range(0, half);
    vstd::set_lib::lemma_int_range(half, full);
    assert(outcomes(Severity::Info) =~= vstd::set_lib::set_int_range(0, half));
    assert(outcomes(Severity::Error) =~= vstd::set_lib::set_int_range(half, full));
    assert(outcomes(Severity::Info).union(outcomes(Severity::Error)) =~= Set::new(
        |n: int| 0 <= n < SAMPLE_RESOLUTION,
    ));
}

} // verus!
