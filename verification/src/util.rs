use vstd::arithmetic::div_mod::{lemma_mod_mod, lemma_mod_multiples_vanish, lemma_small_mod};
use vstd::prelude::*;

verus! {

/// Magnitude of the difference of two integers, whichever is larger.
pub open spec fn spec_abs_diff(a: int, b: int) -> int {
    if a > b {
        a - b
    } else {
        b - a
    }
}

/// Returns the absolute difference between two values.
pub fn abs_diff(a: u32, b: u32) -> (r: u32)
    ensures
        r == spec_abs_diff(a as int, b as int),
{
    if a > b {
        a - b
    } else {
        b - a
    }
}

/// Law: the magnitude of a difference does not depend on the order of its
/// operands, and the difference of a value with itself is zero.
pub proof fn lemma_abs_diff_symmetric(a: int, b: int)
    ensures
        spec_abs_diff(a, b) == spec_abs_diff(b, a),
        spec_abs_diff(a, a) == 0,
{
}

/// Declares std::time::SystemTime, the opaque clock sample carried between
/// the calls below.
#[verifier::external_type_specification]
#[verifier::external_body]
pub struct ExSystemTime(std::time::SystemTime);

/// Declares std::time::SystemTimeError, the opaque distance a clock sample
/// lies before the epoch.
#[verifier::external_type_specification]
#[verifier::external_body]
pub struct ExSystemTimeError(std::time::SystemTimeError);

/// Relies on std::time::SystemTime::now: a reading of the system real-time
/// clock, about which nothing can be promised.
#[verifier::external_body]
fn clock_now() -> std::time::SystemTime {
    std::time::SystemTime::now()
}

/// Relies on std::time::SystemTime::duration_since, measured from the Unix
/// epoch: the duration since the epoch, or an error when the clock reads
/// earlier than the epoch.
#[verifier::external_body]
fn since_epoch(t: &std::time::SystemTime) -> Result<
    core::time::Duration,
    std::time::SystemTimeError,
> {
    t.duration_since(std::time::UNIX_EPOCH)
}

/// Relies on std::time::SystemTimeError::duration: how far the clock lay on
/// the other side of the epoch.
#[verifier::external_body]
fn error_duration(e: &std::time::SystemTimeError) -> core::time::Duration {
    e.duration()
}

/// Relies on core::time::Duration::as_secs: the duration's whole seconds.
#[verifier::external_body]
fn duration_secs(d: &core::time::Duration) -> u64 {
    d.as_secs()
}

/// Relies on core::time::Duration::subsec_nanos: the fractional part in
/// nanoseconds, documented to be less than one billion.
#[verifier::external_body]
fn duration_subsec_nanos(d: &core::time::Duration) -> (r: u32)
    ensures
        r < 1_000_000_000,
{
    d.subsec_nanos()
}

/// The 32-bit wire timestamp a clock sample combines to: its whole seconds
/// scaled to microseconds plus its sub-second microseconds, modulo 2^32.
pub open spec fn spec_timestamp_micros(secs: u64, micros: u32) -> int {
    ((secs as int * 1_000_000) % 0x1_0000_0000 + micros as int) % 0x1_0000_0000
}

/// Combines a clock sample's whole seconds and sub-second microseconds into
/// the 32-bit wire timestamp: the seconds scaled to microseconds plus the
/// sub-second microseconds, modulo 2^32.
pub fn timestamp_micros(secs: u64, micros: u32) -> (r: u32)
    ensures
        r as int == spec_timestamp_micros(secs, micros),
{
    let scaled: u64 = secs.wrapping_mul(1_000_000);
    let truncated: u32 = #[verifier::truncate] (scaled as u32);
    proof {
        lemma_mod_mod(secs as int * 1_000_000, 0x1_0000_0000, 0x1_0000_0000);
        assert(scaled as u32 == scaled % 0x1_0000_0000) by (bit_vector);
        assert(truncated as int == (secs as int * 1_000_000) % 0x1_0000_0000);
    }
    let r = truncated.wrapping_add(micros);
    proof {
        let s = truncated as int + micros as int;
        if s < 0x1_0000_0000 {
            lemma_small_mod(s as nat, 0x1_0000_0000 as nat);
        } else {
            lemma_mod_multiples_vanish(1, s - 0x1_0000_0000, 0x1_0000_0000);
            lemma_small_mod((s - 0x1_0000_0000) as nat, 0x1_0000_0000 as nat);
        }
    }
    r
}

/// Return current time in microseconds since the UNIX epoch, truncated to 32
/// bits: for the sampled seconds and sub-second microseconds, exactly what
/// `timestamp_micros` combines them to. The value wraps roughly every 71
/// minutes: callers must treat samples as circular and only compare nearby
/// ones.
pub fn now_microseconds() -> (r: u32)
    ensures
        exists|secs: u64, micros: u32|
            micros < 1_000_000 && r as int == #[trigger] spec_timestamp_micros(secs, micros),
{
    let t = clock_now();
    let d = match since_epoch(&t) {
        Ok(d) => d,
        Err(e) => error_duration(&e),
    };
    let secs: u64 = duration_secs(&d);
    let micros: u32 = duration_subsec_nanos(&d) / 1000;
    timestamp_micros(secs, micros)
}

} // verus!
