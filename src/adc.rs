use vstd::prelude::*;
use vstd::arithmetic::div_mod::lemma_hoist_over_denominator;

verus! {

/// Reference voltage of the 10-bit converter, in millivolts.
pub const REFERENCE_MILLIVOLTS: u32 = 5000;

/// Number of codes of the 10-bit converter.
pub const ADC_CODES: u32 = 1024;

/// Converter channel wired to the control pilot, through the divider.
pub const PILOT_VOLTAGE_CHANNEL: u8 = 0;

/// Converter channel wired to the Hall current sensor.
pub const CURRENT_SENSE_CHANNEL: u8 = 1;

/// Converter channel wired to the mains voltage sense.
pub const AC_VOLTAGE_CHANNEL: u8 = 2;

/// A converter code as millivolts at the converter's input (rounded down).
pub open spec fn code_to_millivolts(code: int) -> int {
    code * 5000 / 1024
}

/// Current through the Hall sensor, in milliamps, for a sensor output in
/// millivolts: 66 mV per ampere, zero at half the reference (rounded down).
pub open spec fn millivolts_to_milliamps(mv: int) -> int {
    (mv - 2500) * 1000 / 66
}

/// Pilot voltage, in millivolts, for a voltage seen behind the divider: the
/// affine map that sends 900 mV to -12 V and 4550 mV to +12 V, that is
/// `24 / 3.65 * (v - 0.9) - 12` in volts (rounded down).
pub open spec fn divider_to_pilot(mv: int) -> int {
    480 * (mv - 900) / 73 - 12000
}

/// Every sample of the window is a code of the 10-bit converter.
pub open spec fn is_code_window(s: Seq<u16>) -> bool {
    forall|i: int| 0 <= i < s.len() ==> s[i] < 1024
}

/// The divider map sends 0.9 V to -12 V and 4.55 V to +12 V, and is affine:
/// each step of 73 mV behind the divider adds 480 mV to the pilot voltage,
/// from any starting point.
pub proof fn lemma_divider_is_affine(x: int, k: int)
    ensures
        divider_to_pilot(900) == -12000,
        divider_to_pilot(4550) == 12000,
        divider_to_pilot(x + 73 * k) == divider_to_pilot(x) + 480 * k,
{
    lemma_hoist_over_denominator(480 * (x - 900), 480 * k, 73);
    assert(480 * (x + 73 * k - 900) == 480 * (x - 900) + (480 * k) * 73) by (nonlinear_arith);
}

/// The divider map is strictly increasing: each millivolt more behind the
/// divider gives at least six millivolts more on the pilot.
pub proof fn lemma_divider_is_increasing(x: int, y: int)
    requires
        x < y,
    ensures
        divider_to_pilot(x) + 6 * (y - x) <= divider_to_pilot(y),
        divider_to_pilot(x) < divider_to_pilot(y),
{
    let a = 480 * (x - 900);
    let b = 480 * (y - 900);
    assert(b >= a + 438 * (y - x)) by (nonlinear_arith)
        requires
            x < y,
            a == 480 * (x - 900),
            b == 480 * (y - 900),
    ;
    vstd::arithmetic::div_mod::lemma_div_is_ordered(a + 438 * (y - x), b, 73);
    lemma_hoist_over_denominator(a, 6 * (y - x), 73);
    assert(a + (6 * (y - x)) * 73 == a + 438 * (y - x)) by (nonlinear_arith);
}

/// Half the reference voltage reads as no current.
pub proof fn lemma_no_current_at_half_reference()
    ensures
        code_to_millivolts(512) == 2500,
        millivolts_to_milliamps(2500) == 0,
{
}

/// Converts a raw converter code to millivolts.
pub fn to_volts(reading: u16) -> (r: u32)
    ensures
        r == code_to_millivolts(reading as int),
        r <= 320_000,
        reading <= 1024 ==> r <= 5000,
{
    (reading as u32) * REFERENCE_MILLIVOLTS / ADC_CODES
}

/// Converts a raw current-sensor code to milliamps.
pub fn to_amps(reading: u16) -> (r: i32)
    ensures
        r == millivolts_to_milliamps(code_to_millivolts(reading as int)),
        reading < 1024 ==> -37879 <= r <= 37879,
{
    let mv = to_volts(reading);
    proof {
        lemma_hoist_over_denominator(500 * mv - 1250000, 37879, 33);
        assert((mv as int - 2500) * 1000 / 66 == (500 * mv as int - 1250000) / 33) by {
            vstd::arithmetic::div_mod::lemma_div_multiples_vanish(500 * mv as int - 1250000, 33);
            assert((mv as int - 2500) * 1000 == 2 * (500 * mv as int - 1250000)) by (nonlinear_arith);
            assert(66 == 2 * 33int);
        }
    }
    let shifted: u32 = (500 * mv + 7) / 33;
    proof {
        if reading < 1024 {
            vstd::arithmetic::div_mod::lemma_div_is_ordered(500 * mv + 7, 2_500_007, 33);
        }
    }
    shifted as i32 - 37879
}

/// Converts a voltage seen behind the pilot divider to the pilot voltage,
/// both in millivolts.
#[inline]
pub fn from_vdiv_to_pilot(voltage: u32) -> (r: i32)
    requires
        voltage <= 1_000_000,
    ensures
        r == divider_to_pilot(voltage as int),
{
    proof {
        lemma_hoist_over_denominator(480 * voltage - 432000, 6000, 73);
    }
    let shifted: u32 = (480 * voltage + 6000) / 73;
    shifted as i32 - 18000
}

/// Smallest code of a window, or 1024 (one past the largest code) when the
/// window is empty.
pub open spec fn window_min(s: Seq<u16>) -> int
    decreases s.len(),
{
    if s.len() == 0 {
        1024
    } else {
        let m = window_min(s.drop_last());
        if (s.last() as int) < m { s.last() as int } else { m }
    }
}

/// Largest code of a window, or 0 when the window is empty.
pub open spec fn window_max(s: Seq<u16>) -> int
    decreases s.len(),
{
    if s.len() == 0 {
        0
    } else {
        let m = window_max(s.drop_last());
        if (s.last() as int) > m { s.last() as int } else { m }
    }
}

/// Sum of the squared millivolt values of a window of codes.
pub open spec fn sum_squared_millivolts(s: Seq<u16>) -> int
    decreases s.len(),
{
    if s.len() == 0 {
        0
    } else {
        let v = code_to_millivolts(s.last() as int);
        sum_squared_millivolts(s.drop_last()) + v * v
    }
}

/// Sum of the squared milliamp values of a window of current-sensor codes.
pub open spec fn sum_squared_milliamps(s: Seq<u16>) -> int
    decreases s.len(),
{
    if s.len() == 0 {
        0
    } else {
        let a = millivolts_to_milliamps(code_to_millivolts(s.last() as int));
        sum_squared_milliamps(s.drop_last()) + a * a
    }
}

/// `r` is the integer square root of `n`.
pub open spec fn is_isqrt(n: int, r: int) -> bool {
    0 <= r && r * r <= n < (r + 1) * (r + 1)
}

/// Integer square root, rounded down.
pub fn isqrt(n: u64) -> (r: u64)
    ensures
        is_isqrt(n as int, r as int),
{
    let mut lo: u64 = 0;
    let mut hi: u64 = 0x1_0000_0000;
    assert(n < hi * hi) by (nonlinear_arith)
        requires
            hi == 0x1_0000_0000u64,
            n <= 0xFFFF_FFFF_FFFF_FFFFu64,
    ;
    while hi - lo > 1
        invariant
            lo < hi <= 0x1_0000_0000,
            lo * lo <= n,
            n < hi * hi,
        decreases hi - lo,
    {
        let mid: u64 = lo + (hi - lo) / 2;
        assert(mid * mid <= 0xFFFF_FFFF * 0xFFFF_FFFF) by (nonlinear_arith)
            requires
                mid <= 0xFFFF_FFFF,
        ;
        if mid * mid <= n {
            lo = mid;
        } else {
            hi = mid;
        }
    }
    assert(hi == lo + 1);
    lo
}

/// Lowest and highest code of a window of samples, as millivolts. An empty
/// window gives the highest code plus one as its minimum and 0 as its maximum.
pub fn peak_to_peak(samples: &Vec<u16>) -> (r: (u32, u32))
    ensures
        r.0 == code_to_millivolts(window_min(samples@)),
        r.1 == code_to_millivolts(window_max(samples@)),
        r.0 <= 320_000,
        r.1 <= 320_000,
{
    let mut min: u16 = 1024;
    let mut max: u16 = 0;
    let mut i: usize = 0;
    while i < samples.len()
        invariant
            i <= samples@.len(),
            min == window_min(samples@.subrange(0, i as int)),
            max == window_max(samples@.subrange(0, i as int)),
        decreases samples@.len() - i,
    {
        let reading = samples[i];
        assert(samples@.subrange(0, i as int + 1).drop_last() == samples@.subrange(0, i as int));
        if reading < min {
            min = reading;
        }
        if reading > max {
            max = reading;
        }
        i = i + 1;
    }
    assert(samples@.subrange(0, samples@.len() as int) == samples@);
    (to_volts(min), to_volts(max))
}

/// Lowest and highest pilot voltage of a window of pilot-channel codes, in
/// millivolts, corrected for the divider.
#[inline]
pub fn peak_to_peak_pilot(samples: &Vec<u16>) -> (r: (i32, i32))
    ensures
        r.0 == divider_to_pilot(code_to_millivolts(window_min(samples@))),
        r.1 == divider_to_pilot(code_to_millivolts(window_max(samples@))),
{
    let (min, max) = peak_to_peak(samples);
    (from_vdiv_to_pilot(min), from_vdiv_to_pilot(max))
}

/// Root mean square of a window of codes, in millivolts (rounded down);
/// `None` for an empty window.
pub fn rms_voltage(samples: &Vec<u16>) -> (r: Option<u32>)
    requires
        is_code_window(samples@),
        samples@.len() <= 0xFFFF_FFFF,
    ensures
        samples@.len() == 0 <==> r is None,
        r matches Some(v) ==> is_isqrt(
            sum_squared_millivolts(samples@) / samples@.len() as int,
            v as int,
        ),
{
    if samples.len() == 0 {
        return None;
    }
    let mut sum: u64 = 0;
    let mut i: usize = 0;
    while i < samples.len()
        invariant
            i <= samples@.len() <= 0xFFFF_FFFF,
            is_code_window(samples@),
            sum == sum_squared_millivolts(samples@.subrange(0, i as int)),
            sum <= i * 25_000_000,
        decreases samples@.len() - i,
    {
        let v = to_volts(samples[i]) as u64;
        assert(samples@.subrange(0, i as int + 1).drop_last() == samples@.subrange(0, i as int));
        assert(v * v <= 25_000_000) by (nonlinear_arith)
            requires
                v <= 5000,
        ;
        assert(i * 25_000_000 + 25_000_000 <= 0xFFFF_FFFF * 25_000_000 + 25_000_000) by (nonlinear_arith)
            requires
                i < 0xFFFF_FFFF,
        ;
        sum = sum + v * v;
        i = i + 1;
    }
    assert(samples@.subrange(0, samples@.len() as int) == samples@);
    let mean = sum / (samples.len() as u64);
    proof {
        let n = samples@.len() as int;
        vstd::arithmetic::div_mod::lemma_div_is_ordered(sum as int, 25_000_000 * n, n);
        vstd::arithmetic::div_mod::lemma_div_by_multiple(25_000_000, n);
        assert(25_000_000 * n == n * 25_000_000);
    }
    let root = isqrt(mean);
    assert(root <= 5000) by (nonlinear_arith)
        requires
            root * root <= mean,
            mean <= 25_000_000,
    ;
    Some(root as u32)
}

/// Root mean square of a window of current-sensor codes, in milliamps
/// (rounded down); `None` for an empty window.
pub fn current_rms(samples: &Vec<u16>) -> (r: Option<u32>)
    requires
        is_code_window(samples@),
        samples@.len() <= 0xFFFF_FFFF,
    ensures
        samples@.len() == 0 <==> r is None,
        r matches Some(v) ==> is_isqrt(
            sum_squared_milliamps(samples@) / samples@.len() as int,
            v as int,
        ),
{
    if samples.len() == 0 {
        return None;
    }
    let mut sum: u64 = 0;
    let mut i: usize = 0;
    while i < samples.len()
        invariant
            i <= samples@.len() <= 0xFFFF_FFFF,
            is_code_window(samples@),
            sum == sum_squared_milliamps(samples@.subrange(0, i as int)),
            sum <= i * 1_500_000_000,
        decreases samples@.len() - i,
    {
        let a = to_amps(samples[i]);
        let m: u64 = if a < 0 { (0 - a) as u64 } else { a as u64 };
        assert(samples@.subrange(0, i as int + 1).drop_last() == samples@.subrange(0, i as int));
        assert(m * m <= 1_500_000_000) by (nonlinear_arith)
            requires
                m <= 37879,
        ;
        assert(i * 1_500_000_000 + 1_500_000_000 <= 0xFFFF_FFFF * 1_500_000_000 + 1_500_000_000) by (nonlinear_arith)
            requires
                i < 0xFFFF_FFFF,
        ;
        assert(m * m == a * a) by (nonlinear_arith)
            requires
                m == a || m == -a,
        ;
        sum = sum + m * m;
        i = i + 1;
    }
    assert(samples@.subrange(0, samples@.len() as int) == samples@);
    let mean = sum / (samples.len() as u64);
    proof {
        let n = samples@.len() as int;
        vstd::arithmetic::div_mod::lemma_div_is_ordered(sum as int, 1_500_000_000 * n, n);
        vstd::arithmetic::div_mod::lemma_div_by_multiple(1_500_000_000, n);
        assert(1_500_000_000 * n == n * 1_500_000_000);
    }
    let root = isqrt(mean);
    assert(root <= 40000) by (nonlinear_arith)
        requires
            root * root <= mean,
            mean <= 1_500_000_000,
    ;
    Some(root as u32)
}

/// Request frame of a single-ended conversion on `channel`: start bit, then
/// single-ended mode and the three channel-select bits, then a padding byte
/// during which the converter shifts out its result.
pub open spec fn single_ended_frame(channel: u8) -> Seq<u8> {
    seq![1u8, (128 + channel * 16) as u8, 0u8]
}

/// Builds the three-byte request of a single-ended conversion.
pub fn single_ended_request(channel: u8) -> (r: [u8; 3])
    requires
        channel < 8,
    ensures
        r@ == single_ended_frame(channel),
{
    let second: u8 = 0b1000_0000 | (channel << 4);
    assert(second == 128 + channel * 16) by (bit_vector)
        requires
            channel < 8,
            second == 0b1000_0000u8 | (channel << 4u8),
    ;
    let r: [u8; 3] = [0b0000_0001, second, 0b0000_0000];
    assert(r@ =~= single_ended_frame(channel));
    r
}

/// Reads the ten-bit result out of the reply to a single-ended request: the
/// two low bits of the second byte, then the third byte.
pub fn single_ended_value(reply: [u8; 3]) -> (r: u16)
    ensures
        r == (reply@[1] % 4) * 256 + reply@[2],
        r < 1024,
{
    let hi: u8 = reply[1];
    let lo: u8 = reply[2];
    let v: u16 = ((hi as u16 & 0x03) << 8) | lo as u16;
    assert(v == (hi % 4) * 256 + lo && v < 1024) by (bit_vector)
        requires
            v == ((hi as u16 & 0x03u16) << 8u16) | lo as u16,
    ;
    v
}

} // verus!
