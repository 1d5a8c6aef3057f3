//! Random bytes from analog noise or from the axes of a motion sensor.
//!
//! Every generator in this module is built from five small mixing steps:
//! [`rotate`], [`xor`], [`xor_shift`], [`push_left`] and [`push_right`].
//! All of them work on single bytes; bits shifted past either end are lost.

use bit_field::BitField;
use vstd::prelude::*;

verus! {

/// Milliseconds to wait after each analog read of a noise draw.
pub const NOISE_READ_GAP_MS: u32 = 20;

/// Milliseconds to wait before each analog read of a round.
pub const ROUND_READ_GAP_MS: u32 = 100;

/// Milliseconds to wait after each reading asked of the motion sensor.
pub const MOTION_SETTLE_MS: u32 = 1000;

/// `b` rotated by `n` places towards the low end: the bits that fall off the
/// low end come back in at the high end.
pub open spec fn spec_rotate(b: u8, n: u8) -> u8 {
    (b >> n) | (b << ((8 - n) as u8))
}

/// Bitwise exclusive or.
pub open spec fn spec_xor(a: u8, b: u8) -> u8 {
    a ^ b
}

/// One diffusion round: `a` combined with three shifted copies of itself.
pub open spec fn spec_xor_shift(a: u8) -> u8 {
    a ^ (a >> 3u8) ^ (a << 5u8) ^ (a >> 4u8)
}

/// `val` combined with itself moved one place up and with `change`.
pub open spec fn spec_push_left(val: u8, change: u8) -> u8 {
    (val << 1u8) ^ (change ^ val)
}

/// `val` combined with itself moved one place down and with the lowest bit
/// of `change`, which enters at the top.
pub open spec fn spec_push_right(val: u8, change: u8) -> u8 {
    (val >> 1u8) ^ ((change << 7u8) ^ val)
}

/// Rotates the bits of `b` by `n` places, `n` between 1 and 7.
#[verifier::when_used_as_spec(spec_rotate)]
pub fn rotate(b: u8, n: u8) -> (r: u8)
    requires
        1 <= n < 8,
    ensures
        r == spec_rotate(b, n),
{
    (b >> n) | (b << (8 - n))
}

/// Exclusive or of two bytes, computed as the bits set in either operand
/// less the bits set in both.
#[verifier::when_used_as_spec(spec_xor)]
pub fn xor(a: u8, b: u8) -> (r: u8)
    ensures
        r == spec_xor(a, b),
{
    assert((a | b) >= (a & b) && (a | b) - (a & b) == a ^ b) by (bit_vector);
    (a | b) - (a & b)
}

/// One round of xor-shift diffusion.
#[verifier::when_used_as_spec(spec_xor_shift)]
pub fn xor_shift(a: u8) -> (r: u8)
    ensures
        r == spec_xor_shift(a),
{
    let mut ans: u8 = 0;

    ans = xor(ans, a);
    ans = xor(ans, a >> 3);
    ans = xor(ans, a << 5);
    ans = xor(ans, a >> 4);

    assert(0u8 ^ a ^ (a >> 3u8) ^ (a << 5u8) ^ (a >> 4u8) == a ^ (a >> 3u8) ^ (a << 5u8) ^ (a >> 4u8))
        by (bit_vector);
    ans
}

/// Pushes `change` into `val` with a bias towards the high bits.
#[verifier::when_used_as_spec(spec_push_left)]
pub fn push_left(val: u8, change: u8) -> (r: u8)
    ensures
        r == spec_push_left(val, change),
{
    xor(val << 1, xor(change, val))
}

/// Pushes the lowest bit of `change` into `val` with a bias towards the low
/// bits.
#[verifier::when_used_as_spec(spec_push_right)]
pub fn push_right(val: u8, change: u8) -> (r: u8)
    ensures
        r == spec_push_right(val, change),
{
    xor(val >> 1, xor(change << 7, val))
}

/// The low eight bits of an analog sample.
pub open spec fn low_byte(sample: u32) -> u8 {
    (sample % 256) as u8
}

/// The low eight bits of a signed axis reading, in two's complement.
pub open spec fn low_byte_signed(reading: i32) -> u8 {
    (reading as int % 256) as u8
}

/// Whether bit `index` of `value` is set; bit 0 is the lowest.
pub open spec fn bit_is_set(value: u8, index: usize) -> bool {
    value & (1u8 << index) != 0
}

/// The noise byte of the first `upto` reads of a draw: read `k`, counted
/// from zero, enters rotated by `k + 1` places.
pub open spec fn noise_fold(reads: Seq<u32>, upto: nat) -> u8
    decreases upto,
{
    if upto == 0 {
        0
    } else {
        xor(noise_fold(reads, (upto - 1) as nat), rotate(low_byte(reads[upto - 1]), upto as u8))
    }
}

/// The noise byte of one draw of seven reads.
pub open spec fn noise_byte(reads: Seq<u32>) -> u8 {
    noise_fold(reads, 7)
}

/// The left and right reads of the first `upto` rounds folded into one
/// byte: in round `i`, counted from one, the left read enters rotated by
/// `i` places and the right read by `7 - i`.
pub open spec fn spread_fold(rounds: Seq<(u32, u32)>, upto: nat) -> u8
    decreases upto,
{
    if upto == 0 {
        0
    } else {
        let round = rounds[upto - 1];
        xor(
            xor(spread_fold(rounds, (upto - 1) as nat), rotate(low_byte(round.0), upto as u8)),
            rotate(low_byte(round.1), (7 - upto) as u8),
        )
    }
}

/// The accumulators after one bit position of a round: where `left` and
/// `right` differ at `index`, the bit of `left` is pushed into the left
/// accumulator if `left_biased`, else into the right one.
pub open spec fn absorb_bit(
    acc: (u8, u8),
    left: u8,
    right: u8,
    index: usize,
    left_biased: bool,
) -> (u8, u8) {
    let change = if bit_is_set(left, index) { 1u8 } else { 0u8 };
    if bit_is_set(left, index) == bit_is_set(right, index) {
        acc
    } else if left_biased {
        (push_left(acc.0, change), acc.1)
    } else {
        (acc.0, push_right(acc.1, change))
    }
}

/// The accumulators after the bit positions from 1 up to, not including,
/// `upto` of one round. Bit 0 is never looked at.
pub open spec fn absorb_bits(
    acc: (u8, u8),
    left: u8,
    right: u8,
    upto: usize,
    left_biased: bool,
) -> (u8, u8)
    decreases upto,
{
    if upto <= 1 {
        acc
    } else {
        absorb_bit(
            absorb_bits(acc, left, right, (upto - 1) as usize, left_biased),
            left,
            right,
            (upto - 1) as usize,
            left_biased,
        )
    }
}

/// The accumulators after the first `upto` rounds.
pub open spec fn absorb_rounds(
    acc: (u8, u8),
    rounds: Seq<(u32, u32)>,
    upto: nat,
    left_biased: bool,
) -> (u8, u8)
    decreases upto,
{
    if upto == 0 {
        acc
    } else {
        let round = rounds[upto - 1];
        absorb_bits(
            absorb_rounds(acc, rounds, (upto - 1) as nat, left_biased),
            low_byte(round.0),
            low_byte(round.1),
            8,
            left_biased,
        )
    }
}

/// The byte that the analog generator makes of a full set of samples.
pub open spec fn analog_byte(samples: AnalogSamples) -> u8 {
    let seed = xor(xor_shift(noise_byte(samples.draws[0]@)), noise_byte(samples.draws[1]@));
    let start = (noise_byte(samples.draws[2]@), noise_byte(samples.draws[3]@));
    let left_biased = xor(start.0, start.1) % 2 == 0;
    let acc = absorb_rounds(start, samples.rounds@, 3, left_biased);
    xor(xor(xor_shift(seed), spread_fold(samples.rounds@, 3)), xor(acc.0, acc.1))
}

/// The byte that the motion generator makes of six axis bytes: three of
/// acceleration, then three of rotation.
pub open spec fn motion_byte(axes: (u8, u8, u8, u8, u8, u8)) -> u8 {
    let (a, b, c, d, e, f) = axes;
    let bits1 = xor((a & 0x3) << 6u8, xor(c << 4u8, xor(b << 2u8, xor(a, c >> 2u8))));
    let bits2 = xor((d & 0x3) << 6u8, xor(f << 4u8, xor(e << 2u8, xor(d, f >> 2u8))));
    xor(xor_shift(bits1), bits2)
}

/// Which source of entropy a generator draws from.
#[derive(Clone, Copy, Debug, PartialEq, Eq, Structural)]
pub enum Generator {
    /// Noise on an analog pin.
    Analog,
    /// The axes of the motion sensor.
    Mpu,
}

/// The raw analog reads of one generation, in the order they are taken.
pub struct AnalogSamples {
    /// Four noise draws of seven reads each.
    pub draws: [[u32; 7]; 4],
    /// Three rounds of a left read and a right read.
    pub rounds: [(u32, u32); 3],
}

/// One reading of the motion sensor: acceleration and rotation along x, y
/// and z.
pub struct MotionReading {
    pub accel_output: [i32; 3],
    pub gyro_output: [i32; 3],
}

/// A random number generator bound to one source of entropy.
pub struct RandomNumberGenerator {
    mode: Generator,
}

impl View for RandomNumberGenerator {
    type V = Generator;

    closed spec fn view(&self) -> Generator {
        self.mode
    }
}

/// Calls `bit_field::BitField::get_bit` on a byte. The crate tests the bit
/// by masking the byte with a one shifted to `index`, and panics for an
/// index of eight or more, which `requires` leaves out.
#[verifier::external_body]
fn bit_at(value: u8, index: usize) -> (set: bool)
    requires
        index < 8,
    ensures
        set == bit_is_set(value, index),
{
    value.get_bit(index)
}

/// Cuts an analog sample down to its low eight bits.
fn sample_byte(sample: u32) -> (r: u8)
    ensures
        r == low_byte(sample),
{
    assert(sample as u8 == (sample % 256) as u8) by (bit_vector);
    #[verifier::truncate]
    (sample as u8)
}

/// Cuts a signed axis reading down to its low eight bits.
fn axis_byte(reading: i32) -> (r: u8)
    ensures
        r == low_byte_signed(reading),
{
    assert(reading as u8 == (reading as int % 256) as u8) by (bit_vector);
    #[verifier::truncate]
    (reading as u8)
}

impl RandomNumberGenerator {
    /// A generator that draws from the source `mode1`.
    pub fn new(mode1: Generator) -> (r: RandomNumberGenerator)
        ensures
            r@ == mode1,
    {
        RandomNumberGenerator { mode: mode1 }
    }

    /// The source this generator draws from.
    pub fn mode(&self) -> (r: Generator)
        ensures
            r == self@,
    {
        self.mode
    }

    /// A random byte from the analog reads of one generation. Only a
    /// generator made for analog noise may be asked.
    pub fn generate_by_analog(&mut self, samples: &AnalogSamples) -> (r: u8)
        requires
            old(self)@ == Generator::Analog,
        ensures
            r == analog_byte(*samples),
            final(self)@ == old(self)@,
    {
        let mut bits1: u8 = xor_rotate(&samples.draws[0]);

        bits1 = xor_shift(bits1);

        let bits2: u8 = xor_rotate(&samples.draws[1]);

        bits1 = xor(bits1, bits2);

        let mut lbuf: u8 = xor_rotate(&samples.draws[2]);
        let mut rbuf: u8 = xor_rotate(&samples.draws[3]);
        let buf: u8 = xor(lbuf, rbuf);

        let ghost start = (lbuf, rbuf);
        let ghost left_biased = buf % 2 == 0;

        let mut bits3: u8 = 0;

        let mut i: u8 = 1;
        while i < 4
            invariant
                1 <= i <= 4,
                left_biased == (buf % 2 == 0),
                bits3 == spread_fold(samples.rounds@, (i - 1) as nat),
                (lbuf, rbuf) == absorb_rounds(start, samples.rounds@, (i - 1) as nat, left_biased),
            decreases 4 - i,
        {
            let round = samples.rounds[(i - 1) as usize];
            let left: u8 = sample_byte(round.0);
            let right: u8 = sample_byte(round.1);

            bits3 = xor(bits3, rotate(left, i));
            bits3 = xor(bits3, rotate(right, 7 - i));

            let ghost before = (lbuf, rbuf);

            let mut j: usize = 1;
            while j < 8
                invariant
                    1 <= j <= 8,
                    left_biased == (buf % 2 == 0),
                    (lbuf, rbuf) == absorb_bits(before, left, right, j, left_biased),
                decreases 8 - j,
            {
                let lb = bit_at(left, j);
                let rb = bit_at(right, j);

                if lb != rb {
                    let change: u8 = if lb { 1 } else { 0 };
                    if buf % 2 == 0 {
                        lbuf = push_left(lbuf, change);
                    } else {
                        rbuf = push_right(rbuf, change);
                    }
                }
                j = j + 1;
            }
            i = i + 1;
        }

        bits1 = xor_shift(bits1);

        bits1 = xor(bits1, bits3);

        xor(bits1, xor(lbuf, rbuf))
    }

    /// A random byte from the six axis bytes of one motion reading. Only a
    /// generator made for the motion sensor may be asked.
    pub fn generate_by_mpu(&mut self, axes: (u8, u8, u8, u8, u8, u8)) -> (r: u8)
        requires
            old(self)@ == Generator::Mpu,
        ensures
            r == motion_byte(axes),
            final(self)@ == old(self)@,
    {
        let (a, b, c, d, e, f) = axes;

        let a1 = (a & 0x3) << 6;
        let a2 = (d & 0x3) << 6;
        let mut bits1 = xor(a1, xor(c << 4, xor(b << 2, xor(a, c >> 2))));
        let bits2 = xor(a2, xor(f << 4, xor(e << 2, xor(d, f >> 2))));

        bits1 = xor_shift(bits1);

        bits1 = xor(bits1, bits2);

        bits1
    }
}

/// The noise byte of one draw: seven analog reads, each rotated by its place
/// in the draw and all combined.
pub fn xor_rotate(reads: &[u32; 7]) -> (r: u8)
    ensures
        r == noise_byte(reads@),
{
    let mut bits1: u8 = 0;
    let mut i: u8 = 1;
    while i < 8
        invariant
            1 <= i <= 8,
            bits1 == noise_fold(reads@, (i - 1) as nat),
        decreases 8 - i,
    {
        let a: u8 = sample_byte(reads[(i - 1) as usize]);
        bits1 = xor(bits1, rotate(a, i));
        i = i + 1;
    }
    bits1
}

/// The six axis bytes of a motion reading: the low eight bits of the
/// acceleration along x, y and z, then of the rotation about x, y and z.
pub fn generate_mpu(reading: &MotionReading) -> (r: (u8, u8, u8, u8, u8, u8))
    ensures
        r.0 == low_byte_signed(reading.accel_output[0]),
        r.1 == low_byte_signed(reading.accel_output[1]),
        r.2 == low_byte_signed(reading.accel_output[2]),
        r.3 == low_byte_signed(reading.gyro_output[0]),
        r.4 == low_byte_signed(reading.gyro_output[1]),
        r.5 == low_byte_signed(reading.gyro_output[2]),
{
    let d: u8 = axis_byte(reading.gyro_output[0]);
    let e: u8 = axis_byte(reading.gyro_output[1]);
    let f: u8 = axis_byte(reading.gyro_output[2]);
    let a: u8 = axis_byte(reading.accel_output[0]);
    let b: u8 = axis_byte(reading.accel_output[1]);
    let c: u8 = axis_byte(reading.accel_output[2]);
    (a, b, c, d, e, f)
}

} // verus!
