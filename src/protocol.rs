//! The one-wire LED protocol: word packing, bit timing and the clock divider.
use vstd::prelude::*;

use crate::color::Rgb;

verus! {

/// Minimum time, in microseconds, that the line stays low after a frame so that
/// the LEDs latch it.
pub const LATCH_MICROS: u64 = 280;

/// Nominal system clock of the board, in hertz.
pub const CLOCK_HZ: u32 = 125_000_000;

/// Bit rate of the protocol, in bits per second.
pub const BIT_RATE_HZ: u32 = 800_000;

/// The transmission word of one LED: green in the top byte, then red, then blue,
/// the lowest byte unused.
pub open spec fn packed(c: Rgb) -> u32 {
    ((c.g as u32) << 24u32) | ((c.r as u32) << 16u32) | ((c.b as u32) << 8u32)
}

/// Bit `k` (0 to 23) of the data sent for `c`: green, red, blue, each from its
/// most significant bit down.
pub open spec fn data_bit(c: Rgb, k: int) -> bool {
    if k < 8 {
        (c.g >> ((7 - k) as u8)) & 1 == 1
    } else if k < 16 {
        (c.r >> ((15 - k) as u8)) & 1 == 1
    } else {
        (c.b >> ((23 - k) as u8)) & 1 == 1
    }
}

/// Packs `c` into the word that is shifted out, most significant bit first.
pub fn pack_word(c: Rgb) -> (w: u32)
    ensures
        w == packed(c),
{
    ((c.g as u32) << 24u32) | ((c.r as u32) << 16u32) | ((c.b as u32) << 8u32)
}

/// The packed word is `g * 2^24 + r * 2^16 + b * 2^8`.
pub proof fn lemma_packed_value(c: Rgb)
    ensures
        packed(c) == c.g as int * 0x100_0000 + c.r as int * 0x1_0000 + c.b as int * 0x100,
{
    let g = c.g as u32;
    let r = c.r as u32;
    let b = c.b as u32;
    assert(((g << 24u32) | (r << 16u32) | (b << 8u32)) == g * 0x100_0000 + r * 0x1_0000 + b
        * 0x100) by (bit_vector)
        requires
            g < 256,
            r < 256,
            b < 256,
    ;
}

/// Shifting the packed word out from its top bit sends green, red and blue in
/// that order, each most significant bit first.
pub proof fn lemma_word_bit_order(c: Rgb, k: u32)
    requires
        k < 24,
    ensures
        ((packed(c) >> (31 - k) as u32) & 1 == 1) == data_bit(c, k as int),
{
    let w = packed(c);
    let g = c.g;
    let r = c.r;
    let b = c.b;
    assert(w == ((g as u32) << 24u32) | ((r as u32) << 16u32) | ((b as u32) << 8u32));
    if k < 8 {
        let s = (7 - k) as u8;
        assert(((w >> (31 - k) as u32) & 1) == (((g >> s) & 1) as u32)) by (bit_vector)
            requires
                w == ((g as u32) << 24u32) | ((r as u32) << 16u32) | ((b as u32) << 8u32),
                k < 8,
                s == 7 - k,
        ;
    } else if k < 16 {
        let s = (15 - k) as u8;
        assert(((w >> (31 - k) as u32) & 1) == (((r >> s) & 1) as u32)) by (bit_vector)
            requires
                w == ((g as u32) << 24u32) | ((r as u32) << 16u32) | ((b as u32) << 8u32),
                8 <= k < 16,
                s == 15 - k,
        ;
    } else {
        let s = (23 - k) as u8;
        assert(((w >> (31 - k) as u32) & 1) == (((b >> s) & 1) as u32)) by (bit_vector)
            requires
                w == ((g as u32) << 24u32) | ((r as u32) << 16u32) | ((b as u32) << 8u32),
                16 <= k < 24,
                s == 23 - k,
        ;
    }
}

/// The 24 data bits of `c` in transmission order.
pub fn color_bits(c: Rgb) -> (bits: Vec<bool>)
    ensures
        bits@.len() == 24,
        forall|k: int| 0 <= k < 24 ==> bits@[k] == data_bit(c, k),
{
    let w = pack_word(c);
    let mut bits: Vec<bool> = Vec::with_capacity(24);
    let mut k: u32 = 0;
    while k < 24
        invariant
            w == packed(c),
            k <= 24,
            bits@.len() == k,
            forall|j: int| 0 <= j < k ==> bits@[j] == data_bit(c, j),
        decreases 24 - k,
    {
        proof {
            lemma_word_bit_order(c, k);
        }
        bits.push((w >> (31 - k)) & 1 == 1);
        k = k + 1;
    }
    bits
}

/// The transmission words of a frame, one per LED in address order.
pub fn frame_words(colors: &[Rgb]) -> (words: Vec<u32>)
    ensures
        words@.len() == colors@.len(),
        forall|i: int| 0 <= i < colors@.len() ==> words@[i] == packed(colors@[i]),
{
    let mut words: Vec<u32> = Vec::with_capacity(colors.len());
    let mut i: usize = 0;
    while i < colors.len()
        invariant
            i <= colors@.len(),
            words@.len() == i,
            forall|j: int| 0 <= j < i ==> words@[j] == packed(colors@[j]),
        decreases colors@.len() - i,
    {
        words.push(pack_word(colors[i]));
        i = i + 1;
    }
    words
}

/// Lengths, in state-machine cycles, of the three slots of one bit: start (always
/// high), data (high for a one) and stop (always low).
#[derive(Clone, Copy, Debug, PartialEq, Eq, Structural)]
pub struct BitTiming {
    pub start: u8,
    pub data: u8,
    pub stop: u8,
}

/// Level of the line at `cycle` of a bit carrying `bit`: high through the start slot,
/// and through the data slot too for a one.
pub open spec fn line_level(timing: BitTiming, bit: bool, cycle: int) -> bool {
    cycle < timing.start || (bit && cycle < timing.start + timing.data)
}

/// Cycles in one bit period.
pub open spec fn bit_period(timing: BitTiming) -> int {
    timing.start + timing.data + timing.stop
}

impl BitTiming {
    /// The slot lengths of the installation's LEDs: 2, 5 and 3 cycles.
    pub fn ws2812() -> (t: Self)
        ensures
            t.start == 2,
            t.data == 5,
            t.stop == 3,
    {
        BitTiming { start: 2, data: 5, stop: 3 }
    }

    /// Cycles in one bit period.
    pub fn cycles_per_bit(&self) -> (n: u32)
        ensures
            n == bit_period(*self),
    {
        self.start as u32 + self.data as u32 + self.stop as u32
    }

    /// The line level at each cycle of a bit carrying `bit`.
    pub fn bit_waveform(&self, bit: bool) -> (levels: Vec<bool>)
        ensures
            levels@.len() == bit_period(*self),
            forall|c: int| 0 <= c < levels@.len() ==> levels@[c] == line_level(*self, bit, c),
    {
        let n = self.cycles_per_bit();
        let mut levels: Vec<bool> = Vec::with_capacity(n as usize);
        let mut c: u32 = 0;
        while c < n
            invariant
                n == bit_period(*self),
                c <= n,
                levels@.len() == c,
                forall|j: int| 0 <= j < c ==> levels@[j] == line_level(*self, bit, j),
            decreases n - c,
        {
            levels.push(c < self.start as u32 || (bit && c < self.start as u32 + self.data as u32));
            c = c + 1;
        }
        levels
    }

    /// The line level at each cycle while the 24 data bits of `color` are sent.
    pub fn color_waveform(&self, color: Rgb) -> (levels: Vec<bool>)
        ensures
            levels@.len() == 24 * bit_period(*self),
            forall|k: int, c: int|
                0 <= k < 24 && 0 <= c < bit_period(*self) ==> levels@[k * bit_period(*self) + c]
                    == line_level(*self, data_bit(color, k), c),
    {
        let bits = color_bits(color);
        let ghost p = bit_period(*self);
        let mut levels: Vec<bool> = Vec::new();
        let mut k: usize = 0;
        while k < 24
            invariant
                p == bit_period(*self),
                bits@.len() == 24,
                forall|j: int| 0 <= j < 24 ==> bits@[j] == data_bit(color, j),
                k <= 24,
                levels@.len() == k * p,
                forall|j: int, c: int|
                    0 <= j < k && 0 <= c < p ==> levels@[j * p + c] == line_level(
                        *self,
                        data_bit(color, j),
                        c,
                    ),
            decreases 24 - k,
        {
            let one = self.bit_waveform(bits[k]);
            let ghost before = levels@;
            let mut c: usize = 0;
            while c < one.len()
                invariant
                    p == bit_period(*self),
                    one@.len() == p,
                    k < 24,
                    c <= p,
                    levels@.len() == k * p + c,
                    levels@.subrange(0, k * p) == before.subrange(0, k * p),
                    before.len() == k * p,
                    forall|d: int| 0 <= d < c ==> levels@[k * p + d] == one@[d],
                decreases one@.len() - c,
            {
                levels.push(one[c]);
                c = c + 1;
            }
            assert forall|j: int, d: int|
                0 <= j < k + 1 && 0 <= d < p implies levels@[j * p + d] == line_level(
                *self,
                data_bit(color, j),
                d,
            ) by {
                assert(0 <= j * p) by (nonlinear_arith)
                    requires
                        0 <= j,
                        0 <= p,
                ;
                if j < k {
                    assert(j * p + d < k * p) by (nonlinear_arith)
                        requires
                            0 <= j < k,
                            0 <= d < p,
                    ;
                    assert(levels@[j * p + d] == levels@.subrange(0, k * p)[j * p + d]);
                    assert(before[j * p + d] == before.subrange(0, k * p)[j * p + d]);
                } else {
                    assert(j == k);
                }
            }
            k = k + 1;
            assert(levels@.len() == k * p) by (nonlinear_arith)
                requires
                    levels@.len() == (k - 1) * p + p,
            ;
        }
        levels
    }
}

/// The state machine's clock divider: an integer part (0 standing for 65536) and
/// a fraction in 256ths.
#[derive(Clone, Copy, Debug, PartialEq, Eq, Structural)]
pub struct ClockDivider {
    pub integer: u32,
    pub fraction: u8,
}

/// The divider is defined when the bit clock is positive and the integer quotient
/// is between 1 and 65536.
pub open spec fn divider_defined(clock_hz: int, bit_clock_hz: int) -> bool {
    bit_clock_hz > 0 && 1 <= clock_hz / bit_clock_hz <= 65536
}

/// Computes the divider that slows `clock_hz` down to `bit_rate_hz * cycles_per_bit`,
/// so that one bit spans exactly `cycles_per_bit` cycles.
pub fn clock_divider(clock_hz: u32, bit_rate_hz: u32, cycles_per_bit: u32) -> (r: Option<
    ClockDivider,
>)
    ensures
        r is Some <==> divider_defined(clock_hz as int, bit_rate_hz * cycles_per_bit),
        r matches Some(d) ==> {
            let bit_clock = bit_rate_hz * cycles_per_bit;
            let q = clock_hz as int / bit_clock;
            &&& d.integer == (if q == 65536 {
                0
            } else {
                q
            })
            &&& d.fraction == (clock_hz as int % bit_clock) * 256 / bit_clock
        },
{
    assert(bit_rate_hz as u64 * cycles_per_bit as u64 <= 0xffff_ffff * 0xffff_ffff) by (
    nonlinear_arith);
    let bit_clock: u64 = bit_rate_hz as u64 * cycles_per_bit as u64;
    if bit_clock == 0 {
        return None;
    }
    let q: u64 = clock_hz as u64 / bit_clock;
    if q < 1 || q > 65536 {
        return None;
    }
    proof {
        vstd::arithmetic::div_mod::lemma_fundamental_div_mod(clock_hz as int, bit_clock as int);
        assert(q * bit_clock == bit_clock * q) by (nonlinear_arith);
    }
    let rem: u64 = clock_hz as u64 - q * bit_clock;
    proof {
        let r = rem as int;
        let b = bit_clock as int;
        assert(r == clock_hz as int % b);
        assert(r * 256 < b * 256) by (nonlinear_arith)
            requires
                r < b,
        ;
        vstd::arithmetic::div_mod::lemma_multiply_divide_lt(r * 256, b, 256);
    }
    let fraction = (rem * 256 / bit_clock) as u8;
    let integer: u32 = if q == 65536 {
        0
    } else {
        q as u32
    };
    Some(ClockDivider { integer, fraction })
}

impl ClockDivider {
    /// The divider register value: the integer part above the 8-bit fraction.
    pub fn register_value(&self) -> (v: u32)
        requires
            self.integer <= 65535,
        ensures
            v == self.integer * 256 + self.fraction,
    {
        self.integer * 256 + self.fraction as u32
    }

    /// The divisor in 256ths, with the integer part 0 read as 65536.
    pub fn divisor_256ths(&self) -> (v: u32)
        requires
            self.integer <= 65535,
        ensures
            v == (if self.integer == 0 {
                65536
            } else {
                self.integer as int
            }) * 256 + self.fraction,
    {
        let integer: u32 = if self.integer == 0 {
            65536
        } else {
            self.integer
        };
        integer * 256 + self.fraction as u32
    }
}

} // verus!
