use vstd::arithmetic::power2::lemma2_to64;
use vstd::arithmetic::power2::lemma_pow2_adds;
use vstd::arithmetic::power2::lemma_pow2_pos;
use vstd::arithmetic::power2::lemma_pow2_strictly_increases;
use vstd::arithmetic::power2::lemma_pow2_unfold;
use vstd::arithmetic::power2::pow2;
use vstd::prelude::*;

verus! {

/// The bit pattern of the single-precision float 1.0.
pub const ONE: u32 = 0x3F80_0000;

/// The sign of the float of the bit pattern `bits`: one for the negative
/// floats, negative zero among them.
pub open spec fn sign_field(bits: u32) -> int {
    bits as int / 0x8000_0000
}

pub open spec fn exponent_field(bits: u32) -> int {
    (bits as int / 0x80_0000) % 0x100
}

pub open spec fn mantissa_field(bits: u32) -> int {
    bits as int % 0x80_0000
}

/// Whether the bit pattern is of no number.
pub open spec fn is_nan(bits: u32) -> bool {
    exponent_field(bits) == 0xFF && mantissa_field(bits) != 0
}

/// The magnitude of a finite float is `significand` over two to the
/// `binary_places`.
pub open spec fn significand(bits: u32) -> int {
    if exponent_field(bits) == 0 {
        mantissa_field(bits)
    } else {
        mantissa_field(bits) + 0x80_0000
    }
}

pub open spec fn binary_places(bits: u32) -> int {
    if exponent_field(bits) == 0 {
        149
    } else {
        150 - exponent_field(bits)
    }
}

/// How many of its lowest bits a number gives up to fit the twenty-four
/// bits of a single-precision significand.
pub open spec fn excess_bits(value: int) -> int
    decreases value,
{
    if value < 0x100_0000 {
        0
    } else {
        1 + excess_bits(value / 2)
    }
}

/// `value` over two to the `places`, rounded to the nearest whole number,
/// and to the even one of two that are equally near.
pub open spec fn rounded_to_even(value: int, places: nat) -> int {
    let unit = pow2(places) as int;
    let whole = value / unit;
    let rest = value % unit;
    if 2 * rest > unit || (2 * rest == unit && whole % 2 == 1) {
        whole + 1
    } else {
        whole
    }
}

/// `value` over two to the `places`, rounded to the nearest whole number,
/// and up where two are equally near.
pub open spec fn rounded_half_up(value: int, places: nat) -> int {
    (2 * value + pow2(places)) / (2 * pow2(places) as int)
}

/// The eight-bit level of a color channel given as a single-precision
/// float: the channel is held to the range from zero to one, multiplied by
/// 255 in single precision, and rounded to the nearest whole number, away
/// from zero where two are equally near. What is no number gives zero.
pub open spec fn quantized_unorm8(bits: u32) -> int {
    if sign_field(bits) == 1 || is_nan(bits) {
        0
    } else if bits >= ONE {
        255
    } else {
        let product = 255 * significand(bits);
        let excess = excess_bits(product);
        let kept = rounded_to_even(product, excess as nat);
        rounded_half_up(kept, (binary_places(bits) - excess) as nat)
    }
}

/// Four color channels of eight bits in one word: red in the lowest byte,
/// then green, then blue, alpha in the highest.
pub open spec fn packed_unorm4x8(r: u8, g: u8, b: u8, a: u8) -> u32 {
    (r as u32) | ((g as u32) << 8) | ((b as u32) << 16) | ((a as u32) << 24)
}

/// The level of one color channel, given as the bit pattern of a
/// single-precision float.
pub fn quantize_unorm8(bits: u32) -> (level: u8)
    ensures
        level == quantized_unorm8(bits),
{
    let sign: u32 = bits / 0x8000_0000;
    let exponent: u32 = (bits / 0x80_0000) % 0x100;
    let mantissa: u32 = bits % 0x80_0000;
    if sign == 1 || (exponent == 0xFF && mantissa != 0) {
        return 0;
    }
    if bits >= ONE {
        return 255;
    }
    let significand: u64 = if exponent == 0 {
        mantissa as u64
    } else {
        mantissa as u64 + 0x80_0000
    };
    let places: u32 = if exponent == 0 {
        149
    } else {
        150 - exponent
    };
    let product: u64 = 255 * significand;
    let mut excess: u32 = 0;
    let mut unit: u64 = 1;
    let mut rest: u64 = product;
    proof {
        lemma2_to64();
    }
    while rest >= 0x100_0000
        invariant
            product < 0x1_0000_0000,
            excess + excess_bits(rest as int) == excess_bits(product as int),
            unit == pow2(excess as nat),
            unit >= 1,
            rest * unit <= product < (rest + 1) * unit,
            excess <= 8,
        decreases rest,
    {
        proof {
            lemma2_to64();
            lemma_pow2_unfold((excess + 1) as nat);
            assert(unit < 0x100) by (nonlinear_arith)
                requires
                    rest >= 0x100_0000,
                    rest * unit <= product,
                    product < 0x1_0000_0000,
                    unit >= 1,
            ;
            if excess == 8 {
                assert(unit == 0x100);
            }
            assert((rest / 2) * (2 * unit) <= rest * unit && (rest + 1) * unit <= (rest / 2 + 1)
                * (2 * unit)) by (nonlinear_arith)
                requires
                    unit >= 1,
                    rest >= 0,
            ;
        }
        rest = rest / 2;
        unit = unit * 2;
        excess = excess + 1;
    }
    proof {
        assert(unit <= 0x100) by {
            lemma2_to64();
            if excess < 8 {
                lemma_pow2_strictly_increases(excess as nat, 8);
            }
        }
    }
    let whole: u64 = product / unit;
    let remainder: u64 = product % unit;
    proof {
        assert(whole < 0x100_0000) by (nonlinear_arith)
            requires
                whole == product / unit,
                product < (rest + 1) * unit,
                rest < 0x100_0000,
                unit >= 1,
        ;
    }
    let kept: u64 = if 2 * remainder > unit || (2 * remainder == unit && whole % 2 == 1) {
        whole + 1
    } else {
        whole
    };
    assert(kept == rounded_to_even(product as int, excess as nat));
    let shift: u32 = places - excess;
    if shift >= 26 {
        proof {
            lemma2_to64();
            if shift > 26 {
                lemma_pow2_strictly_increases(26, shift as nat);
            }
            let power = pow2(shift as nat) as int;
            assert((2 * kept + power) / (2 * power) == 0) by (nonlinear_arith)
                requires
                    0 <= 2 * kept < power,
            ;
        }
        return 0;
    }
    let mut denominator: u64 = 1;
    let mut n: u32 = 0;
    while n < shift
        invariant
            n <= shift < 26,
            denominator == pow2(n as nat),
            denominator <= 0x200_0000,
        decreases shift - n,
    {
        proof {
            lemma2_to64();
            lemma_pow2_unfold((n + 1) as nat);
            if n + 1 < 25 {
                lemma_pow2_strictly_increases((n + 1) as nat, 25);
            }
        }
        denominator = denominator * 2;
        n = n + 1;
    }
    proof {
        lemma2_to64();
        lemma_pow2_adds(shift as nat, excess as nat);
        if places > 24 {
            lemma_pow2_strictly_increases(24, places as nat);
        }
        assert(significand < denominator * unit);
        assert(whole < 255 * denominator) by (nonlinear_arith)
            requires
                whole == product / unit,
                product == 255 * significand,
                significand < denominator * unit,
                unit >= 1,
                denominator >= 1,
        ;
        assert((2 * kept + denominator) / (2 * denominator as int) <= 255) by (nonlinear_arith)
            requires
                0 <= kept <= 255 * denominator,
                denominator >= 1,
        ;
    }
    let level: u64 = (2 * kept + denominator) / (2 * denominator);
    level as u8
}

/// Packs the eight-bit channels red, green, blue, alpha into one word.
pub fn pack_channels(channels: [u8; 4]) -> (pixel: u32)
    ensures
        pixel == packed_unorm4x8(channels[0], channels[1], channels[2], channels[3]),
{
    let r: u32 = channels[0] as u32;
    let g: u32 = channels[1] as u32;
    let b: u32 = channels[2] as u32;
    let a: u32 = channels[3] as u32;
    r | (g << 8) | (b << 16) | (a << 24)
}

/// Packs a color of four single-precision channels, each given as its bit
/// pattern, into one word of eight bits per channel.
pub fn pack_unorm4x8(vec: [u32; 4]) -> (pixel: u32)
    ensures
        pixel == packed_unorm4x8(
            quantized_unorm8(vec[0]) as u8,
            quantized_unorm8(vec[1]) as u8,
            quantized_unorm8(vec[2]) as u8,
            quantized_unorm8(vec[3]) as u8,
        ),
{
    let r = quantize_unorm8(vec[0]);
    let g = quantize_unorm8(vec[1]);
    let b = quantize_unorm8(vec[2]);
    let a = quantize_unorm8(vec[3]);
    pack_channels([r, g, b, a])
}

/// Takes a packed pixel apart into red, green, blue, alpha.
pub fn unpack_unorm4x8(pixel: u32) -> (channels: [u8; 4])
    ensures
        packed_unorm4x8(channels[0], channels[1], channels[2], channels[3]) == pixel,
        channels[0] == pixel & 0xFF,
        channels[1] == (pixel >> 8) & 0xFF,
        channels[2] == (pixel >> 16) & 0xFF,
        channels[3] == (pixel >> 24) & 0xFF,
{
    let r: u8 = (pixel & 0xFF) as u8;
    let g: u8 = ((pixel >> 8) & 0xFF) as u8;
    let b: u8 = ((pixel >> 16) & 0xFF) as u8;
    let a: u8 = ((pixel >> 24) & 0xFF) as u8;
    assert(((pixel & 0xFF) as u8) as u32 == pixel & 0xFF && (((pixel >> 8) & 0xFF) as u8) as u32
        == (pixel >> 8) & 0xFF && (((pixel >> 16) & 0xFF) as u8) as u32 == (pixel >> 16) & 0xFF
        && (((pixel >> 24) & 0xFF) as u8) as u32 == (pixel >> 24) & 0xFF && pixel & 0xFF < 256
        && (pixel >> 8) & 0xFF < 256 && (pixel >> 16) & 0xFF < 256 && (pixel >> 24) & 0xFF < 256)
        by (bit_vector);
    assert(packed_unorm4x8(r, g, b, a) == pixel) by (bit_vector)
        requires
            r == (pixel & 0xFF) as u8,
            g == ((pixel >> 8) & 0xFF) as u8,
            b == ((pixel >> 16) & 0xFF) as u8,
            a == ((pixel >> 24) & 0xFF) as u8,
    ;
    [r, g, b, a]
}

/// Packing keeps every channel: each byte of the word is the channel put
/// there, and the word is the sum of the channels at their weights.
pub proof fn lemma_pack_round_trip(r: u8, g: u8, b: u8, a: u8)
    ensures
        packed_unorm4x8(r, g, b, a) & 0xFF == r,
        (packed_unorm4x8(r, g, b, a) >> 8) & 0xFF == g,
        (packed_unorm4x8(r, g, b, a) >> 16) & 0xFF == b,
        (packed_unorm4x8(r, g, b, a) >> 24) & 0xFF == a,
        packed_unorm4x8(r, g, b, a) == r + 0x100 * g + 0x1_0000 * b + 0x100_0000 * a,
{
    assert(packed_unorm4x8(r, g, b, a) & 0xFF == r) by (bit_vector);
    assert((packed_unorm4x8(r, g, b, a) >> 8) & 0xFF == g) by (bit_vector);
    assert((packed_unorm4x8(r, g, b, a) >> 16) & 0xFF == b) by (bit_vector);
    assert((packed_unorm4x8(r, g, b, a) >> 24) & 0xFF == a) by (bit_vector);
    assert(packed_unorm4x8(r, g, b, a) == r + 0x100 * g + 0x1_0000 * b + 0x100_0000 * a)
        by (bit_vector);
}

/// Channels at and above one are at full level; channels at and below
/// zero, and what is no number, are at level zero; and every level is one
/// of the 256.
pub proof fn lemma_quantized_range(bits: u32)
    ensures
        0 <= quantized_unorm8(bits) <= 255,
        ONE <= bits < 0x7F80_0001 ==> quantized_unorm8(bits) == 255,
        bits >= 0x8000_0000 ==> quantized_unorm8(bits) == 0,
        bits == 0 ==> quantized_unorm8(bits) == 0,
{
    lemma2_to64();
    if bits == 0 {
        assert(excess_bits(0) == 0);
        assert(pow2(149) >= 1) by {
            lemma_pow2_pos(149);
        }
        let power = pow2(149) as int;
        assert((2 * 0 + power) / (2 * power) == 0) by (nonlinear_arith)
            requires
                power >= 1,
        ;
    } else if sign_field(bits) == 1 || is_nan(bits) || bits >= ONE {
    } else {
        lemma_quantized_below_one(bits);
    }
}

/// A channel from zero up to one, one left out, has a level from 0 to 255.
proof fn lemma_quantized_below_one(bits: u32)
    requires
        bits < ONE,
    ensures
        0 <= quantized_unorm8(bits) <= 255,
{
    let product = 255 * significand(bits);
    let excess = excess_bits(product);
    lemma_excess_bits(product);
    let unit = pow2(excess as nat) as int;
    let kept = rounded_to_even(product, excess as nat);
    let places = binary_places(bits);
    let shift = (places - excess) as nat;
    let power = pow2(shift) as int;
    lemma2_to64();
    lemma_pow2_pos(shift);
    lemma_pow2_pos(excess as nat);
    lemma_pow2_adds(shift, excess as nat);
    if places > 24 {
        lemma_pow2_strictly_increases(24, places as nat);
    }
    assert(significand(bits) < power * unit);
    assert(0 <= product / unit < 255 * power) by (nonlinear_arith)
        requires
            product == 255 * significand(bits),
            0 <= significand(bits) < power * unit,
            unit >= 1,
            power >= 1,
    ;
    assert(0 <= (2 * kept + power) / (2 * power) <= 255) by (nonlinear_arith)
        requires
            0 <= kept <= 255 * power,
            power >= 1,
    ;
}

/// A number below two to the thirty-second gives up at most eight bits.
proof fn lemma_excess_bits(value: int)
    requires
        0 <= value < 0x1_0000_0000,
    ensures
        0 <= excess_bits(value) <= 8,
{
    reveal_with_fuel(excess_bits, 10);
}

} // verus!
