//! Fixed-point numbers with one integer bit (the sign) and 15, 31 or 63
//! fractional bits, as used for the noise parameter and the gradients of a
//! training session. A number is held by its bit pattern: the bits `b` of a
//! number with `f` fractional bits stand for `b / 2^f`.
use vstd::prelude::*;

verus! {

/// `2^e`.
pub open spec fn pow2(e: nat) -> nat
    decreases e,
{
    if e == 0 {
        1
    } else {
        2 * pow2((e - 1) as nat)
    }
}

/// A number with 15 fractional bits (`FixedI16<U15>`).
#[derive(Clone, Copy, Debug, PartialEq, Eq, Structural)]
pub struct Fixed16 {
    pub bits: i16,
}

/// A number with 31 fractional bits (`FixedI32<U31>`).
#[derive(Clone, Copy, Debug, PartialEq, Eq, Structural)]
pub struct Fixed32 {
    pub bits: i32,
}

/// A number with 63 fractional bits (`FixedI64<U63>`).
#[derive(Clone, Copy, Debug, PartialEq, Eq, Structural)]
pub struct Fixed64 {
    pub bits: i64,
}

//////////////////////////////////////////////////
// Existentially quantified fixed type

/// A fixed-point number of one of the three widths.
#[derive(Clone, Copy, Debug, PartialEq, Eq, Structural)]
pub enum FixedAny {
    Fixed16(Fixed16),
    Fixed32(Fixed32),
    Fixed64(Fixed64),
}

/// A vector of fixed-point numbers, all of one of the three widths.
#[derive(Debug)]
pub enum VecFixedAny {
    VecFixed16(Vec<Fixed16>),
    VecFixed32(Vec<Fixed32>),
    VecFixed64(Vec<Fixed64>),
}

///////////////////////////////////////////////////
// Type tags

/// Names one of the three fixed-point widths.
#[derive(Clone, Copy, Debug, PartialEq, Eq, Structural)]
pub enum FixedTypeTag {
    FixedType16Bit,
    FixedType32Bit,
    FixedType64Bit,
}

/// A type that is named by a value of `Tag`.
pub trait IsTagInstance<Tag> {
    fn get_tag() -> Tag;
}

impl IsTagInstance<FixedTypeTag> for Fixed16 {
    fn get_tag() -> (r: FixedTypeTag)
        ensures
            r == FixedTypeTag::FixedType16Bit,
    {
        FixedTypeTag::FixedType16Bit
    }
}

impl IsTagInstance<FixedTypeTag> for Fixed32 {
    fn get_tag() -> (r: FixedTypeTag)
        ensures
            r == FixedTypeTag::FixedType32Bit,
    {
        FixedTypeTag::FixedType32Bit
    }
}

impl IsTagInstance<FixedTypeTag> for Fixed64 {
    fn get_tag() -> (r: FixedTypeTag)
        ensures
            r == FixedTypeTag::FixedType64Bit,
    {
        FixedTypeTag::FixedType64Bit
    }
}

/// The number of fractional bits of the width `tag`.
pub open spec fn frac_nbits(tag: FixedTypeTag) -> nat {
    match tag {
        FixedTypeTag::FixedType16Bit => 15,
        FixedTypeTag::FixedType32Bit => 31,
        FixedTypeTag::FixedType64Bit => 63,
    }
}

/// The number of integer bits (the sign bit) of every width.
pub open spec fn int_nbits(tag: FixedTypeTag) -> nat {
    1
}

/// The factor that maps the real interval `[-1, 1)` onto the range of bit
/// patterns of the width `tag`: the number of bit patterns per unit, which is
/// `2^(n-1)` for `n` the total number of bits (see
/// [`lemma_scale_is_power_of_two`]).
pub open spec fn scale(tag: FixedTypeTag) -> nat {
    match tag {
        FixedTypeTag::FixedType16Bit => 32768,
        FixedTypeTag::FixedType32Bit => 2147483648,
        FixedTypeTag::FixedType64Bit => 9223372036854775808,
    }
}

/// The width of a fixed-point number.
pub open spec fn tag_of(x: FixedAny) -> FixedTypeTag {
    match x {
        FixedAny::Fixed16(_) => FixedTypeTag::FixedType16Bit,
        FixedAny::Fixed32(_) => FixedTypeTag::FixedType32Bit,
        FixedAny::Fixed64(_) => FixedTypeTag::FixedType64Bit,
    }
}

/// The bit pattern of a fixed-point number, as an integer.
pub open spec fn bits_of(x: FixedAny) -> int {
    match x {
        FixedAny::Fixed16(f) => f.bits as int,
        FixedAny::Fixed32(f) => f.bits as int,
        FixedAny::Fixed64(f) => f.bits as int,
    }
}

/// The fixed-point number of width `tag` with the bit pattern `v` (which is
/// in the range of the width).
pub open spec fn with_bits(tag: FixedTypeTag, v: int) -> FixedAny {
    match tag {
        FixedTypeTag::FixedType16Bit => FixedAny::Fixed16(Fixed16 { bits: v as i16 }),
        FixedTypeTag::FixedType32Bit => FixedAny::Fixed32(Fixed32 { bits: v as i32 }),
        FixedTypeTag::FixedType64Bit => FixedAny::Fixed64(Fixed64 { bits: v as i64 }),
    }
}

/// The scale of each width is `2^(n-1)`, for `n` its total number of bits
/// (fractional bits and the sign bit).
pub proof fn lemma_scale_is_power_of_two(tag: FixedTypeTag)
    ensures
        scale(tag) == pow2((frac_nbits(tag) + int_nbits(tag) - 1) as nat),
{
    reveal_with_fuel(pow2, 64);
}

/// The scale factor `2^(n-1)` of the width `tag`, with `n` its total number of
/// bits: the number of bit patterns per unit.
pub fn scale_factor(tag: FixedTypeTag) -> (r: u64)
    ensures
        r == scale(tag),
{
    match tag {
        FixedTypeTag::FixedType16Bit => 32768,
        FixedTypeTag::FixedType32Bit => 2147483648,
        FixedTypeTag::FixedType64Bit => 9223372036854775808,
    }
}

/// The fixed-point number of width `tag` whose bit pattern is the integer `v`,
/// if `v` is in the range of the width, that is `-2^(n-1) <= v < 2^(n-1)`.
pub fn fixed_from_bits(tag: FixedTypeTag, v: i128) -> (r: Option<FixedAny>)
    ensures
        r is Some <==> -(scale(tag) as int) <= v < scale(tag),
        r matches Some(x) ==> x == with_bits(tag, v as int) && tag_of(x) == tag && bits_of(x) == v,
{
    match tag {
        FixedTypeTag::FixedType16Bit => {
            if -32768 <= v && v < 32768 {
                Some(FixedAny::Fixed16(Fixed16 { bits: v as i16 }))
            } else {
                None
            }
        },
        FixedTypeTag::FixedType32Bit => {
            if -2147483648 <= v && v < 2147483648 {
                Some(FixedAny::Fixed32(Fixed32 { bits: v as i32 }))
            } else {
                None
            }
        },
        FixedTypeTag::FixedType64Bit => {
            if -9223372036854775808 <= v && v < 9223372036854775808 {
                Some(FixedAny::Fixed64(Fixed64 { bits: v as i64 }))
            } else {
                None
            }
        },
    }
}

} // verus!
