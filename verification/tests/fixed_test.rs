use dpsa4fl_janus_tasks::fixed::{
    fixed_from_bits, scale_factor, Fixed16, Fixed32, Fixed64, FixedAny, FixedTypeTag, IsTagInstance,
};

#[test]
fn tags_of_the_fixed_types() {
    assert_eq!(<Fixed16 as IsTagInstance<FixedTypeTag>>::get_tag(), FixedTypeTag::FixedType16Bit);
    assert_eq!(<Fixed32 as IsTagInstance<FixedTypeTag>>::get_tag(), FixedTypeTag::FixedType32Bit);
    assert_eq!(<Fixed64 as IsTagInstance<FixedTypeTag>>::get_tag(), FixedTypeTag::FixedType64Bit);
}

#[test]
fn scale_factors_are_powers_of_two() {
    assert_eq!(scale_factor(FixedTypeTag::FixedType16Bit), 1u64 << 15);
    assert_eq!(scale_factor(FixedTypeTag::FixedType32Bit), 1u64 << 31);
    assert_eq!(scale_factor(FixedTypeTag::FixedType64Bit), 1u64 << 63);
}

#[test]
fn from_bits_keeps_values_in_range() {
    assert_eq!(
        fixed_from_bits(FixedTypeTag::FixedType16Bit, 1),
        Some(FixedAny::Fixed16(Fixed16 { bits: 1 }))
    );
    assert_eq!(
        fixed_from_bits(FixedTypeTag::FixedType16Bit, -32768),
        Some(FixedAny::Fixed16(Fixed16 { bits: -32768 }))
    );
    assert_eq!(
        fixed_from_bits(FixedTypeTag::FixedType16Bit, 32767),
        Some(FixedAny::Fixed16(Fixed16 { bits: 32767 }))
    );
    assert_eq!(fixed_from_bits(FixedTypeTag::FixedType16Bit, 32768), None);
    assert_eq!(fixed_from_bits(FixedTypeTag::FixedType16Bit, -32769), None);
    assert_eq!(
        fixed_from_bits(FixedTypeTag::FixedType32Bit, 1 << 30),
        Some(FixedAny::Fixed32(Fixed32 { bits: 1 << 30 }))
    );
    assert_eq!(fixed_from_bits(FixedTypeTag::FixedType32Bit, 1 << 31), None);
    assert_eq!(
        fixed_from_bits(FixedTypeTag::FixedType64Bit, i64::MIN as i128),
        Some(FixedAny::Fixed64(Fixed64 { bits: i64::MIN }))
    );
    assert_eq!(fixed_from_bits(FixedTypeTag::FixedType64Bit, i64::MAX as i128 + 1), None);
}
