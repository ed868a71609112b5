use std::collections::HashSet;
use str_index::{StrIndex, StrRange};

#[test]
fn from_char_len_counts_utf8_bytes() {
    assert_eq!(StrIndex::from_char_len('😂'), StrIndex::from(4));
    assert_eq!(StrIndex::from_char_len('a'), StrIndex::from(1));
    assert_eq!(StrIndex::from_char_len('\0'), StrIndex::from(1));
    assert_eq!(StrIndex::from_char_len('\u{7f}'), StrIndex::from(1));
    assert_eq!(StrIndex::from_char_len('\u{80}'), StrIndex::from(2));
    assert_eq!(StrIndex::from_char_len('é'), StrIndex::from(2));
    assert_eq!(StrIndex::from_char_len('\u{7ff}'), StrIndex::from(2));
    assert_eq!(StrIndex::from_char_len('\u{800}'), StrIndex::from(3));
    assert_eq!(StrIndex::from_char_len('メ'), StrIndex::from(3));
    assert_eq!(StrIndex::from_char_len('\u{d7ff}'), StrIndex::from(3));
    assert_eq!(StrIndex::from_char_len('\u{e000}'), StrIndex::from(3));
    assert_eq!(StrIndex::from_char_len('\u{ffff}'), StrIndex::from(3));
    assert_eq!(StrIndex::from_char_len('\u{10000}'), StrIndex::from(4));
    assert_eq!(StrIndex::from_char_len('\u{10ffff}'), StrIndex::from(4));
}

#[test]
fn from_char_len_agrees_with_std() {
    for c in ['a', 'ß', 'メ', '😂', '\u{0}', '\u{10ffff}'] {
        assert_eq!(StrIndex::from_char_len(c).to_usize(), c.len_utf8());
    }
}

#[test]
fn from_str_len_counts_bytes() {
    assert_eq!(StrIndex::from_str_len("メカジキ"), StrIndex::from(12));
    assert_eq!(StrIndex::from_str_len(""), StrIndex::from(0));
    assert_eq!(StrIndex::from_str_len("swordfish"), StrIndex::from(9));
}

#[test]
fn raw_conversions_are_lossless() {
    for raw in [0u32, 1, 9, 10, 4_000_000_000, u32::MAX] {
        let index = StrIndex::from(raw);
        assert_eq!(u32::from(index), raw);
        assert_eq!(usize::from(index), raw as usize);
        assert_eq!(index.to_usize(), raw as usize);
        let back: u32 = index.into();
        assert_eq!(back, raw);
    }
}

#[test]
fn try_from_usize_narrows() {
    assert_eq!(StrIndex::try_from(0usize), Ok(StrIndex::from(0)));
    assert_eq!(StrIndex::try_from(12usize), Ok(StrIndex::from(12)));
    assert_eq!(
        StrIndex::try_from(u32::MAX as usize),
        Ok(StrIndex::from(u32::MAX))
    );
}

#[test]
fn try_from_usize_rejects_what_does_not_fit() {
    let too_large = (u32::MAX as u64 + 1) as usize;
    let error = StrIndex::try_from(too_large).unwrap_err();
    assert_eq!(error, u32::try_from(u64::MAX).unwrap_err());
    assert!(StrIndex::try_from(usize::MAX).is_err());
}

#[test]
fn default_index_is_zero() {
    assert_eq!(StrIndex::default(), StrIndex::from(0));
}

#[test]
fn checked_add_is_absent_on_overflow() {
    let five = StrIndex::from(5);
    let max = StrIndex::from(u32::MAX);
    assert_eq!(five.checked_add(StrIndex::from(10)), Some(StrIndex::from(15)));
    assert_eq!(max.checked_add(StrIndex::from(0)), Some(max));
    assert_eq!(StrIndex::from(u32::MAX - 1).checked_add(StrIndex::from(1)), Some(max));
    assert_eq!(max.checked_add(StrIndex::from(1)), None);
    assert_eq!(max.checked_add(max), None);
}

#[test]
fn checked_sub_is_absent_on_underflow() {
    let five = StrIndex::from(5);
    assert_eq!(five.checked_sub(StrIndex::from(2)), Some(StrIndex::from(3)));
    assert_eq!(five.checked_sub(five), Some(StrIndex::from(0)));
    assert_eq!(five.checked_sub(StrIndex::from(6)), None);
    assert_eq!(StrIndex::from(0).checked_sub(StrIndex::from(u32::MAX)), None);
}

#[test]
fn add_and_sub_wrap() {
    let max = StrIndex::from(u32::MAX);
    let one = StrIndex::from(1);
    let zero = StrIndex::from(0);
    assert_eq!(StrIndex::from(7) + StrIndex::from(8), StrIndex::from(15));
    assert_eq!(StrIndex::from(8) - StrIndex::from(7), one);
    assert_eq!(max + one, zero);
    assert_eq!(max + max, StrIndex::from(u32::MAX - 1));
    assert_eq!(zero - one, max);
    assert_eq!(zero - max, one);
}

#[test]
fn operators_take_owned_and_borrowed() {
    let a = StrIndex::from(20);
    let b = StrIndex::from(5);
    assert_eq!(a + b, StrIndex::from(25));
    assert_eq!(&a + b, StrIndex::from(25));
    assert_eq!(a + &b, StrIndex::from(25));
    assert_eq!(&a + &b, StrIndex::from(25));
    assert_eq!(a - b, StrIndex::from(15));
    assert_eq!(&a - b, StrIndex::from(15));
    assert_eq!(a - &b, StrIndex::from(15));
    assert_eq!(&a - &b, StrIndex::from(15));
}

#[test]
fn assigning_operators_replace_the_value() {
    let mut index = StrIndex::from(20);
    index += StrIndex::from(5);
    assert_eq!(index, StrIndex::from(25));
    index += &StrIndex::from(5);
    assert_eq!(index, StrIndex::from(30));
    index -= StrIndex::from(10);
    assert_eq!(index, StrIndex::from(20));
    index -= &StrIndex::from(21);
    assert_eq!(index, StrIndex::from(u32::MAX));
    index += StrIndex::from(1);
    assert_eq!(index, StrIndex::from(0));
}

#[test]
fn indices_order_as_their_integers() {
    let small = StrIndex::from(3);
    let large = StrIndex::from(4_000_000_000);
    assert!(small < large);
    assert!(small <= large);
    assert!(large > small);
    assert!(large >= small);
    assert!(small <= small);
    assert!(!(small < small));
    assert_eq!(small.partial_cmp(&large), Some(std::cmp::Ordering::Less));
    assert_eq!(large.partial_cmp(&small), Some(std::cmp::Ordering::Greater));
    assert_eq!(small.partial_cmp(&small), Some(std::cmp::Ordering::Equal));
    assert_eq!(small.cmp(&large), std::cmp::Ordering::Less);
    assert_eq!(small.max(large), large);
    assert_eq!(small.min(large), small);
}

#[test]
fn equal_indices_hash_alike() {
    let mut seen = HashSet::new();
    assert!(seen.insert(StrIndex::from(7)));
    assert!(!seen.insert(StrIndex::from(7)));
    assert!(seen.insert(StrIndex::from(8)));
}

#[test]
fn index_reads_as_its_decimal() {
    assert_eq!(StrIndex::from(0).to_string(), "0");
    assert_eq!(StrIndex::from(7).to_string(), "7");
    assert_eq!(StrIndex::from(10).to_string(), "10");
    assert_eq!(StrIndex::from(120).to_string(), "120");
    assert_eq!(StrIndex::from(4_294_967_295).to_string(), "4294967295");
    for raw in [0u32, 9, 10, 99, 100, 1234567890, u32::MAX] {
        assert_eq!(StrIndex::from(raw).to_string(), raw.to_string());
    }
}

#[test]
fn range_for_starts_here_and_has_the_length() {
    let point = StrIndex::from(5);
    assert_eq!(
        point.range_for(10.into()),
        StrRange::from(5.into()..15.into()),
    );
    assert_eq!(point.range_for(0.into()), point.as_unit_range());
    let last = StrIndex::from(u32::MAX - 5).range_for(5.into());
    assert_eq!(last.end(), StrIndex::from(u32::MAX));
    assert_eq!(last.len(), StrIndex::from(5));
}

#[test]
fn range_to_runs_between_the_two() {
    let start = StrIndex::from(0);
    let end = StrIndex::from(10);
    assert_eq!(start.range_to(end), StrRange::from(start..end));
    assert_eq!(end.range_to(end), end.as_unit_range());
}

#[test]
fn as_unit_range_is_empty_at_the_point() {
    let point = StrIndex::from(10);
    assert_eq!(point.as_unit_range(), point.range_to(point));
    assert!(point.as_unit_range().is_empty());
    assert_eq!(point.as_unit_range().start(), point);
    assert_eq!(point.as_unit_range().end(), point);
}
