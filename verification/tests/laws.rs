use nanokit::count_bits::BitsNeeded;
use nanokit::string_concat::{concat_2, concat_3, concat_4, concat_5};
use nanokit::string_concat_unsafe::{
    concat_2_no_overflow, concat_3_no_overflow, concat_4_no_overflow, concat_5_no_overflow,
};

fn naive_join(pieces: &[&str]) -> String {
    let mut joined = String::new();
    for piece in pieces {
        joined.push_str(piece);
    }
    joined
}

const SAMPLES: [&str; 7] = ["", "a", "Hello", ", ", "naïve café", "日本語", "🦀 crab"];

#[test]
fn concat_equals_left_to_right_join_for_every_arity() {
    for a in SAMPLES {
        for b in SAMPLES {
            assert_eq!(concat_2(a, b), naive_join(&[a, b]));
            for c in SAMPLES {
                assert_eq!(concat_3(a, b, c), naive_join(&[a, b, c]));
                assert_eq!(concat_4(a, b, c, a), naive_join(&[a, b, c, a]));
                assert_eq!(concat_5(c, a, b, c, b), naive_join(&[c, a, b, c, b]));
            }
        }
    }
}

#[test]
fn concat_is_byte_for_byte_the_pieces_in_order() {
    let out = concat_3("é", "日本", "🦀");
    let mut expected: Vec<u8> = Vec::new();
    expected.extend_from_slice("é".as_bytes());
    expected.extend_from_slice("日本".as_bytes());
    expected.extend_from_slice("🦀".as_bytes());
    assert_eq!(out.as_bytes(), expected.as_slice());
    let spelled: [u8; 12] =
        [0xC3, 0xA9, 0xE6, 0x97, 0xA5, 0xE6, 0x9C, 0xAC, 0xF0, 0x9F, 0xA6, 0x80];
    assert_eq!(out.as_bytes(), spelled);
}

#[test]
fn concat_length_is_the_sum_of_the_lengths() {
    for a in SAMPLES {
        for b in SAMPLES {
            assert_eq!(concat_2(a, b).len(), a.len() + b.len());
            assert_eq!(concat_3(a, b, a).len(), a.len() + b.len() + a.len());
            assert_eq!(concat_4(a, b, a, b).len(), 2 * a.len() + 2 * b.len());
            assert_eq!(concat_5(a, b, a, b, a).len(), 3 * a.len() + 2 * b.len());
        }
    }
    assert_eq!(concat_2("naïve café", "日本語").len(), 21);
    assert_eq!(concat_2("naïve café", "日本語").chars().count(), 13);
}

#[test]
fn concat_reserves_room_for_the_whole_result() {
    assert!(concat_2("Hello, ", "world!").capacity() >= 13);
    assert!(concat_5("The", " quick", " brown", " fox", " jumps").capacity() >= 25);
    assert!(concat_3_no_overflow("a", "日本語", "z").capacity() >= 11);
}

#[test]
fn empty_pieces_add_nothing() {
    assert_eq!(concat_2("", ""), "");
    assert_eq!(concat_2("A", "B"), "AB");
    for a in SAMPLES {
        for b in SAMPLES {
            assert_eq!(concat_2(a, ""), a);
            assert_eq!(concat_2("", b), b);
            assert_eq!(concat_3(a, "", b), concat_2(a, b));
            assert_eq!(concat_3("", a, b), concat_2(a, b));
            assert_eq!(concat_3(a, b, ""), concat_2(a, b));
            assert_eq!(concat_4(a, "", b, ""), concat_2(a, b));
            assert_eq!(concat_4(a, b, "", a), concat_3(a, b, a));
            assert_eq!(concat_5("", a, "", b, ""), concat_2(a, b));
            assert_eq!(concat_5(a, b, a, "", b), concat_4(a, b, a, b));
        }
    }
}

#[test]
fn no_overflow_variants_return_what_the_checked_ones_return() {
    for a in SAMPLES {
        for b in SAMPLES {
            assert_eq!(concat_2_no_overflow(a, b), concat_2(a, b));
            for c in SAMPLES {
                assert_eq!(concat_3_no_overflow(a, b, c), concat_3(a, b, c));
                assert_eq!(concat_4_no_overflow(a, b, c, b), concat_4(a, b, c, b));
                assert_eq!(concat_5_no_overflow(a, b, c, b, a), concat_5(a, b, c, b, a));
            }
        }
    }
}

#[test]
fn repeated_calls_give_identical_results() {
    let first = concat_4("The", " quick", " brown", " fox");
    let second = concat_4("The", " quick", " brown", " fox");
    assert_eq!(first.as_bytes(), second.as_bytes());
    let first = concat_5_no_overflow("Hello", ", ", "beautiful", " world", "!");
    let second = concat_5_no_overflow("Hello", ", ", "beautiful", " world", "!");
    assert_eq!(first.as_bytes(), second.as_bytes());
    for value in [0u64, 1, 2, 255, 256, u64::MAX] {
        assert_eq!(value.bits_needed_to_store(), value.bits_needed_to_store());
    }
    for value in [i32::MIN, -1, 0, 1, i32::MAX] {
        assert_eq!(value.bits_needed_to_store(), value.bits_needed_to_store());
    }
}

#[test]
fn end_to_end_four_and_five_pieces() {
    assert_eq!(concat_4("The", " quick", " brown", " fox"), "The quick brown fox");
    assert_eq!(concat_5("Hello", ", ", "beautiful", " world", "!"), "Hello, beautiful world!");
    assert_eq!(concat_4_no_overflow("The", " quick", " brown", " fox"), "The quick brown fox");
    assert_eq!(
        concat_5_no_overflow("Hello", ", ", "beautiful", " world", "!"),
        "Hello, beautiful world!"
    );
}

#[test]
fn bit_width_examples() {
    assert_eq!(0u8.bits_needed_to_store(), 0);
    assert_eq!(0i64.bits_needed_to_store(), 0);
    assert_eq!(1u32.bits_needed_to_store(), 1);
    assert_eq!(255u8.bits_needed_to_store(), 8);
    assert_eq!(256u16.bits_needed_to_store(), 9);
    assert_eq!((-1i8).bits_needed_to_store(), 8);
    assert_eq!(127i8.bits_needed_to_store(), 7);
    assert_eq!((-128i8).bits_needed_to_store(), 8);
}

#[test]
fn bits_needed_is_width_minus_leading_zeros() {
    for value in u8::MIN..=u8::MAX {
        assert_eq!(value.bits_needed_to_store(), 8 - value.leading_zeros());
    }
    for value in i8::MIN..=i8::MAX {
        assert_eq!(value.bits_needed_to_store(), 8 - value.leading_zeros());
    }
    for value in u16::MIN..=u16::MAX {
        assert_eq!(value.bits_needed_to_store(), 16 - value.leading_zeros());
    }
    for value in i16::MIN..=i16::MAX {
        assert_eq!(value.bits_needed_to_store(), 16 - value.leading_zeros());
    }
    for shift in 0..128u32 {
        let value: u128 = 1u128 << shift;
        assert_eq!(value.bits_needed_to_store(), shift + 1);
        assert_eq!((value - 1).bits_needed_to_store(), shift);
        assert_eq!((value as i128).bits_needed_to_store(), shift + 1);
    }
    for shift in 0..usize::BITS {
        let value: usize = 1usize << shift;
        assert_eq!(value.bits_needed_to_store(), shift + 1);
        assert_eq!((value - 1).bits_needed_to_store(), shift);
        assert_eq!((value as isize).bits_needed_to_store(), shift + 1);
    }
}

#[test]
fn positive_values_need_floor_log2_plus_one_bits() {
    for value in 1u32..=70_000 {
        assert_eq!(value.bits_needed_to_store(), value.ilog2() + 1);
    }
    for value in 1i64..=70_000 {
        assert_eq!(value.bits_needed_to_store(), value.ilog2() + 1);
    }
}

#[test]
fn bits_needed_stays_within_the_width() {
    for value in i16::MIN..=i16::MAX {
        assert!(value.bits_needed_to_store() <= 16);
    }
    assert!(u128::MAX.bits_needed_to_store() <= 128);
    assert!(isize::MIN.bits_needed_to_store() <= isize::BITS);
}

#[test]
fn negative_values_need_the_full_width() {
    for value in i8::MIN..0 {
        assert_eq!(value.bits_needed_to_store(), 8);
    }
    for value in i16::MIN..0 {
        assert_eq!(value.bits_needed_to_store(), 16);
    }
    assert_eq!((-1i32).bits_needed_to_store(), 32);
    assert_eq!(i64::MIN.bits_needed_to_store(), 64);
    assert_eq!((-12345i128).bits_needed_to_store(), 128);
    assert_eq!((-1isize).bits_needed_to_store(), isize::BITS);
}

#[test]
fn greatest_values_of_each_type() {
    assert_eq!(u8::MAX.bits_needed_to_store(), 8);
    assert_eq!(u16::MAX.bits_needed_to_store(), 16);
    assert_eq!(u32::MAX.bits_needed_to_store(), 32);
    assert_eq!(u64::MAX.bits_needed_to_store(), 64);
    assert_eq!(u128::MAX.bits_needed_to_store(), 128);
    assert_eq!(usize::MAX.bits_needed_to_store(), usize::BITS);
    assert_eq!(i8::MAX.bits_needed_to_store(), 7);
    assert_eq!(i16::MAX.bits_needed_to_store(), 15);
    assert_eq!(i32::MAX.bits_needed_to_store(), 31);
    assert_eq!(i64::MAX.bits_needed_to_store(), 63);
    assert_eq!(i128::MAX.bits_needed_to_store(), 127);
    assert_eq!(isize::MAX.bits_needed_to_store(), isize::BITS - 1);
}

#[test]
fn bits_needed_is_monotonic_on_values_that_are_not_negative() {
    for value in 0..u8::MAX {
        assert!(value.bits_needed_to_store() <= (value + 1).bits_needed_to_store());
    }
    for value in 0..i8::MAX {
        assert!(value.bits_needed_to_store() <= (value + 1).bits_needed_to_store());
    }
    for value in 0..u16::MAX {
        assert!(value.bits_needed_to_store() <= (value + 1).bits_needed_to_store());
    }
    for value in 0..i16::MAX {
        assert!(value.bits_needed_to_store() <= (value + 1).bits_needed_to_store());
    }
    let ascending: [u64; 8] = [0, 1, 5, 1 << 20, (1 << 20) + 1, 1 << 40, u64::MAX - 1, u64::MAX];
    for pair in ascending.windows(2) {
        assert!(pair[0].bits_needed_to_store() <= pair[1].bits_needed_to_store());
    }
}
