use rnb_runtime::arith::saturating_mul;
use rnb_runtime::float_bits::{
    find_nonfinite, is_finite, is_finite_positive, is_not_a_number, total_order, value_order,
};
use rnb_runtime::text::{
    is_blank, parse_usize, push_decimal, push_decimal_u64, reads_as, same_text, split_ranges,
    starts_with, trim_text,
};

#[test]
fn decimal_numbers_have_no_leading_zero() {
    let mut out = String::from("n=");
    push_decimal(&mut out, 0);
    out.push(' ');
    push_decimal(&mut out, 1_048_576);
    out.push(' ');
    push_decimal_u64(&mut out, u64::MAX);
    assert_eq!(out, "n=0 1048576 18446744073709551615");
}

#[test]
fn white_space_is_trimmed_at_both_ends() {
    for text in ["", "  ", "\t a b \n", "x", "\u{2003}y\u{a0}", "\u{85}z"] {
        assert_eq!(trim_text(text), text.trim());
        assert_eq!(is_blank(text), text.trim().is_empty());
    }
}

#[test]
fn words_are_compared_in_any_ascii_case() {
    assert!(reads_as("OfF", "off"));
    assert!(!reads_as("off ", "off"));
    assert!(same_text("Q4_K", "Q4_K"));
    assert!(!same_text("Q4_K", "q4_k"));
    assert!(starts_with("nemotron_up", "nemotron_"));
    assert!(!starts_with("nemotron", "nemotron_"));
}

#[test]
fn numbers_are_parsed_as_the_standard_library_does() {
    for text in ["0", "7", "+7", "-7", "", "+", " 1", "007", "18446744073709551615", "18446744073709551616", "x1"] {
        let chars: Vec<char> = text.chars().collect();
        assert_eq!(parse_usize(&chars, 0, chars.len()), text.parse::<usize>().ok(), "{text}");
    }
}

#[test]
fn lists_are_split_at_every_separator() {
    for text in ["", "1", "1,2", ",1,,2,"] {
        let chars: Vec<char> = text.chars().collect();
        let pieces: Vec<String> = split_ranges(&chars, ',')
            .iter()
            .map(|&(from, to)| chars[from..to].iter().collect())
            .collect();
        let expected: Vec<String> = text.split(',').map(str::to_string).collect();
        assert_eq!(pieces, expected, "{text}");
    }
}

#[test]
fn bits_are_ordered_as_the_floats_are() {
    let values = [
        f32::NEG_INFINITY,
        -1.5,
        -f32::MIN_POSITIVE,
        -0.0,
        0.0,
        f32::MIN_POSITIVE,
        1.0e-6,
        3.0,
        f32::MAX,
        f32::INFINITY,
    ];
    for a in values {
        assert_eq!(is_finite(a.to_bits()), a.is_finite());
        assert_eq!(is_finite_positive(a.to_bits()), a.is_finite() && a > 0.0);
        assert!(!is_not_a_number(a.to_bits()));
        for b in values {
            let (x, y) = (a.to_bits(), b.to_bits());
            assert_eq!(value_order(x) < value_order(y), a < b);
            assert_eq!(value_order(x) == value_order(y), a == b);
            assert_eq!(total_order(x).cmp(&total_order(y)), a.total_cmp(&b));
        }
    }
    assert!(is_not_a_number(f32::NAN.to_bits()));
    assert!(!is_finite(f32::NAN.to_bits()));
    let data = [0.0f32, 1.0, f32::NAN, f32::INFINITY].map(f32::to_bits);
    assert_eq!(find_nonfinite(&data), Some(2));
    assert_eq!(find_nonfinite(&data[..2]), None);
}

#[test]
fn a_product_stops_at_the_largest_number() {
    assert_eq!(saturating_mul(6, 7), 42);
    assert_eq!(saturating_mul(usize::MAX, 2), usize::MAX);
    assert_eq!(saturating_mul(usize::MAX, 0), 0);
}
