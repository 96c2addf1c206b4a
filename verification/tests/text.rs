use lorian_bot::text::{
    contains_exec, decimal_i64, decimal_u64, fill, find_char_exec, find_sub_exec,
    find_sub_from, is_whitespace, matches_at_exec, owned, parse_digits, parse_i64, parse_u64,
    push_all, push_text, replace_exec, rfind_char_exec, slice_of, take_bytes, trim_exec,
    utf8_len_of, value_of_hex_digit,
};

fn v(s: &str) -> Vec<char> {
    s.chars().collect()
}

fn s(v: Vec<char>) -> String {
    v.into_iter().collect()
}

#[test]
fn finding_a_pattern_gives_its_first_position() {
    assert_eq!(find_sub_exec(&v("abcabc"), &v("bc")), Some(1));
    assert_eq!(find_sub_from(&v("abcabc"), &v("bc"), 2), Some(4));
    assert_eq!(find_sub_from(&v("abcabc"), &v("bc"), 5), None);
    assert_eq!(find_sub_from(&v("abc"), &v("bc"), 9), None);
    assert_eq!(find_sub_exec(&v("abc"), &v("")), Some(0));
    assert_eq!(find_sub_exec(&v(""), &v("")), Some(0));
    assert_eq!(find_sub_exec(&v("ab"), &v("abc")), None);
    assert_eq!(find_sub_exec(&v("ñandú"), &v("dú")), Some(3));
    assert!(contains_exec(&v("hello"), &v("ell")));
    assert!(!contains_exec(&v("hello"), &v("elo")));
    assert!(matches_at_exec(&v("hello"), &v("lo"), 3));
    assert!(!matches_at_exec(&v("hello"), &v("lo"), 4));
    assert!(!matches_at_exec(&v("hello"), &v("lo"), 99));
}

#[test]
fn finding_a_character_from_either_end() {
    assert_eq!(find_char_exec(&v("a.b.c"), '.'), Some(1));
    assert_eq!(rfind_char_exec(&v("a.b.c"), '.'), Some(3));
    assert_eq!(find_char_exec(&v("abc"), '.'), None);
    assert_eq!(rfind_char_exec(&v(""), '.'), None);
}

#[test]
fn replacing_scans_left_to_right_without_overlap() {
    assert_eq!(s(replace_exec(&v("aaaa"), &v("aa"), &v("b"))), "bb");
    assert_eq!(s(replace_exec(&v("aaa"), &v("aa"), &v("b"))), "ba");
    assert_eq!(s(replace_exec(&v("x{a}y{a}"), &v("{a}"), &v("{a}{a}"))), "x{a}{a}y{a}{a}");
    assert_eq!(s(replace_exec(&v("abc"), &v("z"), &v("q"))), "abc");
    assert_eq!(s(replace_exec(&v(""), &v("z"), &v("q"))), "");
    assert_eq!(fill("Hi {n}, {n}!", "{n}", "Bo"), "Hi Bo, Bo!");
    assert_eq!(fill("Hi {n}", "{n}", ""), "Hi ");
    assert_eq!("aaa".replace("aa", "b"), s(replace_exec(&v("aaa"), &v("aa"), &v("b"))));
}

#[test]
fn joining_and_slicing() {
    assert_eq!(owned("xyz"), "xyz");
    assert_eq!(s(slice_of(&v("hello"), 1, 3)), "el");
    assert_eq!(s(slice_of(&v("hello"), 2, 2)), "");
    let mut out = v("a");
    push_all(&mut out, &v("bc"));
    push_text(&mut out, "dé");
    assert_eq!(s(out), "abcdé");
}

#[test]
fn decimal_writing() {
    assert_eq!(s(decimal_u64(0)), "0");
    assert_eq!(s(decimal_u64(7)), "7");
    assert_eq!(s(decimal_u64(1203)), "1203");
    assert_eq!(s(decimal_u64(u64::MAX)), "18446744073709551615");
    assert_eq!(s(decimal_i64(-45)), "-45");
    assert_eq!(s(decimal_i64(i64::MIN)), "-9223372036854775808");
    assert_eq!(s(decimal_i64(i64::MAX)), "9223372036854775807");
}

#[test]
fn decimal_reading() {
    assert_eq!(parse_i64(&v("42")), Some(42));
    assert_eq!(parse_i64(&v("+42")), Some(42));
    assert_eq!(parse_i64(&v("-42")), Some(-42));
    assert_eq!(parse_i64(&v("007")), Some(7));
    assert_eq!(parse_i64(&v("")), None);
    assert_eq!(parse_i64(&v("-")), None);
    assert_eq!(parse_i64(&v("+")), None);
    assert_eq!(parse_i64(&v("4 2")), None);
    assert_eq!(parse_i64(&v("4a")), None);
    assert_eq!(parse_i64(&v("9223372036854775807")), Some(i64::MAX));
    assert_eq!(parse_i64(&v("9223372036854775808")), None);
    assert_eq!(parse_i64(&v("-9223372036854775808")), Some(i64::MIN));
    assert_eq!(parse_i64(&v("-9223372036854775809")), None);
    assert_eq!(parse_i64(&v("99999999999999999999999")), None);
    assert_eq!(parse_u64(&v("18446744073709551615")), Some(u64::MAX));
    assert_eq!(parse_u64(&v("18446744073709551616")), None);
    assert_eq!(parse_u64(&v("+5")), Some(5));
    assert_eq!(parse_u64(&v("-5")), None);
    assert_eq!(parse_u64(&v("")), None);
    assert_eq!(parse_digits(&v("x12"), 1, 100), Some(12));
    assert_eq!(parse_digits(&v("x120"), 1, 100), None);
    assert_eq!(parse_digits(&v("x"), 1, 100), None);
    assert_eq!("42".parse::<i64>().ok(), parse_i64(&v("42")));
}

#[test]
fn hexadecimal_digits_have_their_value() {
    assert_eq!(value_of_hex_digit('0'), Some(0));
    assert_eq!(value_of_hex_digit('9'), Some(9));
    assert_eq!(value_of_hex_digit('a'), Some(10));
    assert_eq!(value_of_hex_digit('F'), Some(15));
    assert_eq!(value_of_hex_digit('g'), None);
    assert_eq!(value_of_hex_digit('+'), None);
    for n in 0..=0x10FFFFu32 {
        if let Some(c) = char::from_u32(n) {
            assert_eq!(value_of_hex_digit(c).map(u32::from), c.to_digit(16));
        }
    }
}

#[test]
fn white_space_is_what_the_standard_library_calls_so() {
    for n in 0..=0x10FFFFu32 {
        if let Some(c) = char::from_u32(n) {
            assert_eq!(is_whitespace(c), c.is_whitespace(), "U+{:04X}", n);
            assert_eq!(utf8_len_of(c), c.len_utf8(), "U+{:04X}", n);
        }
    }
}

#[test]
fn a_prefix_is_bounded_by_bytes() {
    assert_eq!(take_bytes("1234567890", 8), "12345678");
    assert_eq!(take_bytes("12345678", 8), "12345678");
    assert_eq!(take_bytes("1234", 8), "1234");
    assert_eq!(take_bytes("", 8), "");
    assert_eq!(take_bytes("\u{e9}\u{e9}\u{e9}\u{e9}1234", 8), "\u{e9}\u{e9}\u{e9}\u{e9}");
    assert_eq!(take_bytes("1234567\u{e9}9", 8), "1234567");
    assert_eq!(take_bytes("\u{1f600}\u{1f600}\u{1f600}", 8), "\u{1f600}\u{1f600}");
    assert_eq!(take_bytes("abc", 0), "");
    for text in ["1234567890", "\u{e9}\u{e9}\u{e9}\u{e9}1234", "12\u{20ac}456789"] {
        assert_eq!(take_bytes(text, 8), &text[..8]);
    }
}

#[test]
fn trimming_drops_whitespace_at_both_ends() {
    assert_eq!(s(trim_exec(&v("  a b \t\n"))), "a b");
    assert_eq!(s(trim_exec(&v("\u{a0}x\u{2003}"))), "x");
    assert_eq!(s(trim_exec(&v("   "))), "");
    assert_eq!(s(trim_exec(&v(""))), "");
    assert_eq!(s(trim_exec(&v("abc"))), "abc");
}
