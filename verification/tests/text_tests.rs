use pellx_monitor::elapsed;
use pellx_monitor::text::{
    has_prefix, replace_chars, str_to_chars, string_from_chars, trim_chars, u64_to_dec_chars,
};

fn chars(s: &str) -> Vec<char> {
    str_to_chars(s)
}

fn text(v: &Vec<char>) -> String {
    string_from_chars(v)
}

#[test]
fn elapsed_saturates_at_zero() {
    assert_eq!(elapsed(10, 3), 7);
    assert_eq!(elapsed(3, 3), 0);
    assert_eq!(elapsed(3, 10), 0);
}

#[test]
fn chars_round_trip() {
    let s = "hej pa dig\n tab\t";
    assert_eq!(text(&chars(s)), s);
}

#[test]
fn decimal_rendering_is_exact() {
    assert_eq!(text(&u64_to_dec_chars(0)), "0");
    assert_eq!(text(&u64_to_dec_chars(7)), "7");
    assert_eq!(text(&u64_to_dec_chars(28)), "28");
    assert_eq!(text(&u64_to_dec_chars(1234)), "1234");
    assert_eq!(text(&u64_to_dec_chars(u64::MAX)), "18446744073709551615");
}

#[test]
fn trim_drops_surrounding_whitespace_only() {
    assert_eq!(text(&trim_chars(&chars("  a b \t\n"))), "a b");
    assert_eq!(text(&trim_chars(&chars("abc"))), "abc");
    assert_eq!(text(&trim_chars(&chars("   "))), "");
    assert_eq!(text(&trim_chars(&chars(""))), "");
}

#[test]
fn prefix_test_is_exact() {
    assert!(has_prefix(&chars("https://x"), &chars("https://")));
    assert!(has_prefix(&chars("abc"), &chars("")));
    assert!(!has_prefix(&chars("http://x"), &chars("https://")));
    assert!(!has_prefix(&chars("http"), &chars("https://")));
}

#[test]
fn replacement_is_leftmost_and_non_overlapping() {
    let r = replace_chars(&chars("aaa"), &chars("aa"), &chars("b"));
    assert_eq!(text(&r), "ba");
    let r = replace_chars(&chars("x{p}y{p}z"), &chars("{p}"), &chars("1"));
    assert_eq!(text(&r), "x1y1z");
    let r = replace_chars(&chars("abc"), &chars("zz"), &chars("1"));
    assert_eq!(text(&r), "abc");
}
