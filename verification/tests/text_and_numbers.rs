use jiosaavn_api::common::numbers::{i32_to_string, parse_i32, parse_usize, usize_to_string};
use jiosaavn_api::common::sorting::stable_sort_by_key;
use jiosaavn_api::common::text::{chars_of, str_contains, str_equals, str_replace, str_starts_with};

#[test]
fn replace_every_occurrence_left_to_right() {
    assert_eq!(str_replace("a_96b_96", "_96", "_12"), "a_12b_12");
    assert_eq!(str_replace("aaa", "aa", "b"), "ba");
    assert_eq!(str_replace("no marker here", "_96", "_12"), "no marker here");
    assert_eq!(str_replace("", "_96", "_12"), "");
    assert_eq!(str_replace("_96", "_96", ""), "");
}

#[test]
fn replace_agrees_with_std() {
    let cases = [
        ("https://c.saavncdn.com/123/x_150x150.jpg", "150x150", "500x500"),
        ("ababab", "aba", "X"),
        ("héllo wörld", "ö", "oe"),
        ("xx", "xxx", "y"),
        ("_96_96_96", "_96", "_320"),
    ];
    for (s, pat, rep) in cases {
        assert_eq!(str_replace(s, pat, rep), s.replace(pat, rep));
    }
}

#[test]
fn replace_by_itself_leaves_text_unchanged() {
    let s = "https://aac.saavncdn.com/x/abc_96.mp4?_96";
    assert_eq!(str_replace(s, "_96", "_96"), s);
}

#[test]
fn contains_and_starts_with_agree_with_std() {
    let cases = [("abc", "b"), ("abc", ""), ("", "a"), ("http://x", "http://"), ("xhttp://", "http://"), ("150x150", "50x50")];
    for (s, p) in cases {
        assert_eq!(str_contains(s, p), s.contains(p), "{s} contains {p}");
        assert_eq!(str_starts_with(s, p), s.starts_with(p), "{s} starts with {p}");
    }
}

#[test]
fn equality_and_characters() {
    assert!(str_equals("1", "1"));
    assert!(!str_equals("1", "10"));
    assert!(!str_equals("true", "True"));
    assert_eq!(chars_of("aé"), vec!['a', 'é']);
}

#[test]
fn parse_i32_agrees_with_std() {
    let cases = [
        "0", "42", "-12", "+7", "007", "2147483647", "2147483648", "-2147483648", "-2147483649", "", "-", "+",
        "12a", " 1", "1 ", "99999999999999999999999", "-0", "+-1", "١٢",
    ];
    for s in cases {
        assert_eq!(parse_i32(s), s.parse::<i32>().ok(), "parsing {s:?}");
    }
}

#[test]
fn parse_usize_agrees_with_std() {
    let cases = ["0", "10", "+3", "-3", "", "+", "18446744073709551615", "18446744073709551616", "3x", "184467440737095516150"];
    for s in cases {
        assert_eq!(parse_usize(s), s.parse::<usize>().ok(), "parsing {s:?}");
    }
}

#[test]
fn numerals_agree_with_std() {
    for n in [0usize, 7, 10, 99, 100, 12345, usize::MAX] {
        assert_eq!(usize_to_string(n), n.to_string());
    }
    for v in [0i32, 5, -5, 10, -10, i32::MAX, i32::MIN, 2024] {
        assert_eq!(i32_to_string(v), v.to_string());
    }
}

#[test]
fn printed_numbers_read_back() {
    for n in [0usize, 1, 42, 1000, usize::MAX] {
        assert_eq!(parse_usize(&usize_to_string(n)), Some(n));
    }
    for v in [0i32, -1, 42, i32::MIN, i32::MAX] {
        assert_eq!(parse_i32(&i32_to_string(v)), Some(v));
    }
}

#[test]
fn stable_sort_orders_by_key_keeping_ties_in_order() {
    let items = vec![(2usize, 'a'), (0, 'b'), (2, 'c'), (usize::MAX, 'd'), (1, 'e'), (0, 'f')];
    let sorted = stable_sort_by_key(items);
    assert_eq!(sorted, vec![(0, 'b'), (0, 'f'), (1, 'e'), (2, 'a'), (2, 'c'), (usize::MAX, 'd')]);
    assert!(stable_sort_by_key(Vec::<(usize, u8)>::new()).is_empty());
}
