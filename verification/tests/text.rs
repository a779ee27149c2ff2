use map_stop_api::config::non_blank;
use map_stop_api::db::{admin_seed_needed, demo_seed_needed};
use map_stop_api::text::{
    concatenate, contains, decimal, eq_ignore_ascii_case, is_blank, is_whitespace, str_eq,
    to_ascii_lowercase, trim, trim_end_matches, trim_start_matches,
};

const SAMPLES: [&str; 9] = [
    "",
    "   ",
    " a b ",
    "\u{3000}全角\u{3000}",
    "\t\n x\r\u{85}",
    "\u{feff}bom\u{feff}",
    "\u{2028}z\u{200a}",
    "Mixed CASE Ünïcode",
    "a\u{a0}",
];

#[test]
fn trim_agrees_with_std() {
    for s in SAMPLES {
        assert_eq!(trim(s), s.trim(), "{:?}", s);
        assert_eq!(is_blank(s), s.trim().is_empty());
    }
    for c in ['\u{0}', ' ', '\u{b}', '\u{1680}', '\u{180e}', '\u{200b}', '\u{202f}', '\u{205f}', 'a'] {
        assert_eq!(is_whitespace(c), c.is_whitespace(), "{:?}", c);
    }
}

#[test]
fn case_and_comparison_agree_with_std() {
    for s in SAMPLES {
        assert_eq!(to_ascii_lowercase(s), s.to_ascii_lowercase());
        assert!(str_eq(s, s));
        assert!(eq_ignore_ascii_case(s, &s.to_ascii_uppercase()));
    }
    assert!(!str_eq("ab", "abc"));
    assert!(!eq_ignore_ascii_case("Ü", "ü"));
    assert_eq!(concatenate("ab", "平安"), "ab平安");
}

#[test]
fn search_and_stripping_agree_with_std() {
    for (h, n) in [("abc", "bc"), ("abc", ""), ("", ""), ("", "a"), ("NO_ROADS", "NO_ROADS"), ("aab", "ab"), ("ab", "ba")] {
        assert_eq!(contains(h, n), h.contains(n), "{:?} {:?}", h, n);
    }
    assert_eq!(trim_start_matches("\u{feff}\u{feff}x\u{feff}", '\u{feff}'), "x\u{feff}");
    assert_eq!(trim_end_matches("好。。", '。'), "好");
    assert_eq!(trim_end_matches("。", '。'), "");
}

#[test]
fn decimal_agrees_with_to_string() {
    for n in [0usize, 7, 10, 99, 100, 2048, 123456789, usize::MAX] {
        assert_eq!(decimal(n), n.to_string());
    }
}

#[test]
fn settings_and_seeding() {
    assert_eq!(non_blank(Some(" x ".to_string())).as_deref(), Some(" x "));
    assert_eq!(non_blank(Some(" \t".to_string())), None);
    assert_eq!(non_blank(None), None);
    assert!(admin_seed_needed(false, false));
    assert!(admin_seed_needed(true, false));
    assert!(!admin_seed_needed(true, true));
    assert!(demo_seed_needed(0));
    assert!(!demo_seed_needed(2));
}
