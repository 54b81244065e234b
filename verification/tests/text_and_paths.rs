use blkops::paths::join_path;
use blkops::text::{contains_str, push_decimal, parse_i32_str, parse_u64_str, same_text, trim_str};

#[test]
fn trim_drops_unicode_whitespace() {
    assert_eq!(trim_str("  _a \n"), "_a");
    assert_eq!(trim_str("\u{a0}\u{3000}12\t"), "12");
    assert_eq!(trim_str("   "), "");
    assert_eq!(trim_str(""), "");
}

#[test]
fn contains_finds_substrings() {
    assert!(contains_str("mmcblk0p12", "blk0"));
    assert!(contains_str("boot_a", "boot"));
    assert!(contains_str("boot", ""));
    assert!(!contains_str("boo", "boot"));
    assert!(!contains_str("system", "vendor"));
}

#[test]
fn same_text_compares_characters() {
    assert!(same_text("boot_a", "boot_a"));
    assert!(!same_text("boot_a", "boot_b"));
    assert!(!same_text("boot", "boot_a"));
}

#[test]
fn decimal_matches_to_string() {
    for n in [0u64, 7, 10, 512, 4194304, u64::MAX] {
        let mut s = String::from("n=");
        push_decimal(&mut s, n);
        assert_eq!(s, format!("n={}", n));
    }
}

#[test]
fn parse_u64_follows_std() {
    for s in ["0", "42", "+42", "18446744073709551615", "18446744073709551616", "", "+", "-1", "4 2", "x"] {
        assert_eq!(parse_u64_str(s), s.parse::<u64>().ok(), "input {:?}", s);
    }
}

#[test]
fn parse_i32_follows_std() {
    for s in ["0", "-0", "33", "+33", "-2147483648", "-2147483649", "2147483647", "2147483648", "-", "", "3a"] {
        assert_eq!(parse_i32_str(s), s.parse::<i32>().ok(), "input {:?}", s);
    }
}

#[test]
fn join_follows_path_join() {
    let cases = [
        ("/dev/block/by-name", "boot_a"),
        ("/dev/block/by-name/", "boot_a"),
        ("/dev/block/by-name", "/dev/sda"),
        ("", "boot"),
        ("/dev/block/by-name", "../mmcblk0p1"),
        ("/dev/block", ""),
    ];
    for (a, b) in cases {
        let expected = std::path::Path::new(a).join(b).to_string_lossy().into_owned();
        assert_eq!(join_path(a, b), expected, "{:?} + {:?}", a, b);
    }
}
