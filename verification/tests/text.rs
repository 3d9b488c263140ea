use starsector_mod_info_shared::text::{
    decimal, decimal_usize, find_char, parse_u32, split_once, strip_prefix, trim_start_matches,
};

#[test]
fn parse_u32_reads_what_std_reads() {
    let inputs = [
        "", "0", "7", "007", "+7", "+", "++7", "-7", "-0", "+0", " 7", "7 ", "7a", "a7", "1_000",
        "4294967295", "4294967296", "42949672950", "+4294967295", "99999999999999999999999",
        "0000000000000000000000001", "12.5", "0x10", "١٢", "１２", "1e3", "+-1",
    ];
    for input in inputs {
        assert_eq!(parse_u32(input), input.parse::<u32>().ok(), "input {:?}", input);
    }
    assert_eq!(parse_u32("4294967295"), Some(u32::MAX));
    assert_eq!(parse_u32("4294967296"), None);
    assert_eq!(parse_u32("+12"), Some(12));
}

#[test]
fn decimal_writes_what_std_writes() {
    for n in [0u32, 1, 9, 10, 11, 99, 100, 101, 1234, 86_400, 1_000_000, u32::MAX - 1, u32::MAX] {
        assert_eq!(decimal(n), n.to_string());
        assert_eq!(parse_u32(&decimal(n)), Some(n));
    }
    assert_eq!(decimal(4_294_967_295), "4294967295");
    for n in [0usize, 7, 10, 14, 100, 65_536, usize::MAX] {
        assert_eq!(decimal_usize(n), n.to_string());
    }
}

#[test]
fn split_once_parts_at_the_first_separator() {
    let inputs = ["", ":", "a:", ":b", "a:b", "a:b:c", "ab", "::", "é:ü", "日本:語:x", "no colon"];
    for input in inputs {
        assert_eq!(split_once(input, ':'), input.split_once(':'), "input {:?}", input);
    }
    assert_eq!(split_once("user:pa:ss", ':'), Some(("user", "pa:ss")));
}

#[test]
fn find_char_finds_the_first() {
    assert_eq!(find_char("abcabc", 'c'), Some(2));
    assert_eq!(find_char("abcabc", 'd'), None);
    assert_eq!(find_char("", 'a'), None);
    assert_eq!(find_char("éé:", ':'), Some(2));
}

#[test]
fn strip_prefix_removes_the_prefix_only() {
    let cases = [
        ("Basic abc", "Basic "), ("Basic ", "Basic "), ("Basic", "Basic "), ("basic abc", "Basic "),
        ("", "Basic "), ("abc", ""), ("", ""), (" Basic abc", "Basic "), ("Basic Basic x", "Basic "),
        ("éa", "é"), ("ea", "é"),
    ];
    for (text, prefix) in cases {
        assert_eq!(strip_prefix(text, prefix), text.strip_prefix(prefix), "{:?} {:?}", text, prefix);
    }
    assert_eq!(strip_prefix("Basic abc", "Basic "), Some("abc"));
}

#[test]
fn trim_start_removes_the_leading_run() {
    for input in ["", "/", "//", "/a", "//a/b/", "a/", "a", "é/", "/é"] {
        assert_eq!(trim_start_matches(input, '/'), input.trim_start_matches('/'), "input {:?}", input);
    }
    assert_eq!(trim_start_matches("///get", '/'), "get");
}
