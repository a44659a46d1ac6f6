use oic::strutil;

#[test]
fn str_eq_basic() {
    assert!(strutil::str_eq("abc", "abc"));
    assert!(!strutil::str_eq("abc", "abd"));
    assert!(!strutil::str_eq("abc", "ab"));
    assert!(strutil::str_eq("", ""));
}

#[test]
fn starts_with_basic() {
    assert!(strutil::starts_with("/repo/path", "/"));
    assert!(strutil::starts_with("file:///srv/repo", "file://"));
    assert!(!strutil::starts_with("http://example", "file://"));
    assert!(strutil::starts_with("anything", ""));
    assert!(!strutil::starts_with("ab", "abc"));
}

#[test]
fn basename_basic() {
    assert_eq!(strutil::basename("/usr/lib/ostree-boot/memtest86+-5.31"), "memtest86+-5.31");
    assert_eq!(strutil::basename("plain"), "plain");
    assert_eq!(strutil::basename("dir/"), "");
    assert_eq!(strutil::basename("/a/b/c"), "c");
    assert_eq!(strutil::basename(""), "");
}

#[test]
fn split_on_spaces() {
    let parts = strutil::split_char("-comp zstd -Xcompression-level 6", ' ');
    assert_eq!(parts, vec!["-comp", "zstd", "-Xcompression-level", "6"]);
}

#[test]
fn split_keeps_empty_parts() {
    let parts = strutil::split_char("a  b", ' ');
    assert_eq!(parts, vec!["a", "", "b"]);
    let parts = strutil::split_char("", ' ');
    assert_eq!(parts, vec![""]);
    let parts = strutil::split_char("x", ' ');
    assert_eq!(parts, vec!["x"]);
}

#[test]
fn split_on_nul() {
    let parts = strutil::split_char("/usr/lib/modules\u{0}/usr/lib/modules/5.6.13", '\u{0}');
    assert_eq!(parts, vec!["/usr/lib/modules", "/usr/lib/modules/5.6.13"]);
}

#[test]
fn join_basic() {
    let parts: Vec<String> = vec!["a".to_string(), "b".to_string(), "c".to_string()];
    assert_eq!(strutil::join(&parts, " "), "a b c");
    let one: Vec<String> = vec!["only".to_string()];
    assert_eq!(strutil::join(&one, " "), "only");
    let none: Vec<String> = vec![];
    assert_eq!(strutil::join(&none, " "), "");
}

#[test]
fn trim_basic() {
    assert_eq!(strutil::trim("  abc123def  \n"), "abc123def");
    assert_eq!(strutil::trim("\t\r\n x \t\r\n"), "x");
    assert_eq!(strutil::trim("none"), "none");
    assert_eq!(strutil::trim("   "), "");
    assert_eq!(strutil::trim(""), "");
}

#[test]
fn replace_basic() {
    assert_eq!(strutil::replace("a/${basearch}/b", "${basearch}", "x86_64"), "a/x86_64/b");
    assert_eq!(strutil::replace("@@X@@ and @@X@@", "@@X@@", "y"), "y and y");
    assert_eq!(strutil::replace("file:///srv/repo", "file://", ""), "/srv/repo");
    assert_eq!(strutil::replace("untouched", "missing", "z"), "untouched");
    assert_eq!(strutil::replace("aaa", "aa", "b"), "ba");
}

#[test]
fn replace_empty_pattern_is_identity() {
    assert_eq!(strutil::replace("abc", "", "x"), "abc");
}

#[test]
fn decimal_rendering() {
    assert_eq!(strutil::u32_to_string(0), "0");
    assert_eq!(strutil::u32_to_string(7), "7");
    assert_eq!(strutil::u32_to_string(600), "600");
    assert_eq!(strutil::u32_to_string(u32::MAX), "4294967295");
    assert_eq!(strutil::u64_to_string(0), "0");
    assert_eq!(strutil::u64_to_string(1048576), "1048576");
    assert_eq!(strutil::u64_to_string(u64::MAX), "18446744073709551615");
}

#[test]
fn contains_str_basic() {
    let v: Vec<String> = vec!["quiet".to_string(), "oic.live".to_string()];
    assert!(strutil::contains_str(&v, "oic.live"));
    assert!(!strutil::contains_str(&v, "oic.live.check"));
}

#[test]
fn truncate_bytes_short_is_identity() {
    assert_eq!(strutil::truncate_bytes("short", 32), "short");
    assert_eq!(strutil::truncate_bytes("exactly-thirty-two-bytes-zzzzzzz", 32), "exactly-thirty-two-bytes-zzzzzzz");
}

#[test]
fn truncate_bytes_cuts_at_limit() {
    let long = "abcdefghijklmnopqrstuvwxyz0123456789";
    assert_eq!(strutil::truncate_bytes(long, 32), "abcdefghijklmnopqrstuvwxyz012345");
}

#[test]
fn truncate_bytes_respects_char_boundary() {
    // 31 ASCII bytes followed by a two-byte character: the cut at 32 would
    // fall inside the character, so it backs up to 31.
    let s = "aaaaaaaaaaaaaaaaaaaaaaaaaaaaaaa\u{e9}x";
    assert_eq!(strutil::truncate_bytes(s, 32), "aaaaaaaaaaaaaaaaaaaaaaaaaaaaaaa");
}

#[test]
fn path_join_basic() {
    assert_eq!(strutil::path_join("/tmp/work", "repo"), "/tmp/work/repo");
}

#[test]
fn signed_decimal_rendering() {
    assert_eq!(strutil::i32_to_string(0), "0");
    assert_eq!(strutil::i32_to_string(42), "42");
    assert_eq!(strutil::i32_to_string(-1), "-1");
    assert_eq!(strutil::i32_to_string(i32::MIN), "-2147483648");
    assert_eq!(strutil::i32_to_string(i32::MAX), "2147483647");
}
