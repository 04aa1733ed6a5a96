use cline_xray::keyed::{find_key, put_keyed, remove_keys};
use cline_xray::text::{join_strings, parse_u64, parse_usize, replace_str};
use cline_xray::util::{epoch_ms_to_iso, truncate_utf8};

#[test]
fn truncation_marks_the_cut() {
    assert_eq!(truncate_utf8("héllo", 10), "héllo");
    assert_eq!(truncate_utf8("héllo", 2), "h…");
    assert_eq!(truncate_utf8("héllo", 0), "");
    assert!(truncate_utf8("héllo", 4).chars().count() <= 4);
    assert_eq!(truncate_utf8("", 0), "");
}

#[test]
fn instants_render_or_fall_back() {
    assert_eq!(epoch_ms_to_iso(u64::MAX), format!("{}ms", u64::MAX));
    let s = epoch_ms_to_iso(1_700_000_000_000);
    assert!(s.starts_with("2023-11-1"));
    assert!(!s.ends_with("ms"));
    assert_eq!(epoch_ms_to_iso(8_210_266_876_800_000), "8210266876800000ms");
    assert!(!epoch_ms_to_iso(8_210_266_876_799_999).ends_with("ms"));
}

#[test]
fn number_parsing_matches_str_parse() {
    for t in ["0", "+7", "42", "", "+", "-1", "1a", "18446744073709551615", "18446744073709551616"] {
        let c: Vec<char> = t.chars().collect();
        assert_eq!(parse_u64(&c), t.parse::<u64>().ok(), "{}", t);
        assert_eq!(parse_usize(&c), t.parse::<usize>().ok(), "{}", t);
    }
}

#[test]
fn replacing_and_joining() {
    assert_eq!(replace_str("a'b''", "'", "''"), "a''b''''");
    assert_eq!(replace_str("aaa", "aa", "b"), "ba");
    assert_eq!(replace_str("abc", "", "x"), "abc");
    assert_eq!(join_strings(&["a".to_string(), "b".to_string()], ", "), "a, b");
    assert_eq!(join_strings(&[], ", "), "");
}

#[test]
fn keyed_store_reads_what_was_put() {
    let v: Vec<(String, u32)> = Vec::new();
    let v = put_keyed(v, "w:1".to_string(), 1);
    let v = put_keyed(v, "w:2".to_string(), 2);
    let v = put_keyed(v, "x:1".to_string(), 3);
    let v = put_keyed(v, "w:1".to_string(), 4);
    assert_eq!(find_key(&v, "w:1").map(|i| v[i].1), Some(4));
    let v = remove_keys(v, "w:", true);
    assert!(find_key(&v, "w:1").is_none());
    assert!(find_key(&v, "w:2").is_none());
    assert_eq!(find_key(&v, "x:1").map(|i| v[i].1), Some(3));
    let v = remove_keys(v, "x:1", false);
    assert!(v.is_empty());
}
