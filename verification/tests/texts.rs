//! Text, addresses, queries, documents and expressions.

use klovy_chat_server::json::text_member;
use klovy_chat_server::patterns::{compile_all, matches_any};
use klovy_chat_server::percent::{decode, encode};
use klovy_chat_server::query::{query_str, query_u64};
use klovy_chat_server::stamps::{time_since, Stamp, Stamps};
use klovy_chat_server::text::{
    cut_once, given_text, has_char, has_suffix, has_text, join2, join3, join_with, lower_ascii, parse_i64,
    parse_u16, parse_u32, parse_u64, replace_char, same_text, sorts_before, split_at_most, split_on,
    split_words, strip_prefix, tail_after, take_chars, text_or_empty, trim, trim_end_char,
    trim_start_char, white, write_i64, write_u64,
};

#[test]
fn parts_of_texts() {
    assert!(same_text("żółw", "żółw"));
    assert!(!same_text("a", "A"));
    assert_eq!(join2("ab", "ć"), "abć");
    assert_eq!(join3("a", "", "b"), "ab");
    assert_eq!(take_chars("żółw", 2), "żó");
    assert_eq!(take_chars("ab", 9), "ab");
    assert!(has_char("a:b", ':'));
    assert!(!has_char("", ':'));
    assert!(has_text("hello", "ell"));
    assert!(has_text("hello", ""));
    assert!(!has_text("hello", "elo"));
    assert!(has_suffix("voice.example.com", ".example.com"));
    assert!(!has_suffix("com", "example.com"));
    assert_eq!(strip_prefix("Bearer x", "Bearer "), Some("x".to_string()));
    assert_eq!(strip_prefix("bearer x", "Bearer "), None);
    assert_eq!(replace_char("a-b-c", '-', '_'), "a_b_c");
}

#[test]
fn optional_texts() {
    assert_eq!(given_text(&Some("x".to_string())), Some("x"));
    assert_eq!(given_text(&None), None);
    assert_eq!(text_or_empty(&None), "");
    assert_eq!(text_or_empty(&Some("y".to_string())), "y");
}

#[test]
fn trimming_takes_unicode_white_space_off_both_ends() {
    assert_eq!(trim(" \t a b \u{00a0}\n"), "a b");
    assert_eq!(trim("\u{3000}"), "");
    assert!(white('\u{2003}'));
    assert!(!white('\u{200b}'));
    assert_eq!(trim_end_char("a//", '/'), "a");
    assert_eq!(trim_start_char("//a/", '/'), "a/");
}

#[test]
fn splitting_texts() {
    assert_eq!(split_on("a,,b", ','), vec!["a", "", "b"]);
    assert_eq!(split_on("", ','), vec![""]);
    assert_eq!(cut_once("k=v=w", '='), Some(("k".to_string(), "v=w".to_string())));
    assert_eq!(cut_once("k", '='), None);
    assert_eq!(split_at_most("a:b:c:d", ':', 3), vec!["a", "b", "c:d"]);
    assert_eq!(split_words("  ala  ma\tkota "), vec!["ala", "ma", "kota"]);
    assert_eq!(tail_after("C:\\x/y.png", "/\\"), "y.png");
    assert_eq!(join_with(&vec!["a".to_string(), "b".to_string()], ", "), "a, b");
    assert_eq!(join_with(&vec![], ", "), "");
}

#[test]
fn ascii_letters_are_lower_cased_alone() {
    assert_eq!(lower_ascii("AbZ Ż"), "abz Ż");
}

#[test]
fn numbers_read_as_std_reads_them() {
    assert_eq!(parse_u64("18446744073709551615"), Some(u64::MAX));
    assert_eq!(parse_u64("18446744073709551616"), None);
    assert_eq!(parse_u64("+7"), Some(7));
    assert_eq!(parse_u64(""), None);
    assert_eq!(parse_u64("+"), None);
    assert_eq!(parse_u64("-1"), None);
    assert_eq!(parse_u64("1 "), None);
    assert_eq!(parse_u32("4294967295"), Some(u32::MAX));
    assert_eq!(parse_u32("4294967296"), None);
    assert_eq!(parse_u16("65535"), Some(65535));
    assert_eq!(parse_u16("65536"), None);
    assert_eq!(parse_i64("-9223372036854775808"), Some(i64::MIN));
    assert_eq!(parse_i64("9223372036854775808"), None);
    assert_eq!(parse_i64("-"), None);
}

#[test]
fn decimal_reads_back() {
    for n in [0u64, 7, 10, 90210, u64::MAX] {
        assert_eq!(write_u64(n), n.to_string());
        assert_eq!(parse_u64(write_u64(n).as_str()), Some(n));
    }
}

#[test]
fn signed_decimal_reads_back() {
    for n in [0i64, -1, 42, i64::MIN, i64::MAX] {
        assert_eq!(write_i64(n), n.to_string());
        assert_eq!(parse_i64(write_i64(n).as_str()), Some(n));
    }
}

#[test]
fn text_order_is_total_and_transitive() {
    assert!(sorts_before("a", "b") && !sorts_before("b", "a"));
    assert!(sorts_before("", "a"));
    assert!(!sorts_before("a", "a"));
    assert!(sorts_before("ab", "b") && sorts_before("b", "ba") && sorts_before("ab", "ba"));
}

#[test]
fn percent_encoding_writes_upper_case_pairs() {
    assert_eq!(encode("a b/ż", true), "a%20b%2F%C5%BC");
    assert_eq!(encode("a.b~c-_", true), "a.b~c-_");
    assert_eq!(encode("a.b~c-_", false), "a%2Eb%7Ec-_");
}

#[test]
fn percent_encoded_ascii_reads_back() {
    for s in ["", "klovy://oauth?a=b&c=d", "100%", "~.~"] {
        assert_eq!(decode(encode(s, true).as_str()), Some(s.to_string()));
        assert_eq!(decode(encode(s, false).as_str()), Some(s.to_string()));
    }
}

#[test]
fn percent_encoded_text_reads_back_as_bytes() {
    assert_eq!(decode(encode("ż", true).as_str()), Some("\u{c5}\u{bc}".to_string()));
}

#[test]
fn percent_written_text_is_safe() {
    let written = encode("<a href='ż'>&\n", false);
    assert!(written.chars().all(|c| c.is_ascii_alphanumeric() || c == '%' || c == '-' || c == '_'));
}

#[test]
fn percent_decoding_refuses_bad_pairs_and_keeps_short_ones() {
    assert_eq!(decode("%zz"), None);
    assert_eq!(decode("a%2"), Some("a%2".to_string()));
    assert_eq!(decode("%+a"), Some("\n".to_string()));
    assert_eq!(decode("a+b"), Some("a+b".to_string()));
}

#[test]
fn query_gives_first_value() {
    assert_eq!(query_str(Some("a=1&b=x=y&b=z"), "b"), "x=y");
    assert_eq!(query_str(Some("a=1"), "b"), "");
    assert_eq!(query_str(None, "b"), "");
    assert_eq!(query_u64(Some("page=x&page=3"), "page", 1), 3);
    assert_eq!(query_u64(Some("page=-1"), "page", 1), 1);
    assert_eq!(query_u64(None, "page", 9), 9);
}

#[test]
fn members_of_documents() {
    let v: serde_json::Value = match serde_json::from_str("{\"a\":\"x\",\"n\":3}") {
        Ok(v) => v,
        Err(_) => panic!("no document"),
    };
    assert_eq!(text_member(&v, "a"), Some("x".to_string()));
    assert_eq!(text_member(&v, "n"), None);
    assert_eq!(text_member(&v, "b"), None);
    assert_eq!(text_member(&serde_json::Value::Null, "a"), None);
}

#[test]
fn expressions_are_compiled_and_searched() {
    let list = match compile_all(&vec!["^a+$", "b"]) {
        Some(l) => l,
        None => panic!("does not compile"),
    };
    assert!(matches_any(&list, "aaa"));
    assert!(matches_any(&list, "xbx"));
    assert!(!matches_any(&list, "ac"));
    assert!(compile_all(&vec!["a", "("]).is_none());
}

#[test]
fn stamps_are_kept_by_name_and_dropped_by_age() {
    assert_eq!(time_since(10, 4), 6);
    assert_eq!(time_since(4, 10), 0);
    let mut s = Stamps::new();
    s.put("a", Stamp { count: 1, last: 5 });
    s.put("b", Stamp { count: 2, last: 9 });
    s.put("a", Stamp { count: 3, last: 6 });
    assert_eq!(s.len(), 2);
    assert_eq!(s.get("a"), Some(Stamp { count: 3, last: 6 }));
    assert_eq!(s.get("c"), None);
    s.keep_recent(10, 3);
    assert_eq!(s.get("a"), None);
    assert_eq!(s.get("b"), Some(Stamp { count: 2, last: 9 }));
    s.keep_recent(12, 3);
    assert_eq!(s.len(), 1);
}
