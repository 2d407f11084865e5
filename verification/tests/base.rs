//! Identifiers, lists, order and pages.

use klovy_chat_server::ids::{is_hex_of, to_hex_all, Oid};
use klovy_chat_server::lists::{
    add_oid, add_oids, add_text, add_texts, copy_oids, copy_texts, distinct_oids, has_oid, has_text,
    toggle_oid, without_oid, without_text,
};
use klovy_chat_server::order::descending;
use klovy_chat_server::paging::{page_of, page_of_kept};

const A: &str = "00000000000000000000000a";
const B: &str = "00000000000000000000000b";
const C: &str = "0123456789abcdef01234567";

fn id(s: &str) -> Oid {
    match Oid::parse(s) {
        Some(o) => o,
        None => panic!("not an identifier"),
    }
}

fn strings(v: &[&str]) -> Vec<String> {
    v.iter().map(|s| s.to_string()).collect()
}

#[test]
fn identifier_reads_digit_pairs_as_bytes() {
    let o = id(C);
    assert_eq!((o.b0, o.b1, o.b2, o.b3), (0x01, 0x23, 0x45, 0x67));
    assert_eq!((o.b4, o.b5, o.b6, o.b7), (0x89, 0xab, 0xcd, 0xef));
    assert_eq!((o.b8, o.b9, o.b10, o.b11), (0x01, 0x23, 0x45, 0x67));
}

#[test]
fn identifier_takes_either_case_and_writes_lower_case() {
    let o = id("0123456789ABCDEF01234567");
    assert_eq!(o, id(C));
    assert_eq!(o.hex(), C);
}

#[test]
fn identifier_refuses_other_texts() {
    assert_eq!(Oid::parse(""), None);
    assert_eq!(Oid::parse("0123456789abcdef0123456"), None);
    assert_eq!(Oid::parse("0123456789abcdef012345678"), None);
    assert_eq!(Oid::parse("0123456789abcdef0123456g"), None);
    assert_eq!(Oid::parse(" 123456789abcdef01234567"), None);
    assert_eq!(Oid::parse("ąą0123456789abcdef012345"), None);
}

#[test]
fn written_id_reads_back() {
    let o = Oid { b0: 255, b1: 0, b2: 16, b3: 1, b4: 2, b5: 3, b6: 4, b7: 5, b8: 6, b9: 7, b10: 8, b11: 9 };
    assert_eq!(o.hex(), "ff0010010203040506070809");
    assert_eq!(Oid::parse(o.hex().as_str()), Some(o));
}

#[test]
fn written_ids_differ_where_ids_differ() {
    assert_ne!(id(A).hex(), id(B).hex());
    assert!(is_hex_of(id(A), A));
    assert!(!is_hex_of(id(A), B));
    assert!(!is_hex_of(id("00000000000000000000000A"), "00000000000000000000000A"));
    assert_eq!(to_hex_all(&vec![id(B), id(A)]), vec![B, A]);
}

#[test]
fn membership_in_lists() {
    assert!(has_oid(&vec![id(A), id(B)], id(B)));
    assert!(!has_oid(&vec![id(A)], id(B)));
    assert!(has_text(&strings(&["x", "y"]), "y"));
    assert!(!has_text(&strings(&["x"]), "X"));
    assert_eq!(copy_oids(&vec![id(B), id(A)]), vec![id(B), id(A)]);
    assert_eq!(copy_texts(&strings(&["p", "q"])), vec!["p", "q"]);
}

#[test]
fn removal_drops_every_occurrence_and_nothing_else() {
    assert_eq!(without_oid(&vec![id(A), id(B), id(A), id(C)], id(A)), vec![id(B), id(C)]);
    assert_eq!(without_oid(&vec![id(A)], id(B)), vec![id(A)]);
    assert_eq!(without_text(&strings(&["a", "b", "a"]), "a"), vec!["b"]);
}

#[test]
fn union_keeps_order_and_adds_new_items_once() {
    let mut v = vec![id(A), id(B)];
    add_oids(&mut v, &vec![id(B), id(C), id(C)]);
    assert_eq!(v, vec![id(A), id(B), id(C)]);
    add_oid(&mut v, id(A));
    assert_eq!(v, vec![id(A), id(B), id(C)]);
    let mut t = strings(&["a"]);
    add_texts(&mut t, &strings(&["b", "a", "b"]));
    assert_eq!(t, vec!["a", "b"]);
    add_text(&mut t, "c");
    assert_eq!(t, vec!["a", "b", "c"]);
}

#[test]
fn distinct_keeps_each_item_where_it_first_stands() {
    assert_eq!(distinct_oids(&vec![id(B), id(A), id(B), id(A)]), vec![id(B), id(A)]);
    assert_eq!(distinct_oids(&vec![]), vec![]);
}

#[test]
fn toggle_switches_one_membership_and_back() {
    let one = vec![id(A)];
    let two = toggle_oid(&one, id(B));
    assert_eq!(two, vec![id(A), id(B)]);
    assert_eq!(toggle_oid(&two, id(B)), one);
    assert_eq!(toggle_oid(&two, id(A)), vec![id(B)]);
}

#[test]
fn greater_keys_come_first_and_equal_ones_keep_their_order() {
    assert_eq!(descending(&vec![3, 9, 3, -1, 9]), vec![1, 4, 0, 2, 3]);
    assert_eq!(descending(&vec![]), Vec::<usize>::new());
    assert_eq!(descending(&vec![i64::MIN, i64::MAX]), vec![1, 0]);
}

#[test]
fn page_turns_fetched_items_round() {
    let p = page_of(4, 3);
    assert_eq!(p.items, vec![2, 1, 0]);
    assert!(p.has_more);
    let p = page_of(3, 3);
    assert_eq!(p.items, vec![2, 1, 0]);
    assert!(!p.has_more);
    let p = page_of(0, 3);
    assert!(p.items.is_empty() && !p.has_more);
}

#[test]
fn page_leaves_out_what_is_not_kept() {
    let p = page_of_kept(&vec![true, false, true, true], 3);
    assert_eq!(p.items, vec![2, 0]);
    assert!(p.has_more);
    let p = page_of_kept(&vec![false, true], 5);
    assert_eq!(p.items, vec![1]);
    assert!(!p.has_more);
}

#[test]
fn page_of_all_kept_is_the_plain_page() {
    let a = page_of_kept(&vec![true, true, true], 2);
    let b = page_of(3, 2);
    assert_eq!(a.items, b.items);
    assert_eq!(a.has_more, b.has_more);
}
