//! The fuzzy matcher and the list engine: filtering, ordering, and the
//! cursor.

use muxpick::entries::SessionEntry;
use muxpick::fuzzy::fuzzy_match;
use muxpick::fuzzy::str_lex_leq;
use muxpick::list::FuzzyList;

fn sessions(names: &[&str]) -> Vec<SessionEntry> {
    names.iter().map(|n| SessionEntry { name: (*n).to_string() }).collect()
}

fn filtered_names(list: &FuzzyList<SessionEntry>) -> Vec<String> {
    let mut out = Vec::new();
    let mut k = 0;
    while k < list.filtered_len() {
        out.push(list.filtered_item(k).name.clone());
        k += 1;
    }
    out
}

#[test]
fn match_subsequence() {
    assert!(fuzzy_match("bna", "Banana"));
    assert!(fuzzy_match("ban", "Banana"));
    assert!(!fuzzy_match("bnn a", "Banana"));
    assert!(!fuzzy_match("x", "Banana"));
}

#[test]
fn match_case_insensitive() {
    assert!(fuzzy_match("BAN", "banana"));
    assert!(fuzzy_match("wT", "Work Tree"));
    assert!(fuzzy_match("ChY", "cherry"));
}

#[test]
fn match_empty_query() {
    assert!(fuzzy_match("", "anything"));
    assert!(fuzzy_match("", ""));
    assert!(!fuzzy_match("a", ""));
}

#[test]
fn match_order_matters() {
    assert!(fuzzy_match("ace", "abcde"));
    assert!(!fuzzy_match("eca", "abcde"));
}

#[test]
fn lex_order_case_insensitive() {
    assert!(str_lex_leq("Apple", "banana"));
    assert!(str_lex_leq("apple", "Banana"));
    assert!(!str_lex_leq("cherry", "Banana"));
    assert!(str_lex_leq("abc", "abcd"));
    assert!(!str_lex_leq("abcd", "abc"));
    assert!(str_lex_leq("same", "same"));
}

#[test]
fn filter_scenario_banana() {
    // set_items([A,B,C]) then 'b' on ["Apple","Banana","Cherry"]:
    // exactly Banana remains and the cursor sits on it.
    let mut list: FuzzyList<SessionEntry> = FuzzyList::new("Sessions");
    list.set_items(sessions(&["Apple", "Banana", "Cherry"]));
    list.push_char('b');
    assert_eq!(filtered_names(&list), vec!["Banana".to_string()]);
    assert_eq!(list.cursor, 0);
    assert_eq!(list.selected().unwrap().name, "Banana");
}

#[test]
fn filter_empty_query_retains_all_in_order() {
    let mut list: FuzzyList<SessionEntry> = FuzzyList::new("Sessions");
    list.set_items(sessions(&["one", "two", "three"]));
    assert_eq!(
        filtered_names(&list),
        vec!["one".to_string(), "two".to_string(), "three".to_string()]
    );
}

#[test]
fn filter_is_stable() {
    // Both "bob" and "abba" match "b"; their relative order is kept.
    let mut list: FuzzyList<SessionEntry> = FuzzyList::new("Sessions");
    list.set_items(sessions(&["bob", "cedar", "abba", "dove", "burl"]));
    list.push_char('b');
    assert_eq!(
        filtered_names(&list),
        vec!["bob".to_string(), "abba".to_string(), "burl".to_string()]
    );
}

#[test]
fn cursor_clamps_and_never_escapes() {
    let mut list: FuzzyList<SessionEntry> = FuzzyList::new("Sessions");
    list.set_items(sessions(&["a", "b", "c", "d", "e"]));
    list.move_up(); // at top already
    assert_eq!(list.cursor, 0);
    list.move_down();
    list.move_down();
    assert_eq!(list.cursor, 2);
    list.page_down(10); // clamps to the last entry
    assert_eq!(list.cursor, 4);
    list.move_down(); // no wraparound
    assert_eq!(list.cursor, 4);
    list.page_up(3);
    assert_eq!(list.cursor, 1);
    list.page_up(10); // clamps to the top
    assert_eq!(list.cursor, 0);
}

#[test]
fn cursor_none_iff_empty() {
    let mut list: FuzzyList<SessionEntry> = FuzzyList::new("Sessions");
    assert!(list.selected().is_none());
    list.set_items(sessions(&["alpha"]));
    assert!(list.selected().is_some());
    list.push_char('z'); // nothing matches
    assert_eq!(list.filtered_len(), 0);
    assert!(list.selected().is_none());
    list.pop_char();
    assert!(list.selected().is_some());
}

#[test]
fn reset_on_edit() {
    let mut list: FuzzyList<SessionEntry> = FuzzyList::new("Sessions");
    list.set_items(sessions(&["ash", "asp", "aster"]));
    list.move_down();
    list.move_down();
    assert_eq!(list.cursor, 2);
    list.push_char('a');
    assert_eq!(list.cursor, 0);
    list.move_down();
    list.pop_char();
    assert_eq!(list.cursor, 0);
    list.move_down();
    list.clear_query();
    assert_eq!(list.cursor, 0);
}

#[test]
fn set_items_reclamps_cursor() {
    let mut list: FuzzyList<SessionEntry> = FuzzyList::new("Sessions");
    list.set_items(sessions(&["a", "b", "c"]));
    list.move_down();
    list.move_down();
    list.set_items(sessions(&["x"]));
    assert_eq!(list.cursor, 0);
    assert_eq!(list.selected().unwrap().name, "x");
    list.set_items(Vec::new());
    assert_eq!(list.cursor, 0);
    assert!(list.selected().is_none());
}

#[test]
fn refresh_is_idempotent() {
    let mut a: FuzzyList<SessionEntry> = FuzzyList::new("Sessions");
    a.push_char('b');
    a.set_items(sessions(&["bar", "baz", "fob"]));
    let first: Vec<String> = filtered_names(&a);
    let first_cursor = a.cursor;
    a.set_items(sessions(&["bar", "baz", "fob"]));
    assert_eq!(filtered_names(&a), first);
    assert_eq!(a.cursor, first_cursor);
}

#[test]
fn query_tracks_edits() {
    let mut list: FuzzyList<SessionEntry> = FuzzyList::new("Sessions");
    list.push_char('a');
    list.push_char('b');
    assert_eq!(list.query(), "ab");
    list.pop_char();
    assert_eq!(list.query(), "a");
    list.clear_query();
    assert_eq!(list.query(), "");
    assert!(list.query_is_empty());
}
