use resonate::sqlite::processing::{scheduled_promise_id, scheduled_promise_tags};
use resonate::string_map::StringMap;
use resonate::text::{contains_char, decimal_text, find_char, joined, replace_text, same_text};

#[test]
fn texts_are_compared_and_joined() {
    assert!(same_text("größe", "größe"));
    assert!(!same_text("a", "b"));
    assert!(!same_text("a", "ab"));
    assert_eq!(joined("größe", "-1"), "größe-1");
    assert_eq!(joined("", ""), "");
}

#[test]
fn characters_are_found() {
    assert_eq!(find_char("a:b:c", ':'), 1);
    assert_eq!(find_char("ß:b", ':'), 1);
    assert_eq!(find_char("abc", ':'), 3);
    assert!(contains_char("a.b", '.'));
    assert!(!contains_char("a.b", ':'));
}

#[test]
fn occurrences_are_replaced_from_the_left() {
    assert_eq!(replace_text("aaa", "aa", "b"), "ba");
    assert_eq!(replace_text("x{{.id}}y{{.id}}", "{{.id}}", "s"), "xsys");
    assert_eq!(replace_text("nothing", "{{.id}}", "s"), "nothing");
    assert_eq!(replace_text("", "a", "b"), "");
    assert_eq!(replace_text("{{.id}", "{{.id}}", "s"), "{{.id}");
    // What is put in is not looked through again.
    assert_eq!(replace_text("ab", "a", "aa"), "aab");
}

#[test]
fn numbers_are_written_in_decimal() {
    assert_eq!(decimal_text(0), "0");
    assert_eq!(decimal_text(-7), "-7");
    assert_eq!(decimal_text(1_786_636_678_653), "1786636678653");
    assert_eq!(decimal_text(i64::MAX), "9223372036854775807");
    assert_eq!(decimal_text(i64::MIN), "-9223372036854775808");
}

#[test]
fn every_run_of_a_schedule_has_its_own_promise() {
    assert_eq!(scheduled_promise_id("report-{{.timestamp}}", "s", 60), "report-60");
    assert_eq!(scheduled_promise_id("report-{{.timestamp}}", "s", 61), "report-61");
    assert_eq!(scheduled_promise_id("{{.id}}/{{.timestamp}}", "s", 60), "s/60");
    assert_eq!(scheduled_promise_id("fixed", "s", 60), "fixed");
    // The id is filled in first.
    assert_eq!(scheduled_promise_id("{{.id}}", "{{.timestamp}}", 60), "60");
}

#[test]
fn scheduled_promises_are_tied_to_their_schedule() {
    let given = StringMap::from_pairs(vec![
        ("k".to_string(), "v".to_string()),
        ("resonate:parent".to_string(), "x".to_string()),
    ]);
    let tags = scheduled_promise_tags(&given, "s", "s-60");
    assert_eq!(tags.len(), 6);
    assert_eq!(tags.get("k"), Some("v"));
    assert_eq!(tags.get("resonate:schedule"), Some("s"));
    for key in ["resonate:origin", "resonate:branch", "resonate:parent", "resonate:prefix"] {
        assert_eq!(tags.get(key), Some("s-60"));
    }
}
