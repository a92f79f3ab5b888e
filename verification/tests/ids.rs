use resonate::error::Error;
use resonate::ids::{
    extends_id, holds_separator, join_id, origin_of, share_origin, validate_root_id,
};

#[test]
fn join_id_matches_the_servers_separator_rule() {
    assert_eq!(join_id("root", "1"), "root:1");
    assert_eq!(join_id("root:1", "2"), "root:1.2");
    assert_eq!(join_id("root:1.2", "3"), "root:1.2.3");
    assert_eq!(join_id("root", "dbeef"), "root:dbeef");
}

#[test]
fn origin_of_is_everything_before_the_first_colon() {
    assert_eq!(origin_of("root"), "root");
    assert_eq!(origin_of("root:1"), "root");
    assert_eq!(origin_of("root:1.2"), "root");
    assert_eq!(origin_of("root:dbeef"), "root");
}

#[test]
fn validate_root_id_rejects_reserved_separators() {
    // Both separators are reserved in a root id: it becomes the origin of its
    // whole lineage.
    for id in ["a.b", "a:b", "a.b:c", "", "a\0b"] {
        assert!(
            matches!(validate_root_id(id), Err(Error::InvalidId { .. })),
            "expected InvalidId for {:?}",
            id
        );
    }
}

#[test]
fn validate_root_id_accepts_bare_ids() {
    for id in ["a", "a-b", "a_b", "wf-1786636678653183000"] {
        assert!(validate_root_id(id).is_ok(), "rejected {:?}", id);
    }
}

#[test]
fn children_keep_the_origin_of_their_ancestor() {
    let child = join_id("wf-1", "1");
    let grandchild = join_id(&child, "x");
    assert_eq!(origin_of(&child), "wf-1");
    assert_eq!(origin_of(&grandchild), "wf-1");
    assert!(grandchild.starts_with(&child));
    assert_ne!(join_id("wf-1", "1"), join_id("wf-1", "2"));
}

#[test]
fn a_valid_root_is_its_own_origin() {
    assert!(validate_root_id("größe-1").is_ok());
    assert_eq!(origin_of("größe-1"), "größe-1");
    assert_eq!(origin_of("größe:1.ß"), "größe");
}

#[test]
fn a_rejected_root_id_is_reported_with_its_fault() {
    match validate_root_id("a.b:c") {
        Err(Error::InvalidId { id, reason }) => {
            assert_eq!(id, "a.b:c");
            assert!(!reason.is_empty());
        }
        other => panic!("expected InvalidId, got {:?}", other),
    }
}

#[test]
fn ids_of_one_lineage_share_an_origin() {
    assert!(share_origin("root", "root"));
    assert!(share_origin("root:1", "root:2.3"));
    assert!(share_origin("root", "root:1"));
    assert!(!share_origin("root:1", "other:1"));
    assert!(!share_origin("a", "b"));
    assert!(!share_origin("root", "root.1"));
}

#[test]
fn an_id_extends_itself_and_its_ancestors() {
    assert!(extends_id("root", "root"));
    assert!(extends_id("root:1", "root"));
    assert!(extends_id("root:1.2", "root"));
    assert!(extends_id("root:1.2", "root:1"));
    assert!(extends_id("größe:ß", "größe"));
    assert!(extends_id("root:", "root"));
    assert!(!extends_id("root", "root:1"));
    assert!(!extends_id("rooted:1", "root"));
    assert!(!extends_id("root.1", "root"));
    assert!(!extends_id("root:1:2", "root:1"));
    assert!(!extends_id("root:12", "root:1"));
    assert!(!extends_id("b:1", "a"));
    assert!(holds_separator("a.b"));
    assert!(holds_separator("a:b"));
    assert!(!holds_separator("a-b"));
}
