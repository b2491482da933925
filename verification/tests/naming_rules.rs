use fuel_indexer_lib::fully_qualified_namespace;
use fuel_indexer_lib::join_table_name;
use fuel_indexer_lib::join_table_typedefs_name;

#[test]
fn qualify_joins_with_underscore() {
    assert_eq!(fully_qualified_namespace("app", "token"), "app_token");
}

#[test]
fn qualify_keeps_inner_underscores() {
    assert_eq!(fully_qualified_namespace("a", "b_c"), "a_b_c");
}

#[test]
fn join_table_pluralizes_both_names() {
    assert_eq!(join_table_name("user", "post"), "users_posts");
}

#[test]
fn join_table_round_trip() {
    let joined = join_table_name("user", "post");
    let halves = join_table_typedefs_name(&joined);
    assert_eq!(halves, Some(("user".to_string(), "post".to_string())));
}

#[test]
fn typedefs_single_segment_fails() {
    assert_eq!(join_table_typedefs_name("users"), None);
}

#[test]
fn typedefs_unpluralized_segment_fails() {
    assert_eq!(join_table_typedefs_name("usercamp_posts"), None);
    assert_eq!(join_table_typedefs_name("users_post"), None);
}

#[test]
fn typedefs_empty_segment_fails() {
    assert_eq!(join_table_typedefs_name("users_"), None);
    assert_eq!(join_table_typedefs_name("_posts"), None);
}

#[test]
fn typedefs_discards_extra_segments() {
    assert_eq!(
        join_table_typedefs_name("users_posts_comments"),
        Some(("user".to_string(), "post".to_string()))
    );
}
