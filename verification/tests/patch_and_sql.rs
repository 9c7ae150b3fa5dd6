use toast_task::ids::{id_to_string, parse_id};
use toast_task::patch::Patch;
use toast_task::sql::{
    escape_sql_string, insert_batch_query, insert_query, print_sql, print_sql_option,
    update_query, Assignment, Column, SqlValue,
};
use toast_task::text::{join, remove_pattern, same_text};

fn assignment(name: &str, value: Patch<SqlValue>) -> Assignment {
    Assignment { name: name.to_string(), value }
}

fn column(name: &str, value: Option<SqlValue>) -> Column {
    Column { name: name.to_string(), value }
}

#[test]
fn patch_reads_the_three_states_of_a_field() {
    assert!(matches!(Patch::<u8>::from_field(None), Patch::Missing));
    assert!(matches!(Patch::<u8>::from_field(Some(None)), Patch::Null));
    assert!(matches!(Patch::<u8>::from_field(Some(Some(7))), Patch::Value(7)));
}

#[test]
fn patch_writes_the_three_states_of_a_field() {
    assert_eq!(Patch::<u8>::Missing.into_field(), None);
    assert_eq!(Patch::<u8>::Null.into_field(), Some(None));
    assert_eq!(Patch::Value(7u8).into_field(), Some(Some(7)));
}

#[test]
fn patch_round_trip_keeps_the_states_apart() {
    let fields: Vec<Option<Option<u8>>> = vec![None, Some(None), Some(Some(3))];
    for field in fields {
        assert_eq!(Patch::from_field(field).into_field(), field);
    }
}

#[test]
fn patch_from_option_is_null_or_value() {
    assert!(matches!(Patch::<u8>::from(None), Patch::Null));
    assert!(matches!(Patch::from(Some(5u8)), Patch::Value(5)));
}

#[test]
fn patch_default_is_missing() {
    assert!(matches!(Patch::<String>::default(), Patch::Missing));
    assert!(Patch::<String>::default().is_missing());
    assert!(!Patch::<String>::Null.is_missing());
}

#[test]
fn patch_apply_keeps_clears_or_sets() {
    assert_eq!(Patch::Missing.apply(Some(1u8)), Some(1));
    assert_eq!(Patch::Null.apply(Some(1u8)), None);
    assert_eq!(Patch::Value(2u8).apply(Some(1)), Some(2));
    assert_eq!(Patch::Value(2u8).apply(None), Some(2));
}

#[test]
fn escape_plain_text() {
    assert_eq!(escape_sql_string("Groceries"), "E'Groceries'");
    assert_eq!(escape_sql_string(""), "E''");
}

#[test]
fn escape_quotes_and_backslashes() {
    assert_eq!(escape_sql_string("it's"), "E'it\\'s'");
    assert_eq!(escape_sql_string("say \"hi\""), "E'say \\\"hi\\\"'");
    assert_eq!(escape_sql_string("a\\b"), "E'a\\\\b'");
    assert_eq!(escape_sql_string("\\'"), "E'\\\\\\''");
}

#[test]
fn escape_control_characters() {
    assert_eq!(escape_sql_string("a\nb"), "E'a\\nb'");
    assert_eq!(escape_sql_string("a\tb"), "E'a\\tb'");
    assert_eq!(escape_sql_string("a\rb"), "E'a\\rb'");
}

#[test]
fn escape_keeps_other_characters() {
    assert_eq!(escape_sql_string("caf\u{e9} \u{1F35E}"), "E'caf\u{e9} \u{1F35E}'");
    assert_eq!(escape_sql_string("x'; DROP TABLE lists; --"), "E'x\\'; DROP TABLE lists; --'");
}

#[test]
fn print_sql_text_and_identifier() {
    assert_eq!(print_sql(&SqlValue::Text("a'b".to_string())), "E'a\\'b'");
    assert_eq!(
        print_sql(&SqlValue::Uuid(0x550e8400e29b41d4a716446655440000)),
        "E'550e8400-e29b-41d4-a716-446655440000'"
    );
}

#[test]
fn print_sql_numbers_and_truth_values() {
    assert_eq!(print_sql(&SqlValue::Integer(0)), "0");
    assert_eq!(print_sql(&SqlValue::Integer(42)), "42");
    assert_eq!(print_sql(&SqlValue::Integer(-7)), "-7");
    assert_eq!(print_sql(&SqlValue::Integer(i64::MAX)), "9223372036854775807");
    assert_eq!(print_sql(&SqlValue::Integer(i64::MIN)), "-9223372036854775808");
    assert_eq!(print_sql(&SqlValue::Bool(true)), "true");
    assert_eq!(print_sql(&SqlValue::Bool(false)), "false");
}

#[test]
fn print_sql_null() {
    assert_eq!(print_sql(&SqlValue::Null), "NULL");
    assert_eq!(print_sql_option(&None), "NULL");
    assert_eq!(print_sql_option(&Some(SqlValue::Integer(1))), "1");
}

#[test]
fn update_query_without_changes_is_nothing() {
    let fields = vec![assignment("title", Patch::Missing), assignment("color", Patch::Missing)];
    assert_eq!(update_query("lists", &fields, "WHERE id = $1"), None);
    assert_eq!(update_query("lists", &Vec::new(), ""), None);
}

#[test]
fn update_query_skips_missing_and_clears_null() {
    let fields = vec![
        assignment("title", Patch::Value(SqlValue::Text("Groceries".to_string()))),
        assignment("description", Patch::Null),
        assignment("color", Patch::Missing),
    ];
    assert_eq!(
        update_query("lists", &fields, "WHERE id = $1 AND user_id = $2"),
        Some(
            "UPDATE lists SET title=E'Groceries', description=NULL WHERE id = $1 AND user_id = $2"
                .to_string()
        )
    );
}

#[test]
fn update_query_with_one_null_field() {
    let fields = vec![assignment("parent_id", Patch::Null)];
    assert_eq!(
        update_query("tasks", &fields, ""),
        Some("UPDATE tasks SET parent_id=NULL ".to_string())
    );
}

#[test]
fn insert_query_leaves_out_absent_columns() {
    let fields = vec![
        column("user_id", Some(SqlValue::Uuid(1))),
        column("title", Some(SqlValue::Text("Groceries".to_string()))),
        column("description", None),
        column("completed", Some(SqlValue::Bool(false))),
    ];
    assert_eq!(
        insert_query("lists", &fields, "RETURNING id"),
        "INSERT INTO lists (user_id, title, completed) VALUES (E'00000000-0000-0000-0000-000000000001', E'Groceries', false) RETURNING id"
    );
}

#[test]
fn insert_query_without_columns() {
    assert_eq!(insert_query("lists", &Vec::new(), ""), "INSERT INTO lists () VALUES () ");
}

#[test]
fn insert_batch_query_writes_default_for_absent_values() {
    let names = vec!["title".to_string(), "color".to_string()];
    let rows = vec![
        vec![Some(SqlValue::Text("a".to_string())), None],
        vec![Some(SqlValue::Text("b".to_string())), Some(SqlValue::Text("#ffffff".to_string()))],
    ];
    assert_eq!(
        insert_batch_query("labels", &names, &rows, "RETURNING id"),
        "INSERT INTO labels (title, color) VALUES (E'a', default), (E'b', E'#ffffff') RETURNING id"
    );
}

#[test]
fn join_writes_the_separator_between_parts() {
    assert_eq!(join(&Vec::new(), ", "), "");
    assert_eq!(join(&vec!["a".to_string()], ", "), "a");
    assert_eq!(join(&vec!["a".to_string(), "b".to_string(), "".to_string()], ", "), "a, b, ");
}

#[test]
fn remove_pattern_takes_every_occurrence() {
    assert_eq!(remove_pattern("Bearer abc", "Bearer "), "abc");
    assert_eq!(remove_pattern("abc", "Bearer "), "abc");
    assert_eq!(remove_pattern("Bearer Bearer x", "Bearer "), "x");
    assert_eq!(remove_pattern("aaa", "aa"), "a");
    assert_eq!(remove_pattern("xBearer yBearer", "Bearer "), "xyBearer");
    assert_eq!(remove_pattern("abc", ""), "abc");
    assert_eq!(remove_pattern("", "x"), "");
}

#[test]
fn same_text_compares_characters() {
    assert!(same_text("web", "web"));
    assert!(!same_text("web", "Web"));
    assert!(!same_text("web", "webs"));
    assert!(same_text("", ""));
}

#[test]
fn identifier_is_written_hyphenated() {
    assert_eq!(id_to_string(0), "00000000-0000-0000-0000-000000000000");
    assert_eq!(
        id_to_string(0xa1a2a3a4b1b2c1c2d1d2d3d4d5d6d7d8),
        "a1a2a3a4-b1b2-c1c2-d1d2-d3d4d5d6d7d8"
    );
    assert_eq!(id_to_string(u128::MAX), "ffffffff-ffff-ffff-ffff-ffffffffffff");
}

#[test]
fn identifier_is_read_in_several_forms() {
    let id = 0x550e8400e29b41d4a716446655440000u128;
    assert_eq!(parse_id("550e8400-e29b-41d4-a716-446655440000"), Some(id));
    assert_eq!(parse_id("550e8400e29b41d4a716446655440000"), Some(id));
    assert_eq!(parse_id("550E8400-E29B-41D4-A716-446655440000"), Some(id));
    assert_eq!(parse_id("not an identifier"), None);
    assert_eq!(parse_id(""), None);
}

#[test]
fn identifier_round_trip() {
    for id in [0u128, 1, 0xdeadbeef, u128::MAX] {
        assert_eq!(parse_id(&id_to_string(id)), Some(id));
    }
}
