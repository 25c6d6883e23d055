use diesel::pg::query_builder::PgQueryBuilder;
use diesel::query_builder::QueryBuilder;

fn unquote(token: &str) -> Option<String> {
    let inner = token.strip_prefix('"')?.strip_suffix('"')?;
    let mut name = String::new();
    let mut chars = inner.chars();
    while let Some(c) = chars.next() {
        if c == '"' {
            if chars.next() != Some('"') {
                return None;
            }
        }
        name.push(c);
    }
    Some(name)
}

fn quoted(name: &str) -> String {
    let mut builder = PgQueryBuilder::new();
    assert!(builder.push_identifier(name).is_ok());
    builder.finish()
}

#[test]
fn fresh_builder_is_empty() {
    assert_eq!(PgQueryBuilder::new().finish(), "");
    assert_eq!(PgQueryBuilder::default().finish(), "");
    assert_eq!(<PgQueryBuilder as QueryBuilder>::fresh().finish(), "");
}

#[test]
fn push_sql_appends_verbatim() {
    let mut builder = PgQueryBuilder::new();
    builder.push_sql("SELECT ");
    builder.push_sql("\"a\" 'b' $9 ");
    builder.push_sql("");
    builder.push_sql("FROM t");
    assert_eq!(builder.finish(), "SELECT \"a\" 'b' $9 FROM t");
}

#[test]
fn push_identifier_wraps_in_double_quotes() {
    assert_eq!(quoted("users"), "\"users\"");
    assert_eq!(quoted("select"), "\"select\"");
    assert_eq!(quoted("two words"), "\"two words\"");
    assert_eq!(quoted(""), "\"\"");
}

#[test]
fn push_identifier_doubles_embedded_quotes() {
    assert_eq!(quoted("a\"b"), "\"a\"\"b\"");
    assert_eq!(quoted("\""), "\"\"\"\"");
    assert_eq!(quoted("\"\""), "\"\"\"\"\"\"");
    assert_eq!(quoted("\"a"), "\"\"\"a\"");
    assert_eq!(quoted("a\""), "\"a\"\"\"");
    assert_eq!(quoted("x\"; DROP TABLE users; --"), "\"x\"\"; DROP TABLE users; --\"");
}

#[test]
fn push_identifier_keeps_other_characters() {
    assert_eq!(quoted("na\u{ef}ve'$1"), "\"na\u{ef}ve'$1\"");
    assert_eq!(quoted("\u{1f980}\"\u{1f980}"), "\"\u{1f980}\"\"\u{1f980}\"");
}

#[test]
fn quoted_identifier_round_trips() {
    for name in ["users", "", "a\"b", "\"", "\"\"\"", "a\"\"b\"c", "x y\"z\u{e9}\""] {
        let token = quoted(name);
        assert_eq!(unquote(&token).as_deref(), Some(name));
        let quotes_in = name.chars().filter(|c| *c == '"').count();
        let quotes_out = token.chars().filter(|c| *c == '"').count();
        assert_eq!(quotes_out, 2 * quotes_in + 2);
        assert_eq!(token.chars().count(), name.chars().count() + quotes_in + 2);
    }
}

#[test]
fn push_identifier_appends_after_earlier_text() {
    let mut builder = PgQueryBuilder::new();
    builder.push_sql("FROM ");
    assert!(builder.push_identifier("my\"table").is_ok());
    builder.push_sql(" AS ");
    assert!(builder.push_identifier("t").is_ok());
    assert_eq!(builder.finish(), "FROM \"my\"\"table\" AS \"t\"");
}

#[test]
fn bind_params_count_from_one() {
    let mut builder = PgQueryBuilder::new();
    builder.push_bind_param();
    assert_eq!(builder.finish(), "$1");

    let mut builder = PgQueryBuilder::new();
    builder.push_bind_param();
    builder.push_sql(", ");
    builder.push_bind_param();
    builder.push_sql(", ");
    builder.push_bind_param();
    assert_eq!(builder.finish(), "$1, $2, $3");
}

#[test]
fn nth_bind_param_carries_n() {
    let mut expected = String::new();
    let mut builder = PgQueryBuilder::new();
    for n in 1..=120u32 {
        builder.push_bind_param();
        builder.push_sql(" ");
        expected.push_str(&format!("${} ", n));
    }
    let sql = builder.finish();
    assert_eq!(sql, expected);
    assert!(sql.starts_with("$1 $2 $3 $4 $5 $6 $7 $8 $9 $10 $11 "));
    assert!(sql.ends_with(" $99 $100 $101 $102 $103 $104 $105 $106 $107 $108 $109 $110 $111 $112 $113 $114 $115 $116 $117 $118 $119 $120 "));
}

#[test]
fn builder_has_room_for_more_values() {
    let mut builder = PgQueryBuilder::new();
    assert!(builder.has_room());
    for _ in 0..1000 {
        builder.push_bind_param();
    }
    assert!(builder.has_room());
    assert!(builder.finish().ends_with("$999$1000"));
}

#[test]
fn bind_counter_is_untouched_by_text_and_identifiers() {
    let mut builder = PgQueryBuilder::new();
    builder.push_sql("$7 ");
    assert!(builder.push_identifier("$8").is_ok());
    builder.push_sql(" ");
    builder.push_bind_param();
    assert_eq!(builder.finish(), "$7 \"$8\" $1");
}
