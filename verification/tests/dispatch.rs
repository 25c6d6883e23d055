use std::cell::RefCell;

use diesel::connection::Connection;
use diesel::pg::backend::Pg;
use diesel::query_builder::as_query::AsQuery;
use diesel::query_builder::fragment::{Assignment, Expression, QueryFragment};
use diesel::query_builder::select_statement::SelectStatement;
use diesel::query_dsl::load_dsl::{decode_answer, decode_rows, prepare, Prepared};
use diesel::pg::query_builder::PgQueryBuilder;
use diesel::query_source::{Column, Queryable, Table};
use diesel::result::{first_or_not_found, optional};
use diesel::types::{SqlType, Value};
use diesel::{delete, insert, update, Error, ExecuteDsl, FirstDsl, LoadDsl, LoadQuery, QueryResult};

/// A connection that keeps what it was sent and answers from a script.
struct Scripted {
    sent: RefCell<Vec<(String, Vec<Value>)>>,
    rows: QueryResult<Vec<Vec<Value>>>,
    count: QueryResult<usize>,
}

impl Scripted {
    fn with_rows(rows: Vec<Vec<Value>>) -> Scripted {
        Scripted { sent: RefCell::new(Vec::new()), rows: Ok(rows), count: Ok(0) }
    }

    fn with_count(count: usize) -> Scripted {
        Scripted { sent: RefCell::new(Vec::new()), rows: Ok(Vec::new()), count: Ok(count) }
    }

    fn failing(error: Error) -> Scripted {
        Scripted { sent: RefCell::new(Vec::new()), rows: Err(error.clone()), count: Err(error) }
    }

    fn record(&self, sql: &str, binds: &Vec<Value>) {
        self.sent.borrow_mut().push((sql.to_string(), binds.clone()));
    }

    fn sent(&self) -> Vec<(String, Vec<Value>)> {
        self.sent.borrow().iter().map(|(sql, binds)| (sql.clone(), binds.clone())).collect()
    }
}

impl Connection for Scripted {
    type Backend = Pg;

    fn query_by_index(&self, sql: &str, binds: &Vec<Value>) -> QueryResult<Vec<Vec<Value>>> {
        self.record(sql, binds);
        match &self.rows {
            Ok(rows) => Ok(rows.iter().map(|row| row.clone()).collect()),
            Err(e) => Err(e.clone()),
        }
    }

    fn execute_returning_count(&self, sql: &str, binds: &Vec<Value>) -> QueryResult<usize> {
        self.record(sql, binds);
        self.count.clone()
    }
}

/// A table of three users that honours a limit bound as the last value.
struct ThreeUsers {
    sent: RefCell<Vec<(String, Vec<Value>)>>,
}

impl Connection for ThreeUsers {
    type Backend = Pg;

    fn query_by_index(&self, sql: &str, binds: &Vec<Value>) -> QueryResult<Vec<Vec<Value>>> {
        self.sent.borrow_mut().push((sql.to_string(), binds.clone()));
        let all = vec![user_row(1, "Sean"), user_row(2, "Pascal"), user_row(3, "Tess")];
        let limit = match (sql.contains(" LIMIT "), binds.last()) {
            (true, Some(Value::BigInt(n))) => *n as usize,
            _ => all.len(),
        };
        Ok(all.into_iter().take(limit).collect())
    }

    fn execute_returning_count(&self, _sql: &str, _binds: &Vec<Value>) -> QueryResult<usize> {
        Ok(0)
    }
}

#[derive(Debug, PartialEq)]
struct User {
    id: i32,
    name: String,
}

impl Queryable for User {
    fn build(row: &Vec<Value>) -> QueryResult<User> {
        match row.as_slice() {
            [Value::Integer(id), Value::Text(name)] => Ok(User { id: *id, name: name.clone() }),
            _ => Err(Error::DecodeError(format!("not a user: {:?}", row))),
        }
    }
}

fn user(id: i32, name: &str) -> User {
    User { id, name: name.to_string() }
}

fn user_row(id: i32, name: &str) -> Vec<Value> {
    vec![Value::Integer(id), Value::Text(name.to_string())]
}

fn users() -> Table {
    Table::new(
        "users".to_string(),
        vec![
            Column { name: "id".to_string(), sql_type: SqlType::Integer },
            Column { name: "name".to_string(), sql_type: SqlType::Text },
        ],
    )
}

fn name_is(name: &str) -> Vec<QueryFragment> {
    vec![
        QueryFragment::Identifier("name".to_string()),
        QueryFragment::RawSql(" = ".to_string()),
        QueryFragment::Bind(Value::Text(name.to_string())),
    ]
}

fn named(name: &str) -> Assignment {
    Assignment { column: "name".to_string(), value: Value::Text(name.to_string()) }
}

const ALL_USERS: &str = "SELECT \"users\".\"id\", \"users\".\"name\" FROM \"users\"";

#[test]
fn load_decodes_every_row_in_order() {
    let conn = Scripted::with_rows(vec![user_row(1, "Sean"), user_row(2, "Pascal")]);
    let loaded: QueryResult<Vec<User>> = users().load(&conn);
    assert_eq!(loaded, Ok(vec![user(1, "Sean"), user(2, "Pascal")]));
    assert_eq!(conn.sent(), vec![(ALL_USERS.to_string(), vec![])]);
}

#[test]
fn load_sends_the_bound_values_beside_the_text() {
    let conn = Scripted::with_rows(vec![]);
    let loaded: QueryResult<Vec<User>> = users().filter(name_is("Foo")).load(&conn);
    assert_eq!(loaded, Ok(vec![]));
    assert_eq!(
        conn.sent(),
        vec![(format!("{} WHERE \"name\" = $1", ALL_USERS), vec![Value::Text("Foo".to_string())])]
    );
}

#[test]
fn load_of_raw_rows() {
    let conn = Scripted::with_rows(vec![user_row(1, "Sean"), vec![Value::Null]]);
    let loaded: QueryResult<Vec<Vec<Value>>> = users().load(&conn);
    assert_eq!(loaded, Ok(vec![user_row(1, "Sean"), vec![Value::Null]]));
}

#[test]
fn internal_load_is_what_load_does() {
    let conn = Scripted::with_rows(vec![user_row(5, "Jim")]);
    let loaded: QueryResult<Vec<User>> = LoadQuery::internal_load(users(), &conn);
    assert_eq!(loaded, Ok(vec![user(5, "Jim")]));
    assert_eq!(conn.sent().len(), 1);
}

#[test]
fn load_passes_connection_failures_on() {
    let conn = Scripted::failing(Error::ConnectionError("lost".to_string()));
    let loaded: QueryResult<Vec<User>> = users().load(&conn);
    assert_eq!(loaded, Err(Error::ConnectionError("lost".to_string())));
    assert_eq!(conn.sent().len(), 1);

    let conn = Scripted::failing(Error::BackendError("syntax error".to_string()));
    let got: QueryResult<User> = users().get_result(&conn);
    assert_eq!(got, Err(Error::BackendError("syntax error".to_string())));
    assert_eq!(users().execute(&conn), Err(Error::BackendError("syntax error".to_string())));
}

#[test]
fn load_stops_at_the_first_row_that_cannot_be_decoded() {
    let conn = Scripted::with_rows(vec![
        user_row(1, "Sean"),
        vec![Value::Text("two".to_string())],
        vec![Value::Null],
    ]);
    let loaded: QueryResult<Vec<User>> = users().load(&conn);
    match loaded {
        Err(Error::DecodeError(message)) => assert!(message.contains("two")),
        other => panic!("expected a decode error, got {:?}", other),
    }
}

#[test]
fn unrenderable_query_reaches_no_connection() {
    let conn = Scripted::with_rows(vec![user_row(1, "Sean")]);
    let loaded: QueryResult<Vec<User>> = SelectStatement::simple(None).load(&conn);
    assert!(matches!(loaded, Err(Error::RenderError(_))));
    let count = update(users()).set(vec![]).execute(&conn);
    assert!(matches!(count, Err(Error::RenderError(_))));
    assert!(conn.sent().is_empty());
}

#[test]
fn get_result_of_no_rows_is_not_found() {
    let conn = Scripted::with_rows(vec![]);
    let got: QueryResult<User> = users().filter(name_is("Foo")).get_result(&conn);
    assert_eq!(got, Err(Error::NotFound));
}

#[test]
fn get_result_of_one_row_is_that_row() {
    let conn = Scripted::with_rows(vec![user_row(1, "Sean")]);
    let got: QueryResult<User> = users().get_result(&conn);
    assert_eq!(got, Ok(user(1, "Sean")));
}

#[test]
fn get_result_of_many_rows_is_the_first() {
    let conn = Scripted::with_rows(vec![user_row(2, "Pascal"), user_row(1, "Sean"), user_row(3, "Tess")]);
    let got: QueryResult<User> = users().get_result(&conn);
    assert_eq!(got, Ok(user(2, "Pascal")));
    assert_eq!(conn.sent().len(), 1);
}

#[test]
fn get_result_of_an_update_with_returning() {
    let conn = Scripted::with_rows(vec![user_row(1, "James")]);
    let statement = update(users().filter(name_is("Sean"))).set(vec![named("James")]).returning(vec![
        Expression {
            fragments: vec![QueryFragment::Identifier("id".to_string())],
            sql_type: SqlType::Integer,
        },
        Expression {
            fragments: vec![QueryFragment::Identifier("name".to_string())],
            sql_type: SqlType::Text,
        },
    ]);
    let got: QueryResult<User> = statement.get_result(&conn);
    assert_eq!(got, Ok(user(1, "James")));
    assert_eq!(
        conn.sent(),
        vec![(
            "UPDATE \"users\" SET \"name\" = $1 WHERE \"name\" = $2 RETURNING \"id\", \"name\""
                .to_string(),
            vec![Value::Text("James".to_string()), Value::Text("Sean".to_string())]
        )]
    );
}

#[test]
fn get_results_hands_back_every_affected_row() {
    let conn = Scripted::with_rows(vec![
        vec![Value::Text("Diva".to_string())],
        vec![Value::Text("Vito".to_string())],
    ]);
    let records = vec![named("Diva"), named("Vito")];
    let statement = insert(&records).into(users()).returning(vec![Expression {
        fragments: vec![QueryFragment::Identifier("name".to_string())],
        sql_type: SqlType::Text,
    }]);
    let names: QueryResult<Vec<String>> = statement.get_results(&conn);
    assert_eq!(names, Ok(vec!["Diva".to_string(), "Vito".to_string()]));
    assert_eq!(
        conn.sent(),
        vec![(
            "INSERT INTO \"users\" (\"name\") VALUES ($1), ($2) RETURNING \"name\"".to_string(),
            vec![Value::Text("Diva".to_string()), Value::Text("Vito".to_string())]
        )]
    );
}

#[test]
fn first_limits_the_query_to_one_row() {
    let conn = ThreeUsers { sent: RefCell::new(Vec::new()) };
    let all: QueryResult<Vec<User>> = users().load(&conn);
    assert_eq!(all.map(|rows| rows.len()), Ok(3));

    let found: QueryResult<User> = users().first(&conn);
    assert_eq!(found, Ok(user(1, "Sean")));
    let sent = conn.sent.borrow();
    assert_eq!(sent.len(), 2);
    assert_eq!(sent[1].0, format!("{} LIMIT $1", ALL_USERS));
    assert_eq!(sent[1].1, vec![Value::BigInt(1)]);
}

#[test]
fn first_of_a_filtered_table_without_match_is_not_found() {
    let conn = Scripted::with_rows(vec![]);
    let found: QueryResult<User> = users().filter(name_is("Foo")).first(&conn);
    assert_eq!(found, Err(Error::NotFound));
    assert_eq!(
        conn.sent(),
        vec![(
            format!("{} WHERE \"name\" = $1 LIMIT $2", ALL_USERS),
            vec![Value::Text("Foo".to_string()), Value::BigInt(1)]
        )]
    );
}

#[test]
fn first_replaces_an_earlier_limit() {
    let conn = Scripted::with_rows(vec![vec![Value::BigInt(3)]]);
    let count = SelectStatement::simple(Some(users())).select(vec![Expression {
        fragments: vec![QueryFragment::RawSql("COUNT(*)".to_string())],
        sql_type: SqlType::BigInt,
    }]);
    let mut limited = count;
    limited.limit = Some(Value::BigInt(50));
    let found: QueryResult<i64> = limited.first(&conn);
    assert_eq!(found, Ok(3));
    assert_eq!(
        conn.sent(),
        vec![("SELECT COUNT(*) FROM \"users\" LIMIT $1".to_string(), vec![Value::BigInt(1)])]
    );
}

#[test]
fn execute_of_a_delete_that_matches_nothing_is_zero() {
    let conn = Scripted::with_count(0);
    let count = delete(users().filter(name_is("Nobody"))).execute(&conn);
    assert_eq!(count, Ok(0));
    assert_eq!(
        conn.sent(),
        vec![(
            "DELETE FROM \"users\" WHERE \"name\" = $1".to_string(),
            vec![Value::Text("Nobody".to_string())]
        )]
    );
}

#[test]
fn execute_of_a_multi_row_insert_reports_the_rows_added() {
    let conn = Scripted::with_count(2);
    let records = vec![named("Sean"), named("Pascal")];
    let count = insert(&records).into(users()).execute(&conn);
    assert_eq!(count, Ok(2));
    assert_eq!(
        conn.sent(),
        vec![(
            "INSERT INTO \"users\" (\"name\") VALUES ($1), ($2)".to_string(),
            vec![Value::Text("Sean".to_string()), Value::Text("Pascal".to_string())]
        )]
    );
}

#[test]
fn execute_decodes_nothing() {
    let conn = Scripted {
        sent: RefCell::new(Vec::new()),
        rows: Err(Error::DecodeError("never asked".to_string())),
        count: Ok(17),
    };
    assert_eq!(update(users()).set(vec![named("x")]).execute(&conn), Ok(17));
}

#[test]
fn prepare_renders_through_a_fresh_builder() {
    let query = delete(users().filter(name_is("Sean"))).as_query();
    assert_eq!(
        prepare::<PgQueryBuilder>(&query),
        Ok(Prepared {
            sql: "DELETE FROM \"users\" WHERE \"name\" = $1".to_string(),
            binds: vec![Value::Text("Sean".to_string())],
        })
    );
    let broken = update(users()).set(vec![]).as_query();
    assert!(matches!(prepare::<PgQueryBuilder>(&broken), Err(Error::RenderError(_))));
}

#[test]
fn decode_rows_builds_each_row() {
    let rows = vec![vec![Value::BigInt(1)], vec![Value::BigInt(-2)]];
    assert_eq!(decode_rows::<i64>(&rows), Ok(vec![1, -2]));
    assert_eq!(decode_rows::<i64>(&vec![]), Ok(vec![]));
    assert!(matches!(decode_rows::<i32>(&rows), Err(Error::DecodeError(_))));
}

#[test]
fn decode_answer_passes_failures_on() {
    assert_eq!(decode_answer::<bool>(Err(Error::NotFound)), Err(Error::NotFound));
    assert_eq!(
        decode_answer::<bool>(Err(Error::ConnectionError("down".to_string()))),
        Err(Error::ConnectionError("down".to_string()))
    );
    assert_eq!(decode_answer::<bool>(Ok(vec![vec![Value::Bool(true)]])), Ok(vec![true]));
}

#[test]
fn primitive_rows() {
    assert_eq!(bool::build(&vec![Value::Bool(false)]), Ok(false));
    assert_eq!(i32::build(&vec![Value::Integer(-7)]), Ok(-7));
    assert_eq!(i64::build(&vec![Value::BigInt(1 << 40)]), Ok(1 << 40));
    assert_eq!(String::build(&vec![Value::Text("x".to_string())]), Ok("x".to_string()));
    assert_eq!(
        <Vec<Value> as Queryable>::build(&vec![Value::Null, Value::Bool(true)]),
        Ok(vec![Value::Null, Value::Bool(true)])
    );
    assert!(matches!(bool::build(&vec![]), Err(Error::DecodeError(_))));
    assert!(matches!(bool::build(&vec![Value::Null]), Err(Error::DecodeError(_))));
    assert!(matches!(i32::build(&vec![Value::BigInt(1)]), Err(Error::DecodeError(_))));
    assert!(matches!(i64::build(&vec![Value::Integer(1)]), Err(Error::DecodeError(_))));
    assert!(matches!(
        i64::build(&vec![Value::BigInt(1), Value::BigInt(2)]),
        Err(Error::DecodeError(_))
    ));
    assert!(matches!(String::build(&vec![Value::Bool(true)]), Err(Error::DecodeError(_))));
}

#[test]
fn first_or_not_found_keeps_first() {
    assert_eq!(first_or_not_found(Ok(vec![7, 8, 9])), Ok(7));
    assert_eq!(first_or_not_found(Ok(vec![7])), Ok(7));
    assert_eq!(first_or_not_found::<i32>(Ok(vec![])), Err(Error::NotFound));
    assert_eq!(
        first_or_not_found::<i32>(Err(Error::BackendError("no".to_string()))),
        Err(Error::BackendError("no".to_string()))
    );
}

#[test]
fn optional_turns_not_found_into_absence() {
    assert_eq!(optional::<i32>(Err(Error::NotFound)), Ok(None));
    assert_eq!(optional(Ok(3)), Ok(Some(3)));
    assert_eq!(
        optional::<i32>(Err(Error::DecodeError("bad".to_string()))),
        Err(Error::DecodeError("bad".to_string()))
    );
    let conn = Scripted::with_rows(vec![]);
    let found: QueryResult<User> = users().first(&conn);
    assert_eq!(optional(found), Ok(None));
}
