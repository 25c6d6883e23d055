use diesel::query_builder::as_query::AsQuery;
use diesel::query_builder::fragment::QueryFragment;
use diesel::query_builder::{BuilderState, QueryBuilder};
use diesel::query_source::{Column, Table};
use diesel::types::{SqlType, Value};
use diesel::{delete, Error, QueryResult};
use vstd::prelude::{nat, Seq};

/// A dialect with backticks, question marks, no taste for dots in names,
/// and room for three bound values.
struct Backticks {
    sql: String,
    binds: usize,
}

// The first five items are the ghost half of the contract: they are stated
// to the verifier and never run.
impl QueryBuilder for Backticks {
    fn state(&self) -> BuilderState {
        unreachable!()
    }

    fn quoted_identifier(_name: Seq<char>) -> Seq<char> {
        unreachable!()
    }

    fn accepts_identifier(_name: Seq<char>) -> bool {
        unreachable!()
    }

    fn placeholder(_index: nat) -> Seq<char> {
        unreachable!()
    }

    fn bind_limit() -> nat {
        unreachable!()
    }

    fn fresh() -> Backticks {
        Backticks { sql: String::new(), binds: 0 }
    }

    fn push_sql(&mut self, sql: &str) {
        self.sql.push_str(sql);
    }

    fn push_identifier(&mut self, identifier: &str) -> QueryResult<()> {
        if identifier.contains('.') {
            return Err(Error::RenderError(format!("cannot quote {}", identifier)));
        }
        self.sql.push('`');
        self.sql.push_str(&identifier.replace('`', "``"));
        self.sql.push('`');
        Ok(())
    }

    fn has_room(&self) -> bool {
        self.binds < 3
    }

    fn push_bind_param(&mut self) {
        self.binds += 1;
        self.sql.push('?');
    }

    fn finish(self) -> String {
        self.sql
    }
}

fn table(name: &str) -> Table {
    Table::new(name.to_string(), vec![Column { name: "id".to_string(), sql_type: SqlType::Integer }])
}

fn id_is(id: i32) -> Vec<QueryFragment> {
    vec![
        QueryFragment::Identifier("id".to_string()),
        QueryFragment::RawSql(" = ".to_string()),
        QueryFragment::Bind(Value::Integer(id)),
    ]
}

#[test]
fn statements_render_in_another_dialect() {
    let statement = delete(table("us`ers").filter(id_is(1))).as_query();
    let mut builder = Backticks::fresh();
    assert_eq!(statement.to_sql(&mut builder), Ok(()));
    assert_eq!(builder.binds, 1);
    assert_eq!(builder.finish(), "DELETE FROM `us``ers` WHERE `id` = ?");
}

#[test]
fn identifier_a_dialect_refuses_is_a_render_error() {
    let statement = delete(table("public.users").filter(id_is(1))).as_query();
    let mut builder = Backticks::fresh();
    assert_eq!(
        statement.to_sql(&mut builder),
        Err(Error::RenderError("cannot quote public.users".to_string()))
    );
}

#[test]
fn more_values_than_a_dialect_can_number_is_a_render_error() {
    let three = QueryFragment::Select(diesel::query_builder::select_statement::SelectStatement {
        select: None,
        from: Some(table("t")),
        where_clause: Some(id_is(1)),
        order: None,
        limit: Some(Value::BigInt(10)),
        offset: Some(Value::BigInt(20)),
    });
    let mut builder = Backticks::fresh();
    assert_eq!(three.to_sql(&mut builder), Ok(()));
    assert_eq!(builder.finish(), "SELECT `t`.`id` FROM `t` WHERE `id` = ? LIMIT ? OFFSET ?");

    let mut used = Backticks::fresh();
    used.push_bind_param();
    assert!(matches!(three.to_sql(&mut used), Err(Error::RenderError(_))));
    assert!(matches!(diesel::query_dsl::load_dsl::prepare::<Backticks>(&three), Ok(_)));

    let four = delete(table("t").filter(vec![
        QueryFragment::Bind(Value::Null),
        QueryFragment::Bind(Value::Null),
        QueryFragment::Bind(Value::Null),
        QueryFragment::Bind(Value::Null),
    ]))
    .as_query();
    assert!(matches!(
        diesel::query_dsl::load_dsl::prepare::<Backticks>(&four),
        Err(Error::RenderError(_))
    ));
}
