//! The tree a statement is built as, and how it is read out as a flat
//! run of parts.

use vstd::prelude::*;
use crate::query_builder::QueryBuilder;
use crate::query_builder::delete_statement::DeleteStatement;
use crate::query_builder::insert_statement::InsertStatement;
use crate::query_builder::select_statement::SelectStatement;
use crate::query_builder::update_statement::UpdateStatement;
use crate::query_builder::parts::{
    Part,
    SqlPart,
    bind_values,
    collect_binds,
    parts_view,
    render,
    render_parts,
};
use crate::result::{Error, QueryResult};
use crate::types::{SqlType, Value, values_view};

verus! {

/// A node of a statement. Every node owns its children, so a statement is
/// a tree, and every node can be written as SQL with its bound values
/// beside it.
#[derive(Debug, PartialEq, Eq)]
pub enum QueryFragment {
    /// Text that is written as it stands. It is for syntax, never for data.
    RawSql(String),
    /// A table or column name.
    Identifier(String),
    /// A value, written as a placeholder and handed over beside the text.
    Bind(Value),
    /// A `SELECT` statement.
    Select(SelectStatement),
    /// An `INSERT` statement.
    Insert(InsertStatement),
    /// An `UPDATE` statement.
    Update(UpdateStatement),
    /// A `DELETE` statement.
    Delete(DeleteStatement),
}

/// A run of fragments that stands for one value, together with the SQL
/// type of that value.
#[derive(Debug, PartialEq, Eq)]
pub struct Expression {
    pub fragments: Vec<QueryFragment>,
    pub sql_type: SqlType,
}

/// A column and the value it is given, in an insert or an update.
#[derive(Debug, PartialEq, Eq)]
pub struct Assignment {
    pub column: String,
    pub value: Value,
}

impl QueryFragment {
    /// The leaf pieces this fragment is written as, from left to right.
    pub open spec fn parts(self) -> Seq<SqlPart>
        decreases self,
    {
        match self {
            QueryFragment::RawSql(text) => seq![SqlPart::Sql(text@)],
            QueryFragment::Identifier(name) => seq![SqlPart::Identifier(name@)],
            QueryFragment::Bind(value) => seq![SqlPart::Bind(value@)],
            QueryFragment::Select(statement) => statement.parts(),
            QueryFragment::Insert(statement) => statement.parts(),
            QueryFragment::Update(statement) => statement.parts(),
            QueryFragment::Delete(statement) => statement.parts(),
        }
    }

    /// The SQL types of the columns of the rows this fragment yields when
    /// it is run: none for a fragment that yields no rows.
    pub open spec fn sql_types(self) -> Seq<SqlType> {
        match self {
            QueryFragment::Select(statement) => statement.sql_types(),
            QueryFragment::Insert(statement) => statement.sql_types(),
            QueryFragment::Update(statement) => statement.sql_types(),
            QueryFragment::Delete(statement) => statement.sql_types(),
            _ => Seq::empty(),
        }
    }

    /// Walks this fragment and appends its leaf pieces to `out`.
    pub fn walk<'a>(&'a self, out: &mut Vec<Part<'a>>)
        ensures
            parts_view(final(out)@) == parts_view(old(out)@) + self.parts(),
        decreases self,
    {
        match self {
            QueryFragment::RawSql(text) => {
                out.push(Part::Sql(text.as_str()));
            },
            QueryFragment::Identifier(name) => {
                out.push(Part::Identifier(name.as_str()));
            },
            QueryFragment::Bind(value) => {
                out.push(Part::Bind(value));
            },
            QueryFragment::Select(statement) => {
                statement.walk(out);
            },
            QueryFragment::Insert(statement) => {
                statement.walk(out);
            },
            QueryFragment::Update(statement) => {
                statement.walk(out);
            },
            QueryFragment::Delete(statement) => {
                statement.walk(out);
            },
        }
    }

    /// Writes this fragment into `out`: text and identifiers as the
    /// dialect writes them, a placeholder for every bound value. Fails with
    /// a render error, leaving `out` as far as it got, where the fragment
    /// cannot be written.
    pub fn to_sql<B: QueryBuilder>(&self, out: &mut B) -> (r: QueryResult<()>)
        ensures
            r is Ok <==> render::<B>(old(out).state(), self.parts()) is Some,
            r is Ok ==> render::<B>(old(out).state(), self.parts()) == Some(final(out).state()),
            r is Err ==> r matches Err(Error::RenderError(_)),
    {
        let mut parts: Vec<Part<'_>> = Vec::new();
        self.walk(&mut parts);
        render_parts(&parts, out)
    }

    /// The values this fragment binds, from left to right: the value at
    /// index `i` belongs to the placeholder written `i + 1` places after
    /// the builder's count.
    pub fn collect_binds(&self) -> (binds: Vec<Value>)
        ensures
            values_view(binds@) == bind_values(self.parts()),
    {
        let mut parts: Vec<Part<'_>> = Vec::new();
        self.walk(&mut parts);
        collect_binds(&parts)
    }
}

/// The leaf pieces of `fragments`, one fragment after the other.
pub open spec fn fragments_parts(fragments: Seq<QueryFragment>) -> Seq<SqlPart>
    decreases fragments,
{
    if fragments.len() == 0 {
        Seq::empty()
    } else {
        fragments_parts(fragments.drop_last()) + fragments.last().parts()
    }
}

/// Walks `fragments` in order.
pub(crate) fn walk_fragments<'a>(fragments: &'a Vec<QueryFragment>, out: &mut Vec<Part<'a>>)
    ensures
        parts_view(final(out)@) == parts_view(old(out)@) + fragments_parts(fragments@),
    decreases fragments,
{
    let mut i: usize = 0;
    while i < fragments.len()
        invariant
            i <= fragments.len(),
            parts_view(out@) == parts_view(old(out)@) + fragments_parts(
                fragments@.take(i as int),
            ),
        decreases fragments.len() - i,
    {
        fragments[i].walk(out);
        proof {
            assert(fragments@.take(i + 1).drop_last() =~= fragments@.take(i as int));
        }
        i += 1;
    }
    assert(fragments@.take(fragments.len() as int) =~= fragments@);
}

/// An optional clause: nothing where it is absent, else `keyword` and the
/// clause's fragments. A clause that is present but empty cannot be
/// written.
pub open spec fn clause_parts(keyword: Seq<char>, clause: Option<Vec<QueryFragment>>) -> Seq<
    SqlPart,
>
    decreases clause,
{
    match clause {
        None => Seq::empty(),
        Some(fragments) => if fragments@.len() == 0 {
            seq![SqlPart::Refused]
        } else {
            seq![SqlPart::Sql(keyword)] + fragments_parts(fragments@)
        },
    }
}

/// Walks an optional clause that `keyword` introduces.
pub(crate) fn walk_clause<'a>(
    keyword: &'static str,
    clause: &'a Option<Vec<QueryFragment>>,
    out: &mut Vec<Part<'a>>,
)
    ensures
        parts_view(final(out)@) == parts_view(old(out)@) + clause_parts(keyword@, *clause),
    decreases clause,
{
    match clause {
        None => {},
        Some(fragments) => {
            if fragments.len() == 0 {
                out.push(Part::Refused("a clause without fragments cannot be written"));
            } else {
                out.push(Part::Sql(keyword));
                walk_fragments(fragments, out);
            }
        },
    }
}

impl Expression {
    /// Whether this expression can be selected without a table: none of
    /// its fragments is the name of anything.
    pub open spec fn is_standalone(self) -> bool {
        forall|i: int|
            0 <= i < self.fragments@.len() ==> !(#[trigger] self.fragments@[i] is Identifier)
    }

    /// The leaf pieces this expression is written as.
    pub open spec fn parts(self) -> Seq<SqlPart>
        decreases self,
    {
        fragments_parts(self.fragments@)
    }
}

/// The SQL types of `expressions`, in order.
pub open spec fn expression_types(expressions: Seq<Expression>) -> Seq<SqlType> {
    expressions.map_values(|e: Expression| e.sql_type)
}

/// A list of expressions, separated by commas. An empty list cannot be
/// written.
pub open spec fn expressions_parts(expressions: Seq<Expression>) -> Seq<SqlPart>
    decreases expressions,
{
    if expressions.len() == 0 {
        seq![SqlPart::Refused]
    } else if expressions.len() == 1 {
        expressions.last().parts()
    } else {
        expressions_parts(expressions.drop_last()) + seq![SqlPart::Sql(", "@)]
            + expressions.last().parts()
    }
}

/// Walks a list of expressions.
pub(crate) fn walk_expressions<'a>(expressions: &'a Vec<Expression>, out: &mut Vec<Part<'a>>)
    ensures
        parts_view(final(out)@) == parts_view(old(out)@) + expressions_parts(expressions@),
    decreases expressions,
{
    if expressions.len() == 0 {
        out.push(Part::Refused("a list without expressions cannot be written"));
        return ;
    }
    let mut i: usize = 0;
    while i < expressions.len()
        invariant
            i <= expressions.len(),
            expressions.len() > 0,
            i > 0 ==> parts_view(out@) == parts_view(old(out)@) + expressions_parts(
                expressions@.take(i as int),
            ),
            i == 0 ==> out@ == old(out)@,
        decreases expressions.len() - i,
    {
        let ghost before = parts_view(out@);
        if i > 0 {
            out.push(Part::Sql(", "));
        }
        let ghost separated = parts_view(out@);
        walk_fragments(&expressions[i].fragments, out);
        proof {
            let upto = expressions@.take(i + 1);
            assert(upto.drop_last() =~= expressions@.take(i as int));
            assert(upto.last().parts() == fragments_parts(expressions@[i as int].fragments@));
            if i > 0 {
                assert(separated =~= before + seq![SqlPart::Sql(", "@)]);
            }
        }
        i += 1;
    }
    assert(expressions@.take(expressions.len() as int) =~= expressions@);
}

/// An optional `RETURNING` clause.
pub open spec fn returning_parts(returning: Option<Vec<Expression>>) -> Seq<SqlPart>
    decreases returning,
{
    match returning {
        None => Seq::empty(),
        Some(expressions) => seq![SqlPart::Sql(" RETURNING "@)] + expressions_parts(
            expressions@,
        ),
    }
}

/// The SQL types of the rows a `RETURNING` clause yields.
pub open spec fn returning_types(returning: Option<Vec<Expression>>) -> Seq<SqlType> {
    match returning {
        None => Seq::empty(),
        Some(expressions) => expression_types(expressions@),
    }
}

/// Walks an optional `RETURNING` clause.
pub(crate) fn walk_returning<'a>(returning: &'a Option<Vec<Expression>>, out: &mut Vec<Part<'a>>)
    ensures
        parts_view(final(out)@) == parts_view(old(out)@) + returning_parts(*returning),
    decreases returning,
{
    match returning {
        None => {},
        Some(expressions) => {
            out.push(Part::Sql(" RETURNING "));
            walk_expressions(expressions, out);
        },
    }
}

} // verus!
