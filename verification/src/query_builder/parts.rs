//! The flat form of a statement: the leaf pieces in the order they are
//! written, and how a builder turns them into text.

use vstd::prelude::*;
use vstd::string::StringExecFns;
use crate::query_builder::{BuilderState, QueryBuilder};
use crate::result::{Error, QueryResult};
use crate::types::{Value, ValueView, values_view};

verus! {

/// One leaf piece of a statement, as mathematics sees it.
pub enum SqlPart {
    /// Text that is written as it stands: keywords and punctuation.
    Sql(Seq<char>),
    /// A table or column name, to be quoted by the dialect.
    Identifier(Seq<char>),
    /// The position of a bound value, to be written as a placeholder.
    Bind(ValueView),
    /// A position at which the statement cannot be written as SQL.
    Refused,
}

/// One leaf piece of a statement, borrowed from the tree it was read from.
#[derive(Debug)]
pub enum Part<'a> {
    /// Text that is written as it stands: keywords and punctuation.
    Sql(&'a str),
    /// A table or column name, to be quoted by the dialect.
    Identifier(&'a str),
    /// The position of a bound value, to be written as a placeholder.
    Bind(&'a Value),
    /// A position at which the statement cannot be written as SQL, with
    /// the reason.
    Refused(&'static str),
}

impl<'a> View for Part<'a> {
    type V = SqlPart;

    open spec fn view(&self) -> SqlPart {
        match *self {
            Part::Sql(text) => SqlPart::Sql(text@),
            Part::Identifier(name) => SqlPart::Identifier(name@),
            Part::Bind(value) => SqlPart::Bind(value@),
            Part::Refused(_) => SqlPart::Refused,
        }
    }
}

/// The views of `parts`, in order.
pub open spec fn parts_view(parts: Seq<Part>) -> Seq<SqlPart> {
    parts.map_values(|p: Part| p@)
}

/// The state a builder of dialect `B` reaches from `state` by writing
/// `parts` from left to right, or `None` where a part cannot be written:
/// a refused position, an identifier the dialect does not take, or a
/// bound value beyond the last the dialect can number.
///
/// A bound value adds a placeholder and nothing else: the value itself
/// never reaches the text.
pub open spec fn render<B: QueryBuilder>(state: BuilderState, parts: Seq<SqlPart>) -> Option<
    BuilderState,
>
    decreases parts.len(),
{
    if parts.len() == 0 {
        Some(state)
    } else {
        match render::<B>(state, parts.drop_last()) {
            None => None,
            Some(before) => match parts.last() {
                SqlPart::Sql(text) => Some(before.push_sql(text)),
                SqlPart::Identifier(name) => if B::accepts_identifier(name) {
                    Some(before.push_sql(B::quoted_identifier(name)))
                } else {
                    None
                },
                SqlPart::Bind(_) => if before.bind_index < B::bind_limit() {
                    Some(before.push_placeholder(B::placeholder(before.bind_index + 1)))
                } else {
                    None
                },
                SqlPart::Refused => None,
            },
        }
    }
}

/// The values bound in `parts`, from left to right.
pub open spec fn bind_values(parts: Seq<SqlPart>) -> Seq<ValueView>
    decreases parts.len(),
{
    if parts.len() == 0 {
        Seq::empty()
    } else {
        match parts.last() {
            SqlPart::Bind(value) => bind_values(parts.drop_last()).push(value),
            _ => bind_values(parts.drop_last()),
        }
    }
}

/// `parts` with every bound value replaced by `Null`: what is left of a
/// statement when its data is taken away.
pub open spec fn without_values(parts: Seq<SqlPart>) -> Seq<SqlPart> {
    parts.map_values(
        |p: SqlPart|
            match p {
                SqlPart::Bind(_) => SqlPart::Bind(ValueView::Null),
                other => other,
            },
    )
}

/// Whether no position in `parts` is refused.
pub open spec fn writable(parts: Seq<SqlPart>) -> bool {
    forall|i: int| 0 <= i < parts.len() ==> !(#[trigger] parts[i] is Refused)
}

/// Whether dialect `B` takes every identifier in `parts`.
pub open spec fn identifiers_accepted<B: QueryBuilder>(parts: Seq<SqlPart>) -> bool {
    forall|i: int|
        0 <= i < parts.len() ==> (#[trigger] parts[i] matches SqlPart::Identifier(name)
            ==> B::accepts_identifier(name))
}

/// A run of parts can be written exactly when none of its positions is
/// refused, the dialect takes every identifier in it, and the dialect can
/// number every value it binds.
pub proof fn lemma_render_succeeds_iff_writable<B: QueryBuilder>(
    state: BuilderState,
    parts: Seq<SqlPart>,
)
    requires
        state.bind_index <= B::bind_limit(),
    ensures
        render::<B>(state, parts) is Some <==> {
            &&& writable(parts)
            &&& identifiers_accepted::<B>(parts)
            &&& state.bind_index + bind_values(parts).len() <= B::bind_limit()
        },
    decreases parts.len(),
{
    if parts.len() > 0 {
        let front = parts.drop_last();
        lemma_render_succeeds_iff_writable::<B>(state, front);
        if render::<B>(state, front) is Some {
            lemma_render_counts_binds::<B>(state, front);
        }
        if render::<B>(state, parts) is Some {
            assert forall|i: int| 0 <= i < parts.len() implies !(#[trigger] parts[i] is Refused) by {
                if i < front.len() {
                    assert(front[i] == parts[i]);
                }
            }
            assert forall|i: int| 0 <= i < parts.len() implies (#[trigger] parts[i] matches SqlPart::Identifier(
                name,
            ) ==> B::accepts_identifier(name)) by {
                if i < front.len() {
                    assert(front[i] == parts[i]);
                }
            }
        }
    }
}

/// The bound values of two runs of parts are those of the first, then those
/// of the second.
pub proof fn lemma_bind_values_concat(a: Seq<SqlPart>, b: Seq<SqlPart>)
    ensures
        bind_values(a + b) == bind_values(a) + bind_values(b),
    decreases b.len(),
{
    if b.len() > 0 {
        lemma_bind_values_concat(a, b.drop_last());
        assert((a + b).drop_last() =~= a + b.drop_last());
    }
}

/// Writing two runs of parts is writing the first, then the second from
/// where the first ended.
pub proof fn lemma_render_concat<B: QueryBuilder>(
    state: BuilderState,
    a: Seq<SqlPart>,
    b: Seq<SqlPart>,
)
    ensures
        render::<B>(state, a + b) == match render::<B>(state, a) {
            Some(middle) => render::<B>(middle, b),
            None => None,
        },
    decreases b.len(),
{
    if b.len() > 0 {
        lemma_render_concat::<B>(state, a, b.drop_last());
        assert((a + b).drop_last() =~= a + b.drop_last());
    }
}

/// Every bound value is written as exactly one placeholder: the bind
/// counter grows by the number of values bound in the parts written.
pub proof fn lemma_render_counts_binds<B: QueryBuilder>(state: BuilderState, parts: Seq<SqlPart>)
    requires
        render::<B>(state, parts) is Some,
    ensures
        render::<B>(state, parts)->0.bind_index == state.bind_index + bind_values(parts).len(),
    decreases parts.len(),
{
    if parts.len() > 0 {
        lemma_render_counts_binds::<B>(state, parts.drop_last());
    }
}

/// No bound value reaches the text: two statements that differ only in
/// the values they bind are written as the same SQL.
pub proof fn lemma_render_ignores_values<B: QueryBuilder>(
    state: BuilderState,
    parts: Seq<SqlPart>,
)
    ensures
        render::<B>(state, without_values(parts)) == render::<B>(state, parts),
    decreases parts.len(),
{
    if parts.len() > 0 {
        lemma_render_ignores_values::<B>(state, parts.drop_last());
        assert(without_values(parts).drop_last() =~= without_values(parts.drop_last()));
    }
}

/// Placeholders and values line up: where a bound value is written, it is
/// found in the parameter list at the index that its placeholder carries,
/// counted from 1 after the placeholders the builder held before.
pub proof fn lemma_placeholder_matches_value<B: QueryBuilder>(
    state: BuilderState,
    before: Seq<SqlPart>,
    value: ValueView,
    after: Seq<SqlPart>,
)
    requires
        render::<B>(state, before + seq![SqlPart::Bind(value)]) is Some,
    ensures
        ({
            let parts = before + seq![SqlPart::Bind(value)] + after;
            let at = render::<B>(state, before)->0;
            let index: nat = bind_values(before).len();
            &&& at.bind_index == state.bind_index + index
            &&& index < bind_values(parts).len()
            &&& bind_values(parts)[index as int] == value
            &&& render::<B>(state, before + seq![SqlPart::Bind(value)]) == Some(
                at.push_placeholder(B::placeholder(state.bind_index + index + 1)),
            )
        }),
{
    let bound = seq![SqlPart::Bind(value)];
    assert((before + bound).drop_last() =~= before);
    lemma_render_counts_binds::<B>(state, before);
    lemma_bind_values_concat(before + bound, after);
}

/// Writes `parts` into `out` from left to right and stops at the first
/// part that cannot be written.
pub fn render_parts<'a, B: QueryBuilder>(parts: &Vec<Part<'a>>, out: &mut B) -> (r: QueryResult<()>)
    ensures
        r is Ok <==> render::<B>(old(out).state(), parts_view(parts@)) is Some,
        r is Ok ==> render::<B>(old(out).state(), parts_view(parts@)) == Some(final(out).state()),
        r is Err ==> r matches Err(Error::RenderError(_)),
{
    let ghost all = parts_view(parts@);
    let ghost start = out.state();
    let mut i: usize = 0;
    while i < parts.len()
        invariant
            i <= parts.len(),
            all == parts_view(parts@),
            start == old(out).state(),
            render::<B>(start, all.take(i as int)) == Some(out.state()),
        decreases parts.len() - i,
    {
        proof {
            assert(all.take(i + 1).drop_last() =~= all.take(i as int));
        }
        match &parts[i] {
            Part::Sql(text) => {
                out.push_sql(text);
            },
            Part::Identifier(name) => {
                match out.push_identifier(name) {
                    Ok(()) => {},
                    Err(e) => {
                        proof {
                            lemma_render_refused_stays_refused::<B>(start, all, i + 1);
                        }
                        return Err(e);
                    },
                }
            },
            Part::Bind(_) => {
                if out.has_room() {
                    out.push_bind_param();
                } else {
                    proof {
                        lemma_render_refused_stays_refused::<B>(start, all, i + 1);
                    }
                    return Err(
                        Error::RenderError(
                            String::from_str("more values are bound than can be numbered"),
                        ),
                    );
                }
            },
            Part::Refused(reason) => {
                proof {
                    lemma_render_refused_stays_refused::<B>(start, all, i + 1);
                }
                return Err(Error::RenderError(String::from_str(reason)));
            },
        }
        i += 1;
    }
    proof {
        assert(all.take(parts.len() as int) =~= all);
    }
    Ok(())
}

/// Once a prefix of the parts cannot be written, neither can the whole.
proof fn lemma_render_refused_stays_refused<B: QueryBuilder>(
    state: BuilderState,
    parts: Seq<SqlPart>,
    upto: int,
)
    requires
        0 <= upto <= parts.len(),
        render::<B>(state, parts.take(upto)) is None,
    ensures
        render::<B>(state, parts) is None,
{
    assert(parts =~= parts.take(upto) + parts.skip(upto));
    lemma_render_concat::<B>(state, parts.take(upto), parts.skip(upto));
}

/// The values bound in `parts`, copied out from left to right: the
/// parameter list that travels beside the text.
pub fn collect_binds<'a>(parts: &Vec<Part<'a>>) -> (binds: Vec<Value>)
    ensures
        values_view(binds@) == bind_values(parts_view(parts@)),
{
    let ghost all = parts_view(parts@);
    let mut binds: Vec<Value> = Vec::new();
    let mut i: usize = 0;
    while i < parts.len()
        invariant
            i <= parts.len(),
            all == parts_view(parts@),
            values_view(binds@) == bind_values(all.take(i as int)),
        decreases parts.len() - i,
    {
        proof {
            assert(all.take(i + 1).drop_last() =~= all.take(i as int));
        }
        match &parts[i] {
            Part::Bind(value) => {
                binds.push((*value).clone());
            },
            _ => {},
        }
        i += 1;
    }
    proof {
        assert(all.take(parts.len() as int) =~= all);
    }
    binds
}

} // verus!
