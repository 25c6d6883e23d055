//! Building SQL text: the accumulator every dialect provides and the
//! fragments that render themselves into it.

use vstd::prelude::*;
use crate::result::{Error, QueryResult};

pub mod as_query;
pub mod delete_statement;
pub mod fragment;
pub mod functions;
pub mod insert_statement;
pub mod parts;
pub mod select_statement;
pub mod update_statement;

verus! {

/// What a builder has accumulated so far: the SQL text, and how many bind
/// placeholders that text holds.
pub struct BuilderState {
    pub sql: Seq<char>,
    pub bind_index: nat,
}

impl BuilderState {
    /// The state of a builder nothing has been pushed to.
    pub open spec fn fresh() -> BuilderState {
        BuilderState { sql: Seq::empty(), bind_index: 0 }
    }

    /// The state after `text` was appended as it is.
    pub open spec fn push_sql(self, text: Seq<char>) -> BuilderState {
        BuilderState { sql: self.sql + text, bind_index: self.bind_index }
    }

    /// The state after one more bind placeholder, written as `placeholder`,
    /// was appended.
    pub open spec fn push_placeholder(self, placeholder: Seq<char>) -> BuilderState {
        BuilderState { sql: self.sql + placeholder, bind_index: self.bind_index + 1 }
    }
}

/// Accumulates the SQL text of one statement in one dialect.
///
/// A dialect fixes how an identifier is quoted, which identifiers it
/// takes, how the placeholder for the n-th bound value is written, and how
/// many placeholders one statement may hold.
pub trait QueryBuilder: Sized {
    /// The text and the bind counter accumulated so far.
    spec fn state(&self) -> BuilderState;

    /// `name` as this dialect writes it: quoted and escaped.
    spec fn quoted_identifier(name: Seq<char>) -> Seq<char>;

    /// Whether this dialect can quote `name` at all.
    spec fn accepts_identifier(name: Seq<char>) -> bool;

    /// The placeholder for the bound value number `index`, counted from 1.
    spec fn placeholder(index: nat) -> Seq<char>;

    /// The largest number a placeholder can carry.
    spec fn bind_limit() -> nat;

    /// A builder with no text and no placeholders.
    fn fresh() -> (builder: Self)
        ensures
            builder.state() == BuilderState::fresh(),
    ;

    /// Appends `sql` verbatim. Nothing is escaped: this is for syntax, never
    /// for data.
    fn push_sql(&mut self, sql: &str)
        ensures
            final(self).state() == old(self).state().push_sql(sql@),
    ;

    /// Appends `identifier`, quoted and escaped for this dialect, or fails
    /// with a render error where the dialect cannot quote it.
    fn push_identifier(&mut self, identifier: &str) -> (r: QueryResult<()>)
        ensures
            r is Ok <==> Self::accepts_identifier(identifier@),
            r is Ok ==> final(self).state() == old(self).state().push_sql(
                Self::quoted_identifier(identifier@),
            ),
            r is Err ==> r matches Err(Error::RenderError(_)),
    ;

    /// Whether one more placeholder can be numbered.
    fn has_room(&self) -> (room: bool)
        ensures
            room == (self.state().bind_index < Self::bind_limit()),
    ;

    /// Counts one more bound value and appends the placeholder that carries
    /// the new count.
    fn push_bind_param(&mut self)
        requires
            old(self).state().bind_index < Self::bind_limit(),
        ensures
            final(self).state() == old(self).state().push_placeholder(
                Self::placeholder(old(self).state().bind_index + 1),
            ),
    ;

    /// Ends the build and hands out the accumulated text.
    fn finish(self) -> (sql: String)
        ensures
            sql@ == self.state().sql,
    ;
}

/// The state a builder of dialect `B` reaches from `state` by `count`
/// calls of `push_bind_param`, one after the other.
pub open spec fn after_bind_params<B: QueryBuilder>(state: BuilderState, count: nat) -> BuilderState
    decreases count,
{
    if count == 0 {
        state
    } else {
        let before = after_bind_params::<B>(state, (count - 1) as nat);
        before.push_placeholder(B::placeholder(before.bind_index + 1))
    }
}

/// On a fresh builder the n-th call of `push_bind_param` writes the
/// placeholder that carries n, and after `count` calls the bind counter
/// stands at `count`.
pub proof fn lemma_bind_params_count_from_one<B: QueryBuilder>(count: nat)
    ensures
        after_bind_params::<B>(BuilderState::fresh(), count).bind_index == count,
        forall|n: nat|
            1 <= n <= count ==> (#[trigger] after_bind_params::<B>(BuilderState::fresh(), n)).sql
                == after_bind_params::<B>(BuilderState::fresh(), (n - 1) as nat).sql
                + B::placeholder(n),
    decreases count,
{
    if count > 0 {
        lemma_bind_params_count_from_one::<B>((count - 1) as nat);
    }
}

} // verus!
