//! SQL types and the values bound to a statement or read from a row.

use vstd::prelude::*;

verus! {

/// The SQL type of one column of a row.
#[derive(Clone, Copy, Debug, PartialEq, Eq, Structural)]
pub enum SqlType {
    Bool,
    Integer,
    BigInt,
    Text,
}

/// A value that travels beside the SQL text: bound to a placeholder on the
/// way in, or held by a row on the way out.
#[derive(Debug, PartialEq, Eq)]
pub enum Value {
    Null,
    Bool(bool),
    Integer(i32),
    BigInt(i64),
    Text(String),
}

/// A `Value` as mathematics sees it.
pub enum ValueView {
    Null,
    Bool(bool),
    Integer(i32),
    BigInt(i64),
    Text(Seq<char>),
}

impl View for Value {
    type V = ValueView;

    open spec fn view(&self) -> ValueView {
        match *self {
            Value::Null => ValueView::Null,
            Value::Bool(b) => ValueView::Bool(b),
            Value::Integer(i) => ValueView::Integer(i),
            Value::BigInt(i) => ValueView::BigInt(i),
            Value::Text(s) => ValueView::Text(s@),
        }
    }
}

impl Clone for Value {
    fn clone(&self) -> (copy: Self)
        ensures
            copy == *self,
    {
        match self {
            Value::Null => Value::Null,
            Value::Bool(b) => Value::Bool(*b),
            Value::Integer(i) => Value::Integer(*i),
            Value::BigInt(i) => Value::BigInt(*i),
            Value::Text(s) => Value::Text(s.clone()),
        }
    }
}

/// The views of `values`, in order.
pub open spec fn values_view(values: Seq<Value>) -> Seq<ValueView> {
    values.map_values(|v: Value| v@)
}

} // verus!
