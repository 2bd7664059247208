//! A statement for the store, as plain values: its text, the values bound
//! to its placeholders, and what is asked back.

use crate::product::model::Price;
use vstd::prelude::*;

verus! {

/// A value bound to one placeholder of a statement.
#[derive(Debug, Clone, PartialEq, Eq)]
pub enum SqlParam {
    Text(String),
    Integer(i32),
    Unsigned(u32),
    Double(Price),
    NullableText(Option<String>),
}

/// What the store is asked to give back for a statement.
#[derive(Debug, Clone, Copy, PartialEq, Eq, Structural)]
pub enum Fetch {
    /// Every row the statement selects.
    All,
    /// The one row the statement selects; that there is none is a failure of
    /// the store.
    One,
    /// No row: the statement is only carried out.
    Nothing,
}

/// One statement. `params` are bound to the placeholders of `sql` from left
/// to right.
#[derive(Debug, Clone, PartialEq, Eq)]
pub struct Statement {
    pub sql: String,
    pub params: Vec<SqlParam>,
    pub fetch: Fetch,
}

} // verus!
