//! The predicate compiler's input: a boolean SQL expression tree.
//!
//! Only the shapes the compiler distinguishes are kept apart: binary `AND`
//! and `=` nodes, bare column identifiers, and string or numeric literals.
//! Every other node collapses to an unsupported leaf, which the compiler
//! drops from the filter.

use vstd::prelude::*;

verus! {

/// A literal operand of an equality predicate.
///
/// A numeric literal carries the value it denotes at each width a column may
/// ask for, or `None` where it is not an integer of that width.
#[derive(Clone, Debug, PartialEq, Eq)]
pub enum Literal {
    SingleQuotedString(String),
    Number { u8_value: Option<u8>, u16_value: Option<u16> },
    Unsupported,
}

/// A binary operator; everything but `AND` and `=` is unsupported.
#[derive(Clone, Copy, Debug, PartialEq, Eq)]
pub enum SqlBinaryOperator {
    And,
    Eq,
    Unsupported,
}

/// A boolean expression tree over the virtual table's columns.
#[derive(Debug, PartialEq, Eq)]
pub enum SqlExpr {
    BinaryOp { left: Box<SqlExpr>, op: SqlBinaryOperator, right: Box<SqlExpr> },
    Identifier(String),
    Value(Literal),
    Unsupported,
}

} // verus!
