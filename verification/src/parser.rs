//! The trusted boundary to the SQL parser.
//!
//! The surrounding query engine hands predicates over as `sqlparser`
//! expression trees (through gluesql's re-export). Nothing is proved about
//! that crate: the functions here only call it and translate its tree, node
//! by node, into the library's own [`SqlExpr`], which the verified compiler
//! consumes. Every shape the compiler does not distinguish collapses to an
//! unsupported node, which compiles to no constraint.

use vstd::prelude::*;

use crate::expr::{Literal, SqlBinaryOperator, SqlExpr};

verus! {

#[verifier::external_type_specification]
#[verifier::external_body]
pub struct ExSqlExpr(gluesql::core::sqlparser::ast::Expr);

#[verifier::external_type_specification]
#[verifier::external_body]
pub struct ExSqlBinaryOperator(gluesql::core::sqlparser::ast::BinaryOperator);

#[verifier::external_type_specification]
#[verifier::external_body]
pub struct ExSqlValue(gluesql::core::sqlparser::ast::Value);

/// The expression that predicate text parses as, in the library's own form,
/// or `None` when the SQL parser rejects the text. The parser is
/// deterministic, so its outcome is a function of the text alone.
pub uninterp spec fn spec_parsed(s: Seq<char>) -> Option<SqlExpr>;

/// Relies on sqlparser's `Parser` (gluesql's bundled SQL parser):
/// `try_with_sql` tokenizes the text and `parse_expr` reads one expression
/// from it, deterministically — `spec_parsed` names that outcome. On success
/// the tree converts node by node through `convert_expr`; on failure the
/// parser's message is the error.
#[verifier::external_body]
pub(crate) fn parse_expression(sql: &str) -> (r: Result<SqlExpr, String>)
    ensures
        r matches Ok(e) ==> spec_parsed(sql@) == Some(e),
        r is Err ==> spec_parsed(sql@) is None,
{
    let parser = gluesql::core::sqlparser::parser::Parser::new(
        &gluesql::core::sqlparser::dialect::GenericDialect,
    );
    match parser.try_with_sql(sql) {
        Ok(mut p) => match p.parse_expr() {
            Ok(e) => Ok(convert_expr(&e)),
            Err(e) => Err(e.to_string()),
        },
        Err(e) => Err(e.to_string()),
    }
}

/// Relies only on the shape of sqlparser's `Expr`: each arm moves one node's
/// fields into the library's own tree, and every other node becomes an
/// unsupported leaf.
#[verifier::external_body]
pub(crate) fn convert_expr(e: &gluesql::core::sqlparser::ast::Expr) -> SqlExpr {
    match e {
        gluesql::core::sqlparser::ast::Expr::BinaryOp { left, op, right } => SqlExpr::BinaryOp {
            left: Box::new(convert_expr(left)),
            op: convert_op(op),
            right: Box::new(convert_expr(right)),
        },
        gluesql::core::sqlparser::ast::Expr::Identifier(ident) => SqlExpr::Identifier(
            ident.value.clone(),
        ),
        gluesql::core::sqlparser::ast::Expr::Value(value) => SqlExpr::Value(convert_value(value)),
        _ => SqlExpr::Unsupported,
    }
}

/// Relies only on the shape of sqlparser's `BinaryOperator`: `AND` and `=`
/// carry over; every other operator becomes unsupported.
#[verifier::external_body]
pub(crate) fn convert_op(op: &gluesql::core::sqlparser::ast::BinaryOperator) -> SqlBinaryOperator {
    match op {
        gluesql::core::sqlparser::ast::BinaryOperator::And => SqlBinaryOperator::And,
        gluesql::core::sqlparser::ast::BinaryOperator::Eq => SqlBinaryOperator::Eq,
        _ => SqlBinaryOperator::Unsupported,
    }
}

/// Relies on gluesql's `BigDecimalExt`: `to_u8` and `to_u16` return a numeric
/// literal's value exactly when it is an integer representation that fits the
/// width, and `None` otherwise. A quoted string moves over as it is; every
/// other literal becomes unsupported.
#[verifier::external_body]
pub(crate) fn convert_value(value: &gluesql::core::sqlparser::ast::Value) -> Literal {
    match value {
        gluesql::core::sqlparser::ast::Value::SingleQuotedString(s) => Literal::SingleQuotedString(
            s.clone(),
        ),
        gluesql::core::sqlparser::ast::Value::Number(n, _) => Literal::Number {
            u8_value: gluesql::core::data::BigDecimalExt::to_u8(n),
            u16_value: gluesql::core::data::BigDecimalExt::to_u16(n),
        },
        _ => Literal::Unsupported,
    }
}

} // verus!
