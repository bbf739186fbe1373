//! A read-only SQL view over the kernel's connection-tracking table.
//!
//! The crate has two independent cores, glued together by the shared column
//! catalog in [`utils`]:
//!
//! * a predicate compiler ([`get_filter`], [`parse_filter`]) that turns a
//!   restricted `WHERE` expression into a pair of directional equality
//!   filters, dropping every predicate it cannot push down, and
//! * a row projector ([`utils::project_flow`]) that renders one flow record
//!   as one relational row, null-safe at every nesting level.
//!
//! A compiled filter is advisory: it is an over-approximation of the
//! predicate it came from, so the query engine must still evaluate the full
//! predicate on every row a scan yields.

mod error;
mod expr;
mod filter;
mod ipv4;
mod model;
mod parser;
mod utils;

use vstd::prelude::*;
use vstd::string::StrSliceExecFns;

pub use crate::error::{Error, ParseSqlToFilterError};
pub use crate::expr::{Literal, SqlBinaryOperator, SqlExpr};
pub use crate::filter::{
    lemma_all_match_matches, spec_dir_matches, spec_filter_matches, DirFilter, Filter,
};
pub use crate::ipv4::{parse_ipv4, spec_parse_ipv4, Ipv4Addr};
pub use crate::model::{Flow, IpAddress, IpTuple, ProtoTuple};
pub use crate::parser::spec_parsed;
pub use crate::utils::{
    lemma_column_names_unique, lemma_lookup_own_name, lemma_projection_null_safe,
    lemma_projection_well_typed, project_flow, spec_all_columns, spec_column_name,
    spec_column_tuple, spec_column_value, spec_data_type, spec_lookup_column,
    spec_value_matches_type, Column, ColumnDef, DataType, FieldValue,
};

verus! {

/// One installed constraint of a directional filter.
#[derive(Clone, Copy, Debug, PartialEq, Eq)]
pub enum FieldConstraint {
    Addr(Ipv4Addr),
    Proto(u8),
    Port(u16),
}

/// The address an address-typed constraint takes from a literal: the quoted
/// string's dotted-quad reading, or nothing.
pub open spec fn spec_literal_addr(lit: Literal) -> Option<Ipv4Addr> {
    match lit {
        Literal::SingleQuotedString(s) => spec_parse_ipv4(s@),
        _ => None,
    }
}

/// The 8-bit value a protocol-number constraint takes from a literal.
pub open spec fn spec_literal_u8(lit: Literal) -> Option<u8> {
    match lit {
        Literal::Number { u8_value, .. } => u8_value,
        _ => None,
    }
}

/// The 16-bit value a port constraint takes from a literal.
pub open spec fn spec_literal_u16(lit: Literal) -> Option<u16> {
    match lit {
        Literal::Number { u16_value, .. } => u16_value,
        _ => None,
    }
}

/// The constraint that one `column = literal` equality installs: the named
/// column's filter slot and the literal's value at that slot's type, or
/// `None` when the name is unrecognized, the column has no filter slot (the
/// record identifier), or the literal does not convert.
pub open spec fn spec_eq_assignment(name: Seq<char>, lit: Literal) -> Option<
    (Column, FieldConstraint),
> {
    match spec_lookup_column(name) {
        Some(Column::OrigSrc) => match spec_literal_addr(lit) {
            Some(a) => Some((Column::OrigSrc, FieldConstraint::Addr(a))),
            None => None,
        },
        Some(Column::OrigDst) => match spec_literal_addr(lit) {
            Some(a) => Some((Column::OrigDst, FieldConstraint::Addr(a))),
            None => None,
        },
        Some(Column::OrigProtoNum) => match spec_literal_u8(lit) {
            Some(v) => Some((Column::OrigProtoNum, FieldConstraint::Proto(v))),
            None => None,
        },
        Some(Column::OrigProtoSrcPort) => match spec_literal_u16(lit) {
            Some(v) => Some((Column::OrigProtoSrcPort, FieldConstraint::Port(v))),
            None => None,
        },
        Some(Column::OrigProtoDstPort) => match spec_literal_u16(lit) {
            Some(v) => Some((Column::OrigProtoDstPort, FieldConstraint::Port(v))),
            None => None,
        },
        Some(Column::ReplySrc) => match spec_literal_addr(lit) {
            Some(a) => Some((Column::ReplySrc, FieldConstraint::Addr(a))),
            None => None,
        },
        Some(Column::ReplyDst) => match spec_literal_addr(lit) {
            Some(a) => Some((Column::ReplyDst, FieldConstraint::Addr(a))),
            None => None,
        },
        Some(Column::ReplyProtoNum) => match spec_literal_u8(lit) {
            Some(v) => Some((Column::ReplyProtoNum, FieldConstraint::Proto(v))),
            None => None,
        },
        Some(Column::ReplyProtoSrcPort) => match spec_literal_u16(lit) {
            Some(v) => Some((Column::ReplyProtoSrcPort, FieldConstraint::Port(v))),
            None => None,
        },
        Some(Column::ReplyProtoDstPort) => match spec_literal_u16(lit) {
            Some(v) => Some((Column::ReplyProtoDstPort, FieldConstraint::Port(v))),
            None => None,
        },
        _ => None,
    }
}

/// The filter with the constraint `v` installed in column `c`'s slot.
/// A pair that does not fit together leaves the filter unchanged; the
/// compiler only ever produces fitting pairs.
pub open spec fn spec_set_slot(f: Filter, c: Column, v: FieldConstraint) -> Filter {
    match (c, v) {
        (Column::OrigSrc, FieldConstraint::Addr(a)) => Filter {
            orig: DirFilter { ipv4_src: Some(a), ..f.orig },
            ..f
        },
        (Column::OrigDst, FieldConstraint::Addr(a)) => Filter {
            orig: DirFilter { ipv4_dst: Some(a), ..f.orig },
            ..f
        },
        (Column::OrigProtoNum, FieldConstraint::Proto(v)) => Filter {
            orig: DirFilter { l4_proto: Some(v), ..f.orig },
            ..f
        },
        (Column::OrigProtoSrcPort, FieldConstraint::Port(v)) => Filter {
            orig: DirFilter { l4_src_port: Some(v), ..f.orig },
            ..f
        },
        (Column::OrigProtoDstPort, FieldConstraint::Port(v)) => Filter {
            orig: DirFilter { l4_dst_port: Some(v), ..f.orig },
            ..f
        },
        (Column::ReplySrc, FieldConstraint::Addr(a)) => Filter {
            reply: DirFilter { ipv4_src: Some(a), ..f.reply },
            ..f
        },
        (Column::ReplyDst, FieldConstraint::Addr(a)) => Filter {
            reply: DirFilter { ipv4_dst: Some(a), ..f.reply },
            ..f
        },
        (Column::ReplyProtoNum, FieldConstraint::Proto(v)) => Filter {
            reply: DirFilter { l4_proto: Some(v), ..f.reply },
            ..f
        },
        (Column::ReplyProtoSrcPort, FieldConstraint::Port(v)) => Filter {
            reply: DirFilter { l4_src_port: Some(v), ..f.reply },
            ..f
        },
        (Column::ReplyProtoDstPort, FieldConstraint::Port(v)) => Filter {
            reply: DirFilter { l4_dst_port: Some(v), ..f.reply },
            ..f
        },
        _ => f,
    }
}

/// The constraint installed in column `c`'s filter slot, or `None` when that
/// slot is unconstrained. The record identifier has no slot.
pub open spec fn spec_filter_slot(f: Filter, c: Column) -> Option<FieldConstraint> {
    match c {
        Column::Id => None,
        Column::OrigSrc => match f.orig.ipv4_src {
            Some(a) => Some(FieldConstraint::Addr(a)),
            None => None,
        },
        Column::OrigDst => match f.orig.ipv4_dst {
            Some(a) => Some(FieldConstraint::Addr(a)),
            None => None,
        },
        Column::OrigProtoNum => match f.orig.l4_proto {
            Some(v) => Some(FieldConstraint::Proto(v)),
            None => None,
        },
        Column::OrigProtoSrcPort => match f.orig.l4_src_port {
            Some(v) => Some(FieldConstraint::Port(v)),
            None => None,
        },
        Column::OrigProtoDstPort => match f.orig.l4_dst_port {
            Some(v) => Some(FieldConstraint::Port(v)),
            None => None,
        },
        Column::ReplySrc => match f.reply.ipv4_src {
            Some(a) => Some(FieldConstraint::Addr(a)),
            None => None,
        },
        Column::ReplyDst => match f.reply.ipv4_dst {
            Some(a) => Some(FieldConstraint::Addr(a)),
            None => None,
        },
        Column::ReplyProtoNum => match f.reply.l4_proto {
            Some(v) => Some(FieldConstraint::Proto(v)),
            None => None,
        },
        Column::ReplyProtoSrcPort => match f.reply.l4_src_port {
            Some(v) => Some(FieldConstraint::Port(v)),
            None => None,
        },
        Column::ReplyProtoDstPort => match f.reply.l4_dst_port {
            Some(v) => Some(FieldConstraint::Port(v)),
            None => None,
        },
    }
}

/// What one `column = literal` equality does to the filter under
/// construction: installs its constraint, or changes nothing.
pub open spec fn spec_apply_eq(name: Seq<char>, lit: Literal, f: Filter) -> Filter {
    match spec_eq_assignment(name, lit) {
        Some((c, v)) => spec_set_slot(f, c, v),
        None => f,
    }
}

/// What a whole expression does to the filter under construction: `AND`
/// recurses left then right, a supported equality installs its constraint,
/// and everything else changes nothing.
pub open spec fn spec_apply_expr(e: SqlExpr, f: Filter) -> Filter
    decreases e,
{
    match e {
        SqlExpr::BinaryOp { left, op: SqlBinaryOperator::And, right } => spec_apply_expr(
            *right,
            spec_apply_expr(*left, f),
        ),
        SqlExpr::BinaryOp { left, op: SqlBinaryOperator::Eq, right } => match (*left, *right) {
            (SqlExpr::Identifier(name), SqlExpr::Value(lit)) => spec_apply_eq(name@, lit, f),
            _ => f,
        },
        _ => f,
    }
}

/// The filter an expression compiles to.
pub open spec fn spec_compile(e: SqlExpr) -> Filter {
    spec_apply_expr(e, Filter::spec_all_match())
}

fn apply_eq(name: &String, lit: &Literal, filter: &mut Filter)
    ensures
        *final(filter) == spec_apply_eq(name@, *lit, *old(filter)),
{
    match Column::lookup(name) {
        Some(Column::OrigSrc) => {
            if let Literal::SingleQuotedString(s) = lit {
                if let Some(a) = parse_ipv4(s.as_str()) {
                    filter.orig.ipv4_src = Some(a);
                }
            }
        },
        Some(Column::OrigDst) => {
            if let Literal::SingleQuotedString(s) = lit {
                if let Some(a) = parse_ipv4(s.as_str()) {
                    filter.orig.ipv4_dst = Some(a);
                }
            }
        },
        Some(Column::OrigProtoNum) => {
            if let Literal::Number { u8_value: Some(v), .. } = lit {
                filter.orig.l4_proto = Some(*v);
            }
        },
        Some(Column::OrigProtoSrcPort) => {
            if let Literal::Number { u16_value: Some(v), .. } = lit {
                filter.orig.l4_src_port = Some(*v);
            }
        },
        Some(Column::OrigProtoDstPort) => {
            if let Literal::Number { u16_value: Some(v), .. } = lit {
                filter.orig.l4_dst_port = Some(*v);
            }
        },
        Some(Column::ReplySrc) => {
            if let Literal::SingleQuotedString(s) = lit {
                if let Some(a) = parse_ipv4(s.as_str()) {
                    filter.reply.ipv4_src = Some(a);
                }
            }
        },
        Some(Column::ReplyDst) => {
            if let Literal::SingleQuotedString(s) = lit {
                if let Some(a) = parse_ipv4(s.as_str()) {
                    filter.reply.ipv4_dst = Some(a);
                }
            }
        },
        Some(Column::ReplyProtoNum) => {
            if let Literal::Number { u8_value: Some(v), .. } = lit {
                filter.reply.l4_proto = Some(*v);
            }
        },
        Some(Column::ReplyProtoSrcPort) => {
            if let Literal::Number { u16_value: Some(v), .. } = lit {
                filter.reply.l4_src_port = Some(*v);
            }
        },
        Some(Column::ReplyProtoDstPort) => {
            if let Literal::Number { u16_value: Some(v), .. } = lit {
                filter.reply.l4_dst_port = Some(*v);
            }
        },
        _ => {},
    }
}

fn process(expr: &SqlExpr, filter: &mut Filter)
    ensures
        *final(filter) == spec_apply_expr(*expr, *old(filter)),
    decreases *expr,
{
    match expr {
        SqlExpr::BinaryOp { left, op, right } => match op {
            SqlBinaryOperator::And => {
                process(&**left, filter);
                process(&**right, filter);
            },
            SqlBinaryOperator::Eq => match (&**left, &**right) {
                (SqlExpr::Identifier(name), SqlExpr::Value(lit)) => apply_eq(name, lit, filter),
                _ => {},
            },
            SqlBinaryOperator::Unsupported => {},
        },
        _ => {},
    }
}

/// Compiles a `WHERE` expression into a [`Filter`]. Only `AND` conjunctions
/// of `column = literal` equalities constrain the result; every other
/// predicate shape, unrecognized column name, or ill-typed literal is
/// dropped, leaving its slot unconstrained. Compilation itself never fails.
pub fn get_filter(selection: &SqlExpr) -> (r: Result<Filter, ParseSqlToFilterError>)
    ensures
        r == Ok::<Filter, ParseSqlToFilterError>(spec_compile(*selection)),
{
    let mut filter = Filter::all_match();
    process(selection, &mut filter);
    Ok(filter)
}

/// The column identifiers of the equality conjuncts the compiler drops:
/// each `AND`-reachable `column = literal` leaf that installs no constraint
/// contributes its identifier, in left-to-right order. Unsupported nodes of
/// any other shape are dropped too, but carry no identifier.
pub open spec fn spec_dropped_names(e: SqlExpr) -> Seq<Seq<char>>
    decreases e,
{
    match e {
        SqlExpr::BinaryOp { left, op: SqlBinaryOperator::And, right } => spec_dropped_names(*left)
            + spec_dropped_names(*right),
        SqlExpr::BinaryOp { left, op: SqlBinaryOperator::Eq, right } => match (*left, *right) {
            (SqlExpr::Identifier(name), SqlExpr::Value(lit)) => if spec_eq_assignment(
                name@,
                lit,
            ) is Some {
                Seq::empty()
            } else {
                seq![name@]
            },
            _ => Seq::empty(),
        },
        _ => Seq::empty(),
    }
}

fn has_assignment(name: &String, lit: &Literal) -> (r: bool)
    ensures
        r == (spec_eq_assignment(name@, *lit) is Some),
{
    match Column::lookup(name) {
        Some(Column::OrigSrc) | Some(Column::OrigDst) | Some(Column::ReplySrc) | Some(
            Column::ReplyDst,
        ) => match lit {
            Literal::SingleQuotedString(s) => parse_ipv4(s.as_str()).is_some(),
            _ => false,
        },
        Some(Column::OrigProtoNum) | Some(Column::ReplyProtoNum) => match lit {
            Literal::Number { u8_value, .. } => u8_value.is_some(),
            _ => false,
        },
        Some(Column::OrigProtoSrcPort) | Some(Column::OrigProtoDstPort) | Some(
            Column::ReplyProtoSrcPort,
        ) | Some(Column::ReplyProtoDstPort) => match lit {
            Literal::Number { u16_value, .. } => u16_value.is_some(),
            _ => false,
        },
        _ => false,
    }
}

fn collect_dropped(expr: &SqlExpr, dropped: &mut Vec<String>)
    ensures
        final(dropped)@.len() == old(dropped)@.len() + spec_dropped_names(*expr).len(),
        forall|i: int| 0 <= i < old(dropped)@.len() ==> final(dropped)@[i] == old(dropped)@[i],
        forall|i: int|
            0 <= i < spec_dropped_names(*expr).len() ==> final(dropped)@[old(dropped)@.len() + i]@
                == spec_dropped_names(*expr)[i],
    decreases *expr,
{
    match expr {
        SqlExpr::BinaryOp { left, op, right } => match op {
            SqlBinaryOperator::And => {
                collect_dropped(&**left, dropped);
                collect_dropped(&**right, dropped);
            },
            SqlBinaryOperator::Eq => match (&**left, &**right) {
                (SqlExpr::Identifier(name), SqlExpr::Value(lit)) => {
                    if !has_assignment(name, lit) {
                        dropped.push(name.clone());
                    }
                },
                _ => {},
            },
            SqlBinaryOperator::Unsupported => {},
        },
        _ => {},
    }
}

/// Compiles as [`get_filter`] does and also reports, in order, the column
/// identifiers of the `column = literal` conjuncts that were dropped — an
/// unrecognized or unfilterable column, or a literal of the wrong type or
/// range — so that a caller can log each dropped predicate.
pub fn get_filter_with_dropped(selection: &SqlExpr) -> (r: (
    Result<Filter, ParseSqlToFilterError>,
    Vec<String>,
))
    ensures
        r.0 == Ok::<Filter, ParseSqlToFilterError>(spec_compile(*selection)),
        r.1@.len() == spec_dropped_names(*selection).len(),
        forall|i: int|
            0 <= i < spec_dropped_names(*selection).len() ==> r.1@[i]@ == spec_dropped_names(
                *selection,
            )[i],
{
    let mut filter = Filter::all_match();
    process(selection, &mut filter);
    let mut dropped: Vec<String> = Vec::new();
    collect_dropped(selection, &mut dropped);
    (Ok(filter), dropped)
}

/// A whitespace character, as the Unicode `White_Space` property defines it.
pub open spec fn is_ws_char(c: char) -> bool {
    ||| c == ' '
    ||| c == '\t'
    ||| c == '\n'
    ||| c == '\r'
    ||| c == '\u{b}'
    ||| c == '\u{c}'
    ||| c == '\u{85}'
    ||| c == '\u{a0}'
    ||| c == '\u{1680}'
    ||| (0x2000 <= c as int <= 0x200a)
    ||| c == '\u{2028}'
    ||| c == '\u{2029}'
    ||| c == '\u{202f}'
    ||| c == '\u{205f}'
    ||| c == '\u{3000}'
}

/// The index of the first non-whitespace character at or after `i`, or the
/// length when there is none.
pub open spec fn ws_prefix_end(s: Seq<char>, i: int) -> int
    decreases s.len() - i,
{
    if 0 <= i < s.len() {
        if is_ws_char(s[i]) {
            ws_prefix_end(s, i + 1)
        } else {
            i
        }
    } else {
        s.len() as int
    }
}

/// The index just past the last non-whitespace character strictly before
/// `i`, or zero when there is none.
pub open spec fn ws_suffix_start(s: Seq<char>, i: int) -> int
    decreases i,
{
    if 0 < i <= s.len() {
        if is_ws_char(s[i - 1]) {
            ws_suffix_start(s, i - 1)
        } else {
            i
        }
    } else {
        0
    }
}

/// The text with leading and trailing whitespace removed.
pub open spec fn spec_trim(s: Seq<char>) -> Seq<char> {
    let lo = ws_prefix_end(s, 0);
    let hi = ws_suffix_start(s, s.len() as int);
    if lo <= hi {
        s.subrange(lo, hi)
    } else {
        Seq::empty()
    }
}

fn is_ws(c: char) -> (r: bool)
    ensures
        r == is_ws_char(c),
{
    let code: u32 = c as u32;
    c == ' ' || c == '\t' || c == '\n' || c == '\r' || c == '\u{b}' || c == '\u{c}' || c
        == '\u{85}' || c == '\u{a0}' || c == '\u{1680}' || (0x2000 <= code && code <= 0x200a) || c
        == '\u{2028}' || c == '\u{2029}' || c == '\u{202f}' || c == '\u{205f}' || c == '\u{3000}'
}

fn ws_at(s: &str, i: usize) -> (r: bool)
    requires
        i < s@.len(),
    ensures
        r == is_ws_char(s@[i as int]),
{
    is_ws(s.get_char(i))
}

fn trim_ws<'a>(s: &'a str) -> (r: &'a str)
    ensures
        r@ == spec_trim(s@),
{
    let n: usize = s.unicode_len();
    let mut lo: usize = 0;
    while lo < n && ws_at(s, lo)
        invariant
            lo <= n,
            n == s@.len(),
            forall|j: int| 0 <= j < lo ==> is_ws_char(s@[j]),
        decreases n - lo,
    {
        lo = lo + 1;
    }
    proof {
        lemma_ws_prefix(s@, 0, lo as int);
    }
    let mut hi: usize = n;
    while hi > lo && ws_at(s, hi - 1)
        invariant
            lo <= hi <= n,
            n == s@.len(),
            forall|j: int| hi <= j < n ==> is_ws_char(s@[j]),
        decreases hi,
    {
        hi = hi - 1;
    }
    let r = s.substring_char(lo, hi);
    proof {
        if lo < n {
            assert(!is_ws_char(s@[lo as int]));
            assert(hi > lo);
            lemma_ws_suffix(s@, hi as int, n as int);
            assert(r@ =~= spec_trim(s@));
        } else {
            lemma_ws_suffix_all(s@, n as int);
            assert(r@ =~= spec_trim(s@));
        }
    }
    r
}

proof fn lemma_ws_prefix(s: Seq<char>, i: int, k: int)
    requires
        0 <= i <= k <= s.len(),
        forall|j: int| i <= j < k ==> is_ws_char(s[j]),
        k == s.len() || !is_ws_char(s[k]),
    ensures
        ws_prefix_end(s, i) == k,
    decreases k - i,
{
    if i < k {
        lemma_ws_prefix(s, i + 1, k);
    }
}

proof fn lemma_ws_suffix(s: Seq<char>, k: int, i: int)
    requires
        0 <= k <= i <= s.len(),
        forall|j: int| k <= j < i ==> is_ws_char(s[j]),
        k == 0 || !is_ws_char(s[k - 1]),
    ensures
        ws_suffix_start(s, i) == k,
    decreases i - k,
{
    if k < i {
        lemma_ws_suffix(s, k, i - 1);
    }
}

proof fn lemma_ws_suffix_all(s: Seq<char>, i: int)
    requires
        0 <= i <= s.len(),
        forall|j: int| 0 <= j < i ==> is_ws_char(s[j]),
    ensures
        ws_suffix_start(s, i) == 0,
    decreases i,
{
    if 0 < i {
        lemma_ws_suffix_all(s, i - 1);
    }
}

/// Compiles predicate text into a [`Filter`]. Text that is empty or all
/// whitespace compiles to the all-match filter; text the SQL parser rejects
/// is a hard [`ParseSqlToFilterError::Parser`] error and no filter is
/// returned; any other text compiles, through [`get_filter`], to exactly the
/// filter of the expression the parser read ([`spec_parsed`]) — never a
/// partially-built filter.
pub fn parse_filter(sql: &str) -> (r: Result<Filter, ParseSqlToFilterError>)
    ensures
        spec_trim(sql@).len() == 0 ==> r == Ok::<Filter, ParseSqlToFilterError>(
            Filter::spec_all_match(),
        ),
        spec_trim(sql@).len() != 0 ==> (match spec_parsed(spec_trim(sql@)) {
            Some(e) => r == Ok::<Filter, ParseSqlToFilterError>(spec_compile(e)),
            None => r matches Err(err) && err matches ParseSqlToFilterError::Parser(_),
        }),
        r matches Err(e) ==> e matches ParseSqlToFilterError::Parser(_),
{
    let trimmed = trim_ws(sql);
    if trimmed.is_empty() {
        return Ok(Filter::all_match());
    }
    match parser::parse_expression(trimmed) {
        Err(msg) => Err(ParseSqlToFilterError::Parser(msg)),
        Ok(expression) => get_filter(&expression),
    }
}

/// The constraint a lone leaf installs, if it is a supported equality.
pub open spec fn spec_leaf_assignment(e: SqlExpr) -> Option<(Column, FieldConstraint)> {
    match e {
        SqlExpr::BinaryOp { left, op: SqlBinaryOperator::Eq, right } => match (*left, *right) {
            (SqlExpr::Identifier(name), SqlExpr::Value(lit)) => spec_eq_assignment(name@, lit),
            _ => None,
        },
        _ => None,
    }
}

/// A pure conjunction of supported equalities: `AND` nodes over
/// `column = literal` leaves whose column is recognized and filterable and
/// whose literal converts to the column's type.
pub open spec fn spec_supported_conjunction(e: SqlExpr) -> bool
    decreases e,
{
    match e {
        SqlExpr::BinaryOp { left, op: SqlBinaryOperator::And, right } => {
            spec_supported_conjunction(*left) && spec_supported_conjunction(*right)
        },
        _ => spec_leaf_assignment(e) is Some,
    }
}

/// The constraint an expression supplies for column `c`'s slot, the
/// rightmost equality winning where the column repeats.
pub open spec fn spec_find_assignment(e: SqlExpr, c: Column) -> Option<FieldConstraint>
    decreases e,
{
    match e {
        SqlExpr::BinaryOp { left, op: SqlBinaryOperator::And, right } => match spec_find_assignment(
            *right,
            c,
        ) {
            Some(v) => Some(v),
            None => spec_find_assignment(*left, c),
        },
        _ => match spec_leaf_assignment(e) {
            Some((c2, v)) => if c2 == c {
                Some(v)
            } else {
                None
            },
            None => None,
        },
    }
}

/// The set of columns an expression's supported equalities constrain.
pub open spec fn spec_assigned_columns(e: SqlExpr) -> Set<Column>
    decreases e,
{
    match e {
        SqlExpr::BinaryOp { left, op: SqlBinaryOperator::And, right } => spec_assigned_columns(
            *left,
        ).union(spec_assigned_columns(*right)),
        _ => match spec_leaf_assignment(e) {
            Some((c, v)) => Set::empty().insert(c),
            None => Set::empty(),
        },
    }
}

/// A constraint of the kind column `c`'s slot holds.
pub open spec fn spec_constraint_fits(c: Column, v: FieldConstraint) -> bool {
    match (c, v) {
        (Column::OrigSrc, FieldConstraint::Addr(_)) => true,
        (Column::OrigDst, FieldConstraint::Addr(_)) => true,
        (Column::OrigProtoNum, FieldConstraint::Proto(_)) => true,
        (Column::OrigProtoSrcPort, FieldConstraint::Port(_)) => true,
        (Column::OrigProtoDstPort, FieldConstraint::Port(_)) => true,
        (Column::ReplySrc, FieldConstraint::Addr(_)) => true,
        (Column::ReplyDst, FieldConstraint::Addr(_)) => true,
        (Column::ReplyProtoNum, FieldConstraint::Proto(_)) => true,
        (Column::ReplyProtoSrcPort, FieldConstraint::Port(_)) => true,
        (Column::ReplyProtoDstPort, FieldConstraint::Port(_)) => true,
        _ => false,
    }
}

proof fn lemma_assignment_fits(name: Seq<char>, lit: Literal)
    ensures
        spec_eq_assignment(name, lit) matches Some((c, v)) ==> spec_constraint_fits(c, v),
{
}

proof fn lemma_set_slot(f: Filter, c: Column, v: FieldConstraint)
    requires
        spec_constraint_fits(c, v),
    ensures
        spec_filter_slot(spec_set_slot(f, c, v), c) == Some(v),
        forall|c2: Column|
            c2 != c ==> #[trigger] spec_filter_slot(spec_set_slot(f, c, v), c2)
                == spec_filter_slot(f, c2),
{
}

/// Compiling installs exactly the supplied constraints: over a pure `AND`
/// conjunction of supported equalities, each slot of the result holds the
/// constraint the conjunction supplies for it, and a slot the conjunction
/// does not touch keeps the value it had in the starting filter.
pub proof fn lemma_conjunction_slots(e: SqlExpr, f: Filter, c: Column)
    requires
        spec_supported_conjunction(e),
    ensures
        spec_filter_slot(spec_apply_expr(e, f), c) == (match spec_find_assignment(e, c) {
            Some(v) => Some(v),
            None => spec_filter_slot(f, c),
        }),
    decreases e,
{
    match e {
        SqlExpr::BinaryOp { left, op: SqlBinaryOperator::And, right } => {
            lemma_conjunction_slots(*left, f, c);
            lemma_conjunction_slots(*right, spec_apply_expr(*left, f), c);
        },
        _ => {
            match spec_leaf_assignment(e) {
                Some((c2, v)) => {
                    match e {
                        SqlExpr::BinaryOp { left, op: SqlBinaryOperator::Eq, right } => {
                            match (*left, *right) {
                                (SqlExpr::Identifier(name), SqlExpr::Value(lit)) => {
                                    lemma_assignment_fits(name@, lit);
                                    lemma_set_slot(f, c2, v);
                                },
                                _ => {},
                            }
                        },
                        _ => {},
                    }
                },
                None => {},
            }
        },
    }
}

/// For all pure `AND` conjunctions of supported equalities, compiling from
/// the all-match filter yields exactly the supplied per-slot constraints:
/// the result is a function of what was supplied alone, so any conjunction
/// order of the same equalities gives the same filter.
pub proof fn lemma_supported_conjunction_exact(e: SqlExpr, c: Column)
    requires
        spec_supported_conjunction(e),
    ensures
        spec_filter_slot(spec_compile(e), c) == spec_find_assignment(e, c),
{
    lemma_conjunction_slots(e, Filter::spec_all_match(), c);
}

proof fn lemma_find_assignment_in_columns(e: SqlExpr, c: Column)
    ensures
        spec_find_assignment(e, c) is Some <==> spec_assigned_columns(e).contains(c),
    decreases e,
{
    match e {
        SqlExpr::BinaryOp { left, op: SqlBinaryOperator::And, right } => {
            lemma_find_assignment_in_columns(*left, c);
            lemma_find_assignment_in_columns(*right, c);
        },
        _ => {},
    }
}

proof fn lemma_filter_ext(f1: Filter, f2: Filter)
    requires
        forall|c: Column| #[trigger] spec_filter_slot(f1, c) == spec_filter_slot(f2, c),
    ensures
        f1 == f2,
{
    assert(spec_filter_slot(f1, Column::OrigSrc) == spec_filter_slot(f2, Column::OrigSrc));
    assert(spec_filter_slot(f1, Column::OrigDst) == spec_filter_slot(f2, Column::OrigDst));
    assert(spec_filter_slot(f1, Column::OrigProtoNum) == spec_filter_slot(
        f2,
        Column::OrigProtoNum,
    ));
    assert(spec_filter_slot(f1, Column::OrigProtoSrcPort) == spec_filter_slot(
        f2,
        Column::OrigProtoSrcPort,
    ));
    assert(spec_filter_slot(f1, Column::OrigProtoDstPort) == spec_filter_slot(
        f2,
        Column::OrigProtoDstPort,
    ));
    assert(spec_filter_slot(f1, Column::ReplySrc) == spec_filter_slot(f2, Column::ReplySrc));
    assert(spec_filter_slot(f1, Column::ReplyDst) == spec_filter_slot(f2, Column::ReplyDst));
    assert(spec_filter_slot(f1, Column::ReplyProtoNum) == spec_filter_slot(
        f2,
        Column::ReplyProtoNum,
    ));
    assert(spec_filter_slot(f1, Column::ReplyProtoSrcPort) == spec_filter_slot(
        f2,
        Column::ReplyProtoSrcPort,
    ));
    assert(spec_filter_slot(f1, Column::ReplyProtoDstPort) == spec_filter_slot(
        f2,
        Column::ReplyProtoDstPort,
    ));
}

/// Conjunction order does not matter: two supported conjunctions that
/// constrain disjoint column sets install the same constraints in either
/// order.
pub proof fn lemma_conjunction_order_independent(l: SqlExpr, r: SqlExpr, f: Filter)
    requires
        spec_supported_conjunction(l),
        spec_supported_conjunction(r),
        spec_assigned_columns(l).disjoint(spec_assigned_columns(r)),
    ensures
        spec_apply_expr(r, spec_apply_expr(l, f)) == spec_apply_expr(l, spec_apply_expr(r, f)),
{
    let lr = spec_apply_expr(r, spec_apply_expr(l, f));
    let rl = spec_apply_expr(l, spec_apply_expr(r, f));
    assert forall|c: Column| #[trigger] spec_filter_slot(lr, c) == spec_filter_slot(rl, c) by {
        lemma_conjunction_slots(l, f, c);
        lemma_conjunction_slots(r, spec_apply_expr(l, f), c);
        lemma_conjunction_slots(r, f, c);
        lemma_conjunction_slots(l, spec_apply_expr(r, f), c);
        lemma_find_assignment_in_columns(l, c);
        lemma_find_assignment_in_columns(r, c);
        if spec_assigned_columns(l).contains(c) {
            assert(!spec_assigned_columns(r).contains(c));
        }
    };
    lemma_filter_ext(lr, rl);
}

/// Each column is constrained by at most one equality of the conjunction.
pub open spec fn spec_distinct_columns(e: SqlExpr) -> bool
    decreases e,
{
    match e {
        SqlExpr::BinaryOp { left, op: SqlBinaryOperator::And, right } => {
            &&& spec_distinct_columns(*left)
            &&& spec_distinct_columns(*right)
            &&& spec_assigned_columns(*left).disjoint(spec_assigned_columns(*right))
        },
        _ => true,
    }
}

/// The set of (column, constraint) pairs the conjunction's equalities supply.
pub open spec fn spec_assignments(e: SqlExpr) -> Set<(Column, FieldConstraint)>
    decreases e,
{
    match e {
        SqlExpr::BinaryOp { left, op: SqlBinaryOperator::And, right } => spec_assignments(
            *left,
        ).union(spec_assignments(*right)),
        _ => match spec_leaf_assignment(e) {
            Some(a) => Set::empty().insert(a),
            None => Set::empty(),
        },
    }
}

proof fn lemma_find_assignment_characterized(e: SqlExpr, c: Column, v: FieldConstraint)
    requires
        spec_distinct_columns(e),
    ensures
        spec_find_assignment(e, c) == Some(v) <==> spec_assignments(e).contains((c, v)),
    decreases e,
{
    match e {
        SqlExpr::BinaryOp { left, op: SqlBinaryOperator::And, right } => {
            lemma_find_assignment_characterized(*left, c, v);
            lemma_find_assignment_characterized(*right, c, v);
            lemma_find_assignment_in_columns(*left, c);
            lemma_find_assignment_in_columns(*right, c);
        },
        _ => {},
    }
}

/// Conjunction shape does not matter: two duplicate-free supported
/// conjunctions that supply the same set of (column, value) pairs — the same
/// equalities in any order and under any `AND`-tree association — compile to
/// the same filter, whose slots hold exactly the supplied values.
pub proof fn lemma_conjunction_shape_independent(e1: SqlExpr, e2: SqlExpr)
    requires
        spec_supported_conjunction(e1),
        spec_supported_conjunction(e2),
        spec_distinct_columns(e1),
        spec_distinct_columns(e2),
        spec_assignments(e1) == spec_assignments(e2),
    ensures
        spec_compile(e1) == spec_compile(e2),
{
    assert forall|c: Column| #[trigger] spec_filter_slot(spec_compile(e1), c) == spec_filter_slot(
        spec_compile(e2),
        c,
    ) by {
        lemma_supported_conjunction_exact(e1, c);
        lemma_supported_conjunction_exact(e2, c);
        match spec_find_assignment(e1, c) {
            Some(v) => {
                lemma_find_assignment_characterized(e1, c, v);
                lemma_find_assignment_characterized(e2, c, v);
            },
            None => {
                match spec_find_assignment(e2, c) {
                    Some(v) => {
                        lemma_find_assignment_characterized(e1, c, v);
                        lemma_find_assignment_characterized(e2, c, v);
                    },
                    None => {},
                }
            },
        }
    };
    lemma_filter_ext(spec_compile(e1), spec_compile(e2));
}

/// The field condition that one installed constraint stands for on a flow:
/// the column's directional tuple is present and its field equals the
/// constrained value.
pub open spec fn spec_constraint_holds(c: Column, v: FieldConstraint, flow: Flow) -> bool {
    match spec_column_tuple(c, flow) {
        Some(t) => spec_slot_condition(c, v, t),
        None => false,
    }
}

/// The equality that a slot's constraint demands of its tuple.
pub open spec fn spec_slot_condition(c: Column, v: FieldConstraint, t: IpTuple) -> bool {
    match (c, v) {
        (Column::OrigSrc, FieldConstraint::Addr(a)) => t.src == Some(IpAddress::V4(a)),
        (Column::ReplySrc, FieldConstraint::Addr(a)) => t.src == Some(IpAddress::V4(a)),
        (Column::OrigDst, FieldConstraint::Addr(a)) => t.dst == Some(IpAddress::V4(a)),
        (Column::ReplyDst, FieldConstraint::Addr(a)) => t.dst == Some(IpAddress::V4(a)),
        (Column::OrigProtoNum, FieldConstraint::Proto(p)) => t.proto matches Some(pt)
            && pt.number == Some(p),
        (Column::ReplyProtoNum, FieldConstraint::Proto(p)) => t.proto matches Some(pt)
            && pt.number == Some(p),
        (Column::OrigProtoSrcPort, FieldConstraint::Port(p)) => t.proto matches Some(pt)
            && pt.src_port == Some(p),
        (Column::ReplyProtoSrcPort, FieldConstraint::Port(p)) => t.proto matches Some(pt)
            && pt.src_port == Some(p),
        (Column::OrigProtoDstPort, FieldConstraint::Port(p)) => t.proto matches Some(pt)
            && pt.dst_port == Some(p),
        (Column::ReplyProtoDstPort, FieldConstraint::Port(p)) => t.proto matches Some(pt)
            && pt.dst_port == Some(p),
        _ => true,
    }
}

/// The truth of a predicate on a flow, as far as the compiler understands
/// it: `AND` is conjunction, a supported equality is its field condition,
/// and a predicate the compiler cannot push down counts as true. This is an
/// upper bound on the real predicate's truth, whatever semantics the query
/// engine gives the unsupported parts.
pub open spec fn spec_expr_holds(e: SqlExpr, flow: Flow) -> bool
    decreases e,
{
    match e {
        SqlExpr::BinaryOp { left, op: SqlBinaryOperator::And, right } => spec_expr_holds(
            *left,
            flow,
        ) && spec_expr_holds(*right, flow),
        _ => match spec_leaf_assignment(e) {
            Some((c, v)) => spec_constraint_holds(c, v, flow),
            None => true,
        },
    }
}

proof fn lemma_set_slot_matches(f: Filter, c: Column, v: FieldConstraint, flow: Flow)
    requires
        spec_filter_matches(f, flow),
        spec_constraint_holds(c, v, flow),
    ensures
        spec_filter_matches(spec_set_slot(f, c, v), flow),
{
}

/// The compiled filter over-approximates the predicate: applying any
/// expression to a filter that accepts a flow on which the predicate holds
/// yields a filter that still accepts that flow.
pub proof fn lemma_apply_over_approximates(e: SqlExpr, f: Filter, flow: Flow)
    requires
        spec_expr_holds(e, flow),
        spec_filter_matches(f, flow),
    ensures
        spec_filter_matches(spec_apply_expr(e, f), flow),
    decreases e,
{
    match e {
        SqlExpr::BinaryOp { left, op: SqlBinaryOperator::And, right } => {
            lemma_apply_over_approximates(*left, f, flow);
            lemma_apply_over_approximates(*right, spec_apply_expr(*left, f), flow);
        },
        _ => {
            match spec_leaf_assignment(e) {
                Some((c, v)) => {
                    lemma_set_slot_matches(f, c, v, flow);
                },
                None => {},
            }
        },
    }
}

/// The output guarantee: every flow on which the predicate holds is accepted
/// by the filter it compiles to — the filter is a subset restriction, never
/// an authoritative evaluation, so the engine must still re-check the full
/// predicate.
pub proof fn lemma_compile_over_approximates(e: SqlExpr, flow: Flow)
    requires
        spec_expr_holds(e, flow),
    ensures
        spec_filter_matches(spec_compile(e), flow),
{
    lemma_all_match_matches(flow);
    lemma_apply_over_approximates(e, Filter::spec_all_match(), flow);
}

/// A leaf the compiler does not support — any non-`AND`, non-equality node,
/// an equality over an unrecognized or unfilterable column, or one whose
/// literal does not convert — changes nothing: the filter is only ever made
/// less restrictive by dropping it, and compilation still succeeds.
pub proof fn lemma_unsupported_leaf_ignored(e: SqlExpr, f: Filter)
    requires
        !(e matches SqlExpr::BinaryOp { op: SqlBinaryOperator::And, .. }),
        spec_leaf_assignment(e) is None,
    ensures
        spec_apply_expr(e, f) == f,
{
}

/// Dropping an unsupported conjunct: an `AND` with an unsupported leaf on
/// either side compiles exactly as the other side alone.
pub proof fn lemma_unsupported_conjunct_dropped(l: SqlExpr, u: SqlExpr, f: Filter)
    requires
        !(u matches SqlExpr::BinaryOp { op: SqlBinaryOperator::And, .. }),
        spec_leaf_assignment(u) is None,
    ensures
        spec_apply_expr(u, spec_apply_expr(l, f)) == spec_apply_expr(l, f),
        spec_apply_expr(l, spec_apply_expr(u, f)) == spec_apply_expr(l, f),
{
    lemma_unsupported_leaf_ignored(u, f);
    lemma_unsupported_leaf_ignored(u, spec_apply_expr(l, f));
}

} // verus!
