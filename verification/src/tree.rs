//! The statement tree: the node types of the `WHERE` tree, the join tree, the
//! select list, and the compilation context, together with the compiler's
//! output and error types.

use vstd::prelude::*;
use crate::operator::Operator;
use crate::value::BindValue;

verus! {

/// A node of the `WHERE` tree. A tree is an ordered sequence of these; order
/// is significant (it is also placeholder order).
pub enum Statement {
    /// A single comparison: field, operator, operand.
    Value(String, Operator, BindValue),
    /// Begins a disjunction: connected to its predecessor with `OR`; its text
    /// is parenthesized only when the subtree has more than one condition.
    OrChain(Vec<Statement>),
    /// An always-parenthesized sub-group, connected with `AND`.
    SubChain(Vec<Statement>),
    /// A verbatim SQL fragment with optional bind values, connected with `AND`.
    Raw(String, Option<Vec<serde_json::Value>>),
}

/// A node of a join clause's condition tree.
pub enum JoinStatement {
    /// Column-to-column comparison `a op b`; binds nothing.
    On(String, String, String),
    /// Column-to-bound-value comparison `col op ?`.
    OnVal(String, String, serde_json::Value),
    /// A disjunction: connected with `OR`, always parenthesized.
    OrChain(Vec<JoinStatement>),
}

/// One join clause: keyword (e.g. `JOIN`, `LEFT JOIN`), table, conditions.
pub struct Join {
    pub join_type: String,
    pub table: String,
    pub statement: Vec<JoinStatement>,
}

/// One selected item of the column list.
pub enum Select {
    /// Column names, joined with `, `.
    Columns(Vec<String>),
    /// A verbatim fragment with optional bind values (they join the select
    /// bucket).
    Raw(String, Option<Vec<serde_json::Value>>),
    /// A scalar sub-query selected as a named column: alias and nested query.
    Builder(String, ChainBuilder),
}

/// The query tree: `WHERE` conditions, join clauses, and trailing raw
/// clauses appended after `WHERE` (e.g. `LIMIT ?`).
pub struct QueryBuilder {
    pub statement: Vec<Statement>,
    pub join: Vec<Join>,
    pub raw: Vec<(String, Option<Vec<serde_json::Value>>)>,
}

/// The compilation context: one immutable input of a compile call.
pub struct ChainBuilder {
    pub db: Option<String>,
    pub table: String,
    pub as_name: Option<String>,
    pub select: Vec<Select>,
    pub query: QueryBuilder,
    pub is_select_method: bool,
}

/// The compiler's output: the SQL text and the three order-sensitive bind
/// buckets (main predicate binds, selected-sub-query binds, join binds).
pub struct ToSql {
    pub sql: String,
    pub binds: Option<Vec<serde_json::Value>>,
    pub select_binds: Option<Vec<serde_json::Value>>,
    pub join_binds: Option<Vec<serde_json::Value>>,
}

/// A structural error of the statement tree: the compiler fails fast instead
/// of emitting SQL whose placeholder count would not match its bind list.
#[derive(Clone, Copy, PartialEq, Eq, Structural, Debug)]
pub enum CompileError {
    /// A `BETWEEN`/`NOT BETWEEN` operand that is not exactly a two-element
    /// array.
    MalformedBetween,
    /// An `IN`/`NOT IN` operand that is not an array.
    MalformedIn,
}

} // verus!
