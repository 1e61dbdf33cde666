//! The mathematical model of the compiler: spec functions that say, for every
//! tree, exactly which SQL text and which ordered bind lists a compile
//! produces, or which structural error it reports. The executable compiler's
//! contracts equate it with these functions.

use vstd::prelude::*;
use crate::operator::{op_binds, op_token, Operator};
use crate::tree::{ChainBuilder, CompileError, Join, JoinStatement, Select, Statement};
use crate::value::{opt_binds, BindValue};

verus! {

/// The result of one nested compile: SQL text and the three bind buckets.
pub struct SpecToSql {
    pub sql: Seq<char>,
    pub binds: Seq<serde_json::Value>,
    pub select_binds: Seq<serde_json::Value>,
    pub join_binds: Seq<serde_json::Value>,
}

/// The comma-separated placeholder list for an `n`-element array operand:
/// `?`, `?,?`, ... (empty for an empty array).
pub open spec fn placeholders(n: nat) -> Seq<char>
    decreases n,
{
    if n == 0 {
        Seq::empty()
    } else if n == 1 {
        "?"@
    } else {
        placeholders((n - 1) as nat) + ",?"@
    }
}

/// The text and binds of a single comparison node, or its shape error:
/// `BETWEEN`/`NOT BETWEEN` demand exactly a two-element array, `IN`/`NOT IN`
/// demand an array; a non-binding operator emits its token alone.
pub open spec fn value_node(
    field: Seq<char>,
    op: Operator,
    val: BindValue,
) -> Result<(Seq<char>, Seq<serde_json::Value>), CompileError> {
    if op == Operator::Between || op == Operator::NotBetween {
        match val {
            BindValue::Array(vs) => if vs@.len() == 2 {
                Ok((field + " "@ + op_token(op) + " ? AND ?"@, vs@))
            } else {
                Err(CompileError::MalformedBetween)
            },
            BindValue::Scalar(_) => Err(CompileError::MalformedBetween),
        }
    } else if !op_binds(op) {
        Ok((field + " "@ + op_token(op), Seq::empty()))
    } else {
        match val {
            BindValue::Array(vs) => Ok(
                (field + " "@ + op_token(op) + " ("@ + placeholders(vs@.len()) + ")"@, vs@),
            ),
            BindValue::Scalar(v) => if op == Operator::In || op == Operator::NotIn {
                Err(CompileError::MalformedIn)
            } else {
                Ok((field + " "@ + op_token(op) + " ?"@, seq![v]))
            },
        }
    }
}

/// The connective written before a node at index `i > 0`: `OR` when the node
/// itself begins a disjunction, nothing when the previous node did (that node
/// already framed the choice), and `AND` otherwise.
pub open spec fn connective(prev: Statement, cur: Statement) -> Seq<char> {
    if cur is OrChain {
        " OR "@
    } else if prev is OrChain {
        Seq::empty()
    } else {
        " AND "@
    }
}

/// The text and main binds one `WHERE`-tree node compiles to, or the first
/// structural error inside it.
pub open spec fn where_node(s: Statement) -> Result<
    (Seq<char>, Seq<serde_json::Value>),
    CompileError,
>
    decreases s,
{
    match s {
        Statement::Value(field, op, val) => value_node(field@, op, val),
        Statement::OrChain(sub) => match where_seq(sub@) {
            Ok(p) => Ok(
                (
                    if sub@.len() > 1 {
                        "("@ + p.0 + ")"@
                    } else {
                        p.0
                    },
                    p.1,
                ),
            ),
            Err(e) => Err(e),
        },
        Statement::SubChain(sub) => match where_seq(sub@) {
            Ok(p) => Ok(("("@ + p.0 + ")"@, p.1)),
            Err(e) => Err(e),
        },
        Statement::Raw(sql, binds) => Ok((sql@, opt_binds(binds))),
    }
}

/// The text and main binds a `WHERE` tree compiles to: each node's text after
/// its connective, each node's binds in node order; the error of the leftmost
/// malformed node, if any.
pub open spec fn where_seq(conds: Seq<Statement>) -> Result<
    (Seq<char>, Seq<serde_json::Value>),
    CompileError,
>
    decreases conds,
{
    if conds.len() == 0 {
        Ok((Seq::empty(), Seq::empty()))
    } else {
        match where_seq(conds.drop_last()) {
            Err(e) => Err(e),
            Ok(p) => match where_node(conds.last()) {
                Err(e) => Err(e),
                Ok(n) => {
                    let conn = if conds.len() == 1 {
                        Seq::<char>::empty()
                    } else {
                        connective(conds[conds.len() - 2], conds.last())
                    };
                    Ok((p.0 + conn + n.0, p.1 + n.1))
                },
            },
        }
    }
}

/// The text and binds of one join-condition node: `a op b` binds nothing,
/// `col op ?` binds its value, an `OR` group is compiled recursively and
/// always parenthesized.
pub open spec fn join_node(j: JoinStatement) -> (Seq<char>, Seq<serde_json::Value>)
    decreases j,
{
    match j {
        JoinStatement::On(a, op, b) => (a@ + " "@ + op@ + " "@ + b@, Seq::empty()),
        JoinStatement::OnVal(col, op, v) => (col@ + " "@ + op@ + " ?"@, seq![v]),
        JoinStatement::OrChain(sub) => {
            let p = join_nodes(sub@);
            ("("@ + p.0 + ")"@, p.1)
        },
    }
}

/// The text and binds of a join-condition list: nodes joined with `AND`,
/// except that an `OR` group takes `OR` as the connective before it.
pub open spec fn join_nodes(js: Seq<JoinStatement>) -> (Seq<char>, Seq<serde_json::Value>)
    decreases js,
{
    if js.len() == 0 {
        (Seq::empty(), Seq::empty())
    } else {
        let p = join_nodes(js.drop_last());
        let n = join_node(js.last());
        let conn = if js.len() == 1 {
            Seq::<char>::empty()
        } else if js.last() is OrChain {
            " OR "@
        } else {
            " AND "@
        };
        (p.0 + conn + n.0, p.1 + n.1)
    }
}

/// The text and binds of one join clause: with `prefix`, the clause header
/// `{join_type} {db.}{table} ON ` precedes the condition list.
pub open spec fn join_clause(db: Option<String>, j: Join, prefix: bool) -> (
    Seq<char>,
    Seq<serde_json::Value>,
) {
    let p = join_nodes(j.statement@);
    if prefix {
        let table = match db {
            Some(d) => d@ + "."@ + j.table@,
            None => j.table@,
        };
        (j.join_type@ + " "@ + table + " ON "@ + p.0, p.1)
    } else {
        p
    }
}

/// The text and binds of a sequence of join clauses, concatenated with a
/// single space.
pub open spec fn join_seq(db: Option<String>, js: Seq<Join>, prefix: bool) -> (
    Seq<char>,
    Seq<serde_json::Value>,
)
    decreases js,
{
    if js.len() == 0 {
        (Seq::empty(), Seq::empty())
    } else {
        let p = join_seq(db, js.drop_last(), prefix);
        let n = join_clause(db, js.last(), prefix);
        let sep = if js.len() == 1 {
            Seq::<char>::empty()
        } else {
            " "@
        };
        (p.0 + sep + n.0, p.1 + n.1)
    }
}

/// A column list joined with `, `.
pub open spec fn columns_text(cols: Seq<String>) -> Seq<char>
    decreases cols,
{
    if cols.len() == 0 {
        Seq::empty()
    } else {
        let sep = if cols.len() == 1 {
            Seq::<char>::empty()
        } else {
            ", "@
        };
        columns_text(cols.drop_last()) + sep + cols.last()@
    }
}

/// The text and select-bucket binds of one selected item. A selected
/// sub-query is compiled by the whole assembler, wrapped in parentheses and
/// aliased; its three buckets merge into the outer select bucket in the order
/// its own text places them: select binds, join binds, main binds.
pub open spec fn select_item(it: Select) -> Result<
    (Seq<char>, Seq<serde_json::Value>),
    CompileError,
>
    decreases it,
{
    match it {
        Select::Columns(cols) => Ok((columns_text(cols@), Seq::empty())),
        Select::Raw(sql, binds) => Ok((sql@, opt_binds(binds))),
        Select::Builder(alias, sub) => match spec_to_sql(sub, false) {
            Ok(t) => Ok(("("@ + t.sql + ") AS "@ + alias@, t.select_binds + t.join_binds + t.binds)),
            Err(e) => Err(e),
        },
    }
}

/// The column-list text and select-bucket binds of a selected-item sequence,
/// joined with `, `; the error of the leftmost malformed item, if any.
pub open spec fn select_seq(items: Seq<Select>) -> Result<
    (Seq<char>, Seq<serde_json::Value>),
    CompileError,
>
    decreases items,
{
    if items.len() == 0 {
        Ok((Seq::empty(), Seq::empty()))
    } else {
        match select_seq(items.drop_last()) {
            Err(e) => Err(e),
            Ok(p) => match select_item(items.last()) {
                Err(e) => Err(e),
                Ok(n) => {
                    let sep = if items.len() == 1 {
                        Seq::<char>::empty()
                    } else {
                        ", "@
                    };
                    Ok((p.0 + sep + n.0, p.1 + n.1))
                },
            },
        }
    }
}

/// The text and main binds the trailing raw clauses append: each preceded by
/// a single space, each bind list in order.
pub open spec fn trailing_raw(raws: Seq<(String, Option<Vec<serde_json::Value>>)>) -> (
    Seq<char>,
    Seq<serde_json::Value>,
)
    decreases raws,
{
    if raws.len() == 0 {
        (Seq::empty(), Seq::empty())
    } else {
        let p = trailing_raw(raws.drop_last());
        (p.0 + " "@ + raws.last().0@, p.1 + opt_binds(raws.last().1))
    }
}

/// The `FROM` clause text: table with optional back-tick-quoted schema prefix
/// and optional alias, exactly as the context supplies them.
pub open spec fn from_text(c: ChainBuilder) -> Seq<char> {
    " FROM "@ + (match c.db {
        Some(d) => d@ + "."@,
        None => Seq::<char>::empty(),
    }) + c.table@ + (match c.as_name {
        Some(n) => " AS "@ + n@,
        None => Seq::<char>::empty(),
    })
}

/// The whole compile. In statement mode the result is the bare `WHERE`
/// fragment with its main binds (select and join buckets empty). Otherwise:
/// optional `SELECT ` prefix, column list (`*` when no item is selected),
/// `FROM`, joins, `WHERE` (omitted when the tree is empty), trailing raw
/// clauses; main binds are the `WHERE` binds then the trailing-raw binds,
/// the other buckets collect as their clauses do.
pub open spec fn spec_to_sql(c: ChainBuilder, is_statement: bool) -> Result<
    SpecToSql,
    CompileError,
>
    decreases c,
{
    match where_seq(c.query.statement@) {
        Err(e) => Err(e),
        Ok(w) => if is_statement {
            Ok(
                SpecToSql {
                    sql: w.0,
                    binds: w.1,
                    select_binds: Seq::empty(),
                    join_binds: Seq::empty(),
                },
            )
        } else {
            match select_seq(c.select@) {
                Err(e) => Err(e),
                Ok(sel) => {
                    let head = if c.is_select_method {
                        "SELECT "@
                    } else {
                        Seq::<char>::empty()
                    };
                    let cols = if c.select@.len() == 0 {
                        "*"@
                    } else {
                        sel.0
                    };
                    let j = if c.query.join@.len() > 0 {
                        let p = join_seq(c.db, c.query.join@, true);
                        (" "@ + p.0, p.1)
                    } else {
                        (Seq::<char>::empty(), Seq::<serde_json::Value>::empty())
                    };
                    let w_text = if w.0.len() > 0 {
                        " WHERE "@ + w.0
                    } else {
                        Seq::<char>::empty()
                    };
                    let r = trailing_raw(c.query.raw@);
                    Ok(
                        SpecToSql {
                            sql: head + cols + from_text(c) + j.0 + w_text + r.0,
                            binds: w.1 + r.1,
                            select_binds: sel.1,
                            join_binds: j.1,
                        },
                    )
                },
            }
        },
    }
}

/// The merged positional bind list a top-level caller executes with: selected
/// sub-query binds first, join binds next, main binds last — the order their
/// placeholders appear in the text.
pub open spec fn merged_binds(t: SpecToSql) -> Seq<serde_json::Value> {
    t.select_binds + t.join_binds + t.binds
}

/// A structural error found while compiling the first `i` nodes of a `WHERE`
/// tree is the error of the whole tree: later nodes cannot unseat it.
pub proof fn lemma_where_seq_err(conds: Seq<Statement>, i: int)
    requires
        0 <= i <= conds.len(),
        where_seq(conds.take(i)) is Err,
    ensures
        where_seq(conds) == where_seq(conds.take(i)),
    decreases conds.len() - i,
{
    if i == conds.len() {
        assert(conds.take(i) =~= conds);
    } else {
        assert(conds.take(i + 1).drop_last() =~= conds.take(i));
        assert(where_seq(conds.take(i + 1)) == where_seq(conds.take(i)));
        lemma_where_seq_err(conds, i + 1);
    }
}

/// A structural error found while compiling the first `i` selected items is
/// the error of the whole select list.
pub proof fn lemma_select_seq_err(items: Seq<Select>, i: int)
    requires
        0 <= i <= items.len(),
        select_seq(items.take(i)) is Err,
    ensures
        select_seq(items) == select_seq(items.take(i)),
    decreases items.len() - i,
{
    if i == items.len() {
        assert(items.take(i) =~= items);
    } else {
        assert(items.take(i + 1).drop_last() =~= items.take(i));
        assert(select_seq(items.take(i + 1)) == select_seq(items.take(i)));
        lemma_select_seq_err(items, i + 1);
    }
}

} // verus!
