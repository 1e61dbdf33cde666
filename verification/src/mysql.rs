//! The executable compiler: walks the statement tree, the join tree and the
//! select list, emits the SQL text and collects the bind buckets, exactly as
//! the model in `crate::model` states.

use vstd::prelude::*;
use vstd::string::StringExecFns;
use crate::model::{
    columns_text, from_text, join_node, join_nodes, join_seq, lemma_select_seq_err,
    lemma_where_seq_err, merged_binds, placeholders, select_item, select_seq, spec_to_sql,
    trailing_raw, value_node, where_node, where_seq, SpecToSql,
};
use crate::operator::{operator_to_sql, Operator};
use crate::tree::{ChainBuilder, CompileError, JoinStatement, Select, Statement, ToSql};
use crate::value::{push_values, BindValue};

verus! {

/// Whether a `WHERE`-tree node begins a disjunction.
fn is_or_chain(s: &Statement) -> (r: bool)
    ensures
        r == (*s is OrChain),
{
    match s {
        Statement::OrChain(_) => true,
        _ => false,
    }
}

/// Compiles a single comparison node: the field, the operator's token, and
/// the placeholder shape its operand calls for.
fn value_to_sql(field: &String, op: &Operator, val: &BindValue) -> (r: Result<
    (String, Vec<serde_json::Value>),
    CompileError,
>)
    ensures
        r matches Ok(p) ==> value_node(field@, *op, *val) matches Ok(q) && p.0@ == q.0 && p.1@
            == q.1,
        r matches Err(e) ==> value_node(field@, *op, *val) == Err::<
            (Seq<char>, Seq<serde_json::Value>),
            CompileError,
        >(e),
{
    let mut sql = String::new();
    let mut binds: Vec<serde_json::Value> = Vec::new();
    sql.append(field.as_str());
    sql.append(" ");
    let (tok, is_bind) = operator_to_sql(op);
    if *op == Operator::Between || *op == Operator::NotBetween {
        match val {
            BindValue::Array(vs) => {
                if vs.len() == 2 {
                    sql.append(tok);
                    sql.append(" ? AND ?");
                    push_values(&mut binds, vs);
                } else {
                    return Err(CompileError::MalformedBetween);
                }
            },
            BindValue::Scalar(_) => {
                return Err(CompileError::MalformedBetween);
            },
        }
    } else {
        sql.append(tok);
        if is_bind {
            match val {
                BindValue::Array(vs) => {
                    sql.append(" (");
                    let ghost s0 = sql@;
                    let m = vs.len();
                    let mut k: usize = 0;
                    while k < m
                        invariant
                            m == vs@.len(),
                            k <= m,
                            sql@ == s0 + placeholders(k as nat),
                            binds@ == vs@.take(k as int),
                        decreases m - k,
                    {
                        if k > 0 {
                            sql.append(",?");
                        } else {
                            sql.append("?");
                        }
                        binds.push(vs[k].clone());
                        k = k + 1;
                        proof {
                            assert(vs@.take(k as int) =~= vs@.take(k - 1).push(vs@[k - 1]));
                            assert(sql@ =~= s0 + placeholders(k as nat));
                        }
                    }
                    sql.append(")");
                    proof {
                        assert(vs@.take(m as int) =~= vs@);
                    }
                },
                BindValue::Scalar(v) => {
                    if *op == Operator::In || *op == Operator::NotIn {
                        return Err(CompileError::MalformedIn);
                    }
                    sql.append(" ?");
                    binds.push(v.clone());
                },
            }
        }
    }
    proof {
        assert(value_node(field@, *op, *val) is Ok);
        assert(sql@ =~= value_node(field@, *op, *val)->Ok_0.0);
        assert(binds@ =~= value_node(field@, *op, *val)->Ok_0.1);
    }
    Ok((sql, binds))
}

/// Compiles one `WHERE`-tree node (without its connective), or reports the
/// first structural error inside it.
fn node_to_sql(s: &Statement) -> (r: Result<(String, Vec<serde_json::Value>), CompileError>)
    ensures
        r matches Ok(p) ==> where_node(*s) matches Ok(q) && p.0@ == q.0 && p.1@ == q.1,
        r matches Err(e) ==> where_node(*s) == Err::<
            (Seq<char>, Seq<serde_json::Value>),
            CompileError,
        >(e),
    decreases *s,
{
    match s {
        Statement::Value(field, op, val) => value_to_sql(field, op, val),
        Statement::OrChain(sub) => {
            proof {
                assert(decreases_to!(*sub => sub@));
            }
            match where_to_sql(sub) {
                Ok(p) => {
                    if sub.len() > 1 {
                        let mut sql = String::new();
                        sql.append("(");
                        sql.append(p.0.as_str());
                        sql.append(")");
                        Ok((sql, p.1))
                    } else {
                        Ok(p)
                    }
                },
                Err(e) => Err(e),
            }
        },
        Statement::SubChain(sub) => {
            proof {
                assert(decreases_to!(*sub => sub@));
            }
            match where_to_sql(sub) {
                Ok(p) => {
                    let mut sql = String::new();
                    sql.append("(");
                    sql.append(p.0.as_str());
                    sql.append(")");
                    Ok((sql, p.1))
                },
                Err(e) => Err(e),
            }
        },
        Statement::Raw(rsql, rbinds) => {
            let mut binds: Vec<serde_json::Value> = Vec::new();
            match rbinds {
                Some(b) => push_values(&mut binds, b),
                None => (),
            }
            let mut sql = String::new();
            sql.append(rsql.as_str());
            Ok((sql, binds))
        },
    }
}

/// Compiles a `WHERE` tree into its text and its main bind list, or reports
/// the tree's first structural error.
pub fn where_to_sql(stmts: &Vec<Statement>) -> (r: Result<
    (String, Vec<serde_json::Value>),
    CompileError,
>)
    ensures
        r matches Ok(p) ==> where_seq(stmts@) matches Ok(q) && p.0@ == q.0 && p.1@ == q.1,
        r matches Err(e) ==> where_seq(stmts@) == Err::<
            (Seq<char>, Seq<serde_json::Value>),
            CompileError,
        >(e),
    decreases stmts@,
{
    let mut sql = String::new();
    let mut binds: Vec<serde_json::Value> = Vec::new();
    let n = stmts.len();
    let mut i: usize = 0;
    while i < n
        invariant
            n == stmts@.len(),
            i <= n,
            where_seq(stmts@.take(i as int)) matches Ok(q) && sql@ == q.0 && binds@ == q.1,
        decreases n - i,
    {
        proof {
            assert(stmts@.take(i + 1).drop_last() =~= stmts@.take(i as int));
            assert(stmts@.take(i + 1).last() == stmts@[i as int]);
            assert(decreases_to!(stmts@ => stmts@[i as int]));
        }
        if i > 0 {
            if is_or_chain(&stmts[i]) {
                sql.append(" OR ");
            } else if !is_or_chain(&stmts[i - 1]) {
                sql.append(" AND ");
            }
        }
        match node_to_sql(&stmts[i]) {
            Ok(p) => {
                sql.append(p.0.as_str());
                push_values(&mut binds, &p.1);
            },
            Err(e) => {
                proof {
                    assert(where_seq(stmts@.take(i + 1)) is Err);
                    lemma_where_seq_err(stmts@, i + 1);
                }
                return Err(e);
            },
        }
        proof {
            assert(where_seq(stmts@.take(i + 1)) is Ok);
            assert(sql@ =~= where_seq(stmts@.take(i + 1))->Ok_0.0);
            assert(binds@ =~= where_seq(stmts@.take(i + 1))->Ok_0.1);
        }
        i = i + 1;
    }
    proof {
        assert(stmts@.take(n as int) =~= stmts@);
    }
    Ok((sql, binds))
}

/// Compiles one join-condition node (without its connective).
fn join_node_to_sql(s: &JoinStatement) -> (r: (String, Vec<serde_json::Value>))
    ensures
        r.0@ == join_node(*s).0,
        r.1@ == join_node(*s).1,
    decreases *s,
{
    let mut sql = String::new();
    let mut binds: Vec<serde_json::Value> = Vec::new();
    match s {
        JoinStatement::On(a, op, b) => {
            sql.append(a.as_str());
            sql.append(" ");
            sql.append(op.as_str());
            sql.append(" ");
            sql.append(b.as_str());
        },
        JoinStatement::OnVal(col, op, v) => {
            sql.append(col.as_str());
            sql.append(" ");
            sql.append(op.as_str());
            sql.append(" ?");
            binds.push(v.clone());
        },
        JoinStatement::OrChain(sub) => {
            proof {
                assert(decreases_to!(*sub => sub@));
            }
            let p = join_nodes_to_sql(sub);
            sql.append("(");
            sql.append(p.0.as_str());
            sql.append(")");
            push_values(&mut binds, &p.1);
        },
    }
    proof {
        assert(sql@ =~= join_node(*s).0);
        assert(binds@ =~= join_node(*s).1);
    }
    (sql, binds)
}

/// Whether a join-condition node is an `OR` group.
fn is_join_or_chain(s: &JoinStatement) -> (r: bool)
    ensures
        r == (*s is OrChain),
{
    match s {
        JoinStatement::OrChain(_) => true,
        _ => false,
    }
}

/// Compiles a join-condition list: nodes joined with `AND`, `OR` before an
/// `OR` group.
fn join_nodes_to_sql(stmts: &Vec<JoinStatement>) -> (r: (String, Vec<serde_json::Value>))
    ensures
        r.0@ == join_nodes(stmts@).0,
        r.1@ == join_nodes(stmts@).1,
    decreases stmts@,
{
    let mut sql = String::new();
    let mut binds: Vec<serde_json::Value> = Vec::new();
    let n = stmts.len();
    let mut j: usize = 0;
    while j < n
        invariant
            n == stmts@.len(),
            j <= n,
            sql@ == join_nodes(stmts@.take(j as int)).0,
            binds@ == join_nodes(stmts@.take(j as int)).1,
        decreases n - j,
    {
        proof {
            assert(stmts@.take(j + 1).drop_last() =~= stmts@.take(j as int));
            assert(stmts@.take(j + 1).last() == stmts@[j as int]);
            assert(decreases_to!(stmts@ => stmts@[j as int]));
        }
        if j > 0 {
            if is_join_or_chain(&stmts[j]) {
                sql.append(" OR ");
            } else {
                sql.append(" AND ");
            }
        }
        let p = join_node_to_sql(&stmts[j]);
        sql.append(p.0.as_str());
        push_values(&mut binds, &p.1);
        proof {
            assert(sql@ =~= join_nodes(stmts@.take(j + 1)).0);
            assert(binds@ =~= join_nodes(stmts@.take(j + 1)).1);
        }
        j = j + 1;
    }
    proof {
        assert(stmts@.take(n as int) =~= stmts@);
    }
    (sql, binds)
}

/// Compiles the context's join clauses: with `prefix`, each clause opens with
/// `{join_type} {schema.}{table} ON `; clauses are separated by one space.
pub fn join_to_sql(c: &ChainBuilder, prefix: bool) -> (r: (String, Vec<serde_json::Value>))
    ensures
        r.0@ == join_seq(c.db, c.query.join@, prefix).0,
        r.1@ == join_seq(c.db, c.query.join@, prefix).1,
{
    let mut sql = String::new();
    let mut binds: Vec<serde_json::Value> = Vec::new();
    let n = c.query.join.len();
    let mut i: usize = 0;
    while i < n
        invariant
            n == c.query.join@.len(),
            i <= n,
            sql@ == join_seq(c.db, c.query.join@.take(i as int), prefix).0,
            binds@ == join_seq(c.db, c.query.join@.take(i as int), prefix).1,
        decreases n - i,
    {
        proof {
            assert(c.query.join@.take(i + 1).drop_last() =~= c.query.join@.take(i as int));
            assert(c.query.join@.take(i + 1).last() == c.query.join@[i as int]);
        }
        if i > 0 {
            sql.append(" ");
        }
        let join = &c.query.join[i];
        if prefix {
            sql.append(join.join_type.as_str());
            sql.append(" ");
            match &c.db {
                Some(d) => {
                    sql.append(d.as_str());
                    sql.append(".");
                    sql.append(join.table.as_str());
                },
                None => {
                    sql.append(join.table.as_str());
                },
            }
            sql.append(" ON ");
        }
        let p = join_nodes_to_sql(&join.statement);
        sql.append(p.0.as_str());
        push_values(&mut binds, &p.1);
        proof {
            assert(sql@ =~= join_seq(c.db, c.query.join@.take(i + 1), prefix).0);
            assert(binds@ =~= join_seq(c.db, c.query.join@.take(i + 1), prefix).1);
        }
        i = i + 1;
    }
    proof {
        assert(c.query.join@.take(n as int) =~= c.query.join@);
    }
    (sql, binds)
}

/// Joins a column list with `, `.
fn columns_to_sql(cols: &Vec<String>) -> (r: String)
    ensures
        r@ == columns_text(cols@),
{
    let mut sql = String::new();
    let n = cols.len();
    let mut j: usize = 0;
    while j < n
        invariant
            n == cols@.len(),
            j <= n,
            sql@ == columns_text(cols@.take(j as int)),
        decreases n - j,
    {
        proof {
            assert(cols@.take(j + 1).drop_last() =~= cols@.take(j as int));
            assert(cols@.take(j + 1).last() == cols@[j as int]);
        }
        if j > 0 {
            sql.append(", ");
        }
        sql.append(cols[j].as_str());
        proof {
            assert(sql@ =~= columns_text(cols@.take(j + 1)));
        }
        j = j + 1;
    }
    proof {
        assert(cols@.take(n as int) =~= cols@);
    }
    sql
}

/// Compiles one selected item: a column list, a raw fragment, or a selected
/// sub-query compiled by the whole assembler, parenthesized and aliased.
fn select_item_to_sql(it: &Select) -> (r: Result<(String, Vec<serde_json::Value>), CompileError>)
    ensures
        r matches Ok(p) ==> select_item(*it) matches Ok(q) && p.0@ == q.0 && p.1@ == q.1,
        r matches Err(e) ==> select_item(*it) == Err::<
            (Seq<char>, Seq<serde_json::Value>),
            CompileError,
        >(e),
    decreases *it, 0int,
{
    match it {
        Select::Columns(cols) => Ok((columns_to_sql(cols), Vec::new())),
        Select::Raw(rsql, rbinds) => {
            let mut sql = String::new();
            sql.append(rsql.as_str());
            let mut binds: Vec<serde_json::Value> = Vec::new();
            match rbinds {
                Some(b) => push_values(&mut binds, b),
                None => (),
            }
            Ok((sql, binds))
        },
        Select::Builder(alias, sub) => {
            proof {
                assert(decreases_to!(*it => *sub));
            }
            match to_sql_parts(sub, false) {
                Ok(p) => {
                    let mut sql = String::new();
                    sql.append("(");
                    sql.append(p.0.as_str());
                    sql.append(") AS ");
                    sql.append(alias.as_str());
                    let mut binds = p.2;
                    push_values(&mut binds, &p.3);
                    push_values(&mut binds, &p.1);
                    Ok((sql, binds))
                },
                Err(e) => Err(e),
            }
        },
    }
}

/// Compiles the select list, items joined with `, `, collecting each item's
/// binds into the select bucket.
fn select_to_sql(items: &Vec<Select>) -> (r: Result<
    (String, Vec<serde_json::Value>),
    CompileError,
>)
    ensures
        r matches Ok(p) ==> select_seq(items@) matches Ok(q) && p.0@ == q.0 && p.1@ == q.1,
        r matches Err(e) ==> select_seq(items@) == Err::<
            (Seq<char>, Seq<serde_json::Value>),
            CompileError,
        >(e),
    decreases items@, 1int,
{
    let mut sql = String::new();
    let mut binds: Vec<serde_json::Value> = Vec::new();
    let n = items.len();
    let mut i: usize = 0;
    while i < n
        invariant
            n == items@.len(),
            i <= n,
            select_seq(items@.take(i as int)) matches Ok(q) && sql@ == q.0 && binds@ == q.1,
        decreases n - i,
    {
        proof {
            assert(items@.take(i + 1).drop_last() =~= items@.take(i as int));
            assert(items@.take(i + 1).last() == items@[i as int]);
            assert(decreases_to!(items@ => items@[i as int]));
        }
        if i > 0 {
            sql.append(", ");
        }
        match select_item_to_sql(&items[i]) {
            Ok(p) => {
                sql.append(p.0.as_str());
                push_values(&mut binds, &p.1);
            },
            Err(e) => {
                proof {
                    assert(select_seq(items@.take(i + 1)) is Err);
                    lemma_select_seq_err(items@, i + 1);
                }
                return Err(e);
            },
        }
        proof {
            assert(select_seq(items@.take(i + 1)) is Ok);
            assert(sql@ =~= select_seq(items@.take(i + 1))->Ok_0.0);
            assert(binds@ =~= select_seq(items@.take(i + 1))->Ok_0.1);
        }
        i = i + 1;
    }
    proof {
        assert(items@.take(n as int) =~= items@);
    }
    Ok((sql, binds))
}

/// Compiles the trailing raw clauses: each appended after a single space,
/// each bind list extending the main bucket in order.
fn raws_to_sql(raws: &Vec<(String, Option<Vec<serde_json::Value>>)>) -> (r: (
    String,
    Vec<serde_json::Value>,
))
    ensures
        r.0@ == trailing_raw(raws@).0,
        r.1@ == trailing_raw(raws@).1,
{
    let mut sql = String::new();
    let mut binds: Vec<serde_json::Value> = Vec::new();
    let n = raws.len();
    let mut k: usize = 0;
    while k < n
        invariant
            n == raws@.len(),
            k <= n,
            sql@ == trailing_raw(raws@.take(k as int)).0,
            binds@ == trailing_raw(raws@.take(k as int)).1,
        decreases n - k,
    {
        proof {
            assert(raws@.take(k + 1).drop_last() =~= raws@.take(k as int));
            assert(raws@.take(k + 1).last() == raws@[k as int]);
        }
        let raw = &raws[k];
        sql.append(" ");
        sql.append(raw.0.as_str());
        match &raw.1 {
            Some(b) => push_values(&mut binds, b),
            None => (),
        }
        proof {
            assert(sql@ =~= trailing_raw(raws@.take(k + 1)).0);
            assert(binds@ =~= trailing_raw(raws@.take(k + 1)).1);
        }
        k = k + 1;
    }
    proof {
        assert(raws@.take(n as int) =~= raws@);
    }
    (sql, binds)
}

/// Assembles the full (non-statement) SQL string around an already compiled
/// `WHERE` fragment: select list, `FROM`, joins, `WHERE`, trailing raw
/// clauses.
#[verifier::rlimit(100)]
fn assemble_full(c: &ChainBuilder, statement_sql: String, to_binds: Vec<serde_json::Value>) -> (r:
    Result<
    (String, Vec<serde_json::Value>, Vec<serde_json::Value>, Vec<serde_json::Value>),
    CompileError,
>)
    requires
        where_seq(c.query.statement@) matches Ok(w) && statement_sql@ == w.0 && to_binds@ == w.1,
    ensures
        r matches Ok(p) ==> spec_to_sql(*c, false) matches Ok(s) && p.0@ == s.sql && p.1@ == s.binds
            && p.2@ == s.select_binds && p.3@ == s.join_binds,
        r matches Err(e) ==> spec_to_sql(*c, false) == Err::<SpecToSql, CompileError>(e),
    decreases *c, 0int,
{
    let ghost w = where_seq(c.query.statement@)->Ok_0;
    let mut to_binds = to_binds;
    let mut out = String::new();
    if c.is_select_method {
        out.append("SELECT ");
    }
    let ghost head = out@;
    let mut select_binds: Vec<serde_json::Value> = Vec::new();
    if c.select.len() == 0 {
        out.append("*");
    } else {
        proof {
            assert(decreases_to!(*c => c.select));
            assert(decreases_to!(c.select => c.select@));
        }
        match select_to_sql(&c.select) {
            Ok(p) => {
                out.append(p.0.as_str());
                select_binds = p.1;
            },
            Err(e) => {
                return Err(e);
            },
        }
    }
    let ghost cols_done = out@;
    out.append(" FROM ");
    match &c.db {
        Some(d) => {
            out.append(d.as_str());
            out.append(".");
        },
        None => (),
    }
    out.append(c.table.as_str());
    match &c.as_name {
        Some(nm) => {
            out.append(" AS ");
            out.append(nm.as_str());
        },
        None => (),
    }
    proof {
        assert(out@ =~= cols_done + from_text(*c));
    }
    let ghost from_done = out@;
    let mut join_binds: Vec<serde_json::Value> = Vec::new();
    if c.query.join.len() > 0 {
        let p = join_to_sql(c, true);
        out.append(" ");
        out.append(p.0.as_str());
        join_binds = p.1;
        proof {
            assert(out@ =~= from_done + (" "@ + join_seq(c.db, c.query.join@, true).0));
        }
    }
    let ghost join_done = out@;
    if !statement_sql.as_str().is_empty() {
        out.append(" WHERE ");
        out.append(statement_sql.as_str());
        proof {
            assert(out@ =~= join_done + (" WHERE "@ + w.0));
        }
    }
    let ghost where_done = out@;
    let rp = raws_to_sql(&c.query.raw);
    out.append(rp.0.as_str());
    push_values(&mut to_binds, &rp.1);
    proof {
        assert(out@ =~= where_done + trailing_raw(c.query.raw@).0);
        assert(spec_to_sql(*c, false) is Ok);
        assert(out@ =~= spec_to_sql(*c, false)->Ok_0.sql);
        assert(to_binds@ =~= spec_to_sql(*c, false)->Ok_0.binds);
        assert(select_binds@ =~= spec_to_sql(*c, false)->Ok_0.select_binds);
        assert(join_binds@ =~= spec_to_sql(*c, false)->Ok_0.join_binds);
    }
    Ok((out, to_binds, select_binds, join_binds))
}

/// The assembler, over plain parts: SQL text, main binds, select binds, join
/// binds.
fn to_sql_parts(c: &ChainBuilder, is_statement: bool) -> (r: Result<
    (String, Vec<serde_json::Value>, Vec<serde_json::Value>, Vec<serde_json::Value>),
    CompileError,
>)
    ensures
        r matches Ok(p) ==> spec_to_sql(*c, is_statement) matches Ok(s) && p.0@ == s.sql && p.1@
            == s.binds && p.2@ == s.select_binds && p.3@ == s.join_binds,
        r matches Err(e) ==> spec_to_sql(*c, is_statement) == Err::<SpecToSql, CompileError>(e),
    decreases *c, 1int,
{
    let wr = where_to_sql(&c.query.statement);
    let (statement_sql, to_binds) = match wr {
        Ok(p) => p,
        Err(e) => {
            return Err(e);
        },
    };
    if is_statement {
        return Ok((statement_sql, to_binds, Vec::new(), Vec::new()));
    }
    assemble_full(c, statement_sql, to_binds)
}

/// Compiles a context. In statement mode the result is the bare `WHERE`
/// fragment and its main binds; otherwise the complete SQL string with the
/// three bind buckets still separate, for the caller to merge by its own
/// position in the text.
pub fn to_sql(c: &ChainBuilder, is_statement: bool) -> (r: Result<ToSql, CompileError>)
    ensures
        r matches Ok(t) ==> spec_to_sql(*c, is_statement) matches Ok(s) && t.sql@ == s.sql && (
        t.binds matches Some(b) && b@ == s.binds) && (t.select_binds matches Some(sb) && sb@
            == s.select_binds) && (t.join_binds matches Some(jb) && jb@ == s.join_binds),
        r matches Err(e) ==> spec_to_sql(*c, is_statement) == Err::<SpecToSql, CompileError>(e),
{
    match to_sql_parts(c, is_statement) {
        Ok(p) => Ok(
            ToSql {
                sql: p.0,
                binds: Some(p.1),
                select_binds: Some(p.2),
                join_binds: Some(p.3),
            },
        ),
        Err(e) => Err(e),
    }
}

impl ChainBuilder {
    /// Compiles the whole context and merges the bind buckets into the one
    /// positional array a caller executes with: selected-sub-query binds
    /// first, join binds next, main binds last — the order their placeholders
    /// appear in the text.
    pub fn to_sql(&self) -> (r: Result<(String, Vec<serde_json::Value>), CompileError>)
        ensures
            r matches Ok(p) ==> spec_to_sql(*self, false) matches Ok(s) && p.0@ == s.sql && p.1@
                == merged_binds(s),
            r matches Err(e) ==> spec_to_sql(*self, false) == Err::<SpecToSql, CompileError>(e),
    {
        match to_sql_parts(self, false) {
            Ok(p) => {
                let mut all = p.2;
                push_values(&mut all, &p.3);
                push_values(&mut all, &p.1);
                Ok((p.0, all))
            },
            Err(e) => Err(e),
        }
    }
}

} // verus!
