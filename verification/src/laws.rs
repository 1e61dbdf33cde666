//! The compiler's stated laws: placeholder/bind parity, order fidelity,
//! `OR`-group parenthesization, sub-query merge order, and the empty-tree
//! form, proved over the model in `crate::model`.

use vstd::prelude::*;
use crate::model::{
    columns_text, from_text, join_clause, join_node, join_nodes, join_seq, merged_binds,
    placeholders, select_item, select_seq, spec_to_sql, trailing_raw, value_node, where_node,
    where_seq,
};
use crate::operator::{op_binds, op_token, Operator};
use crate::tree::{ChainBuilder, Join, JoinStatement, Select, Statement};
use crate::value::{opt_binds, BindValue};

verus! {

/// The number of `?` placeholder characters in a piece of SQL text.
pub open spec fn count_q(s: Seq<char>) -> nat
    decreases s.len(),
{
    if s.len() == 0 {
        0
    } else {
        count_q(s.drop_last()) + (if s.last() == '?' {
            1nat
        } else {
            0nat
        })
    }
}

/// Placeholder counting distributes over concatenation.
pub broadcast proof fn lemma_count_q_add(a: Seq<char>, b: Seq<char>)
    ensures
        #[trigger] count_q(a + b) == count_q(a) + count_q(b),
    decreases b.len(),
{
    if b.len() == 0 {
        assert(a + b =~= a);
    } else {
        assert((a + b).drop_last() =~= a + b.drop_last());
        lemma_count_q_add(a, b.drop_last());
        assert((a + b).last() == b.last());
    }
}

/// The fixed SQL fragments the compiler emits hold exactly the placeholders
/// they show.
proof fn lemma_lit_counts()
    ensures
        count_q(" AND "@) == 0,
        count_q(" OR "@) == 0,
        count_q("("@) == 0,
        count_q(")"@) == 0,
        count_q(" "@) == 0,
        count_q(" ? AND ?"@) == 2,
        count_q(" ?"@) == 1,
        count_q("?"@) == 1,
        count_q(",?"@) == 1,
        count_q(" ON "@) == 0,
        count_q("."@) == 0,
        count_q(", "@) == 0,
        count_q(") AS "@) == 0,
        count_q("*"@) == 0,
        count_q("SELECT "@) == 0,
        count_q(" FROM "@) == 0,
        count_q(" AS "@) == 0,
        count_q(" WHERE "@) == 0,
        count_q(" ("@) == 0,
        count_q(Seq::<char>::empty()) == 0,
{
    reveal_strlit(" AND ");
    reveal_strlit(" OR ");
    reveal_strlit("(");
    reveal_strlit(")");
    reveal_strlit(" ");
    reveal_strlit(" ? AND ?");
    reveal_strlit(" ?");
    reveal_strlit("?");
    reveal_strlit(",?");
    reveal_strlit(" ON ");
    reveal_strlit(".");
    reveal_strlit(", ");
    reveal_strlit(") AS ");
    reveal_strlit("*");
    reveal_strlit("SELECT ");
    reveal_strlit(" FROM ");
    reveal_strlit(" AS ");
    reveal_strlit(" WHERE ");
    reveal_strlit(" (");
    reveal_with_fuel(count_q, 10);
    assert(count_q(" ? AND ?"@) == 2);
    assert(count_q(" AND "@) == 0);
    assert(count_q(" OR "@) == 0);
    assert(count_q(" ON "@) == 0);
    assert(count_q(") AS "@) == 0);
    assert(count_q("SELECT "@) == 0);
    assert(count_q(" FROM "@) == 0);
    assert(count_q(" AS "@) == 0);
    assert(count_q(" WHERE "@) == 0);
}

/// No operator's SQL token holds a placeholder.
proof fn lemma_op_token_q_free(op: Operator)
    ensures
        count_q(op_token(op)) == 0,
{
    reveal_strlit("=");
    reveal_strlit("!=");
    reveal_strlit("IN");
    reveal_strlit("NOT IN");
    reveal_strlit("IS NULL");
    reveal_strlit("IS NOT NULL");
    reveal_strlit("EXISTS");
    reveal_strlit("NOT EXISTS");
    reveal_strlit("BETWEEN");
    reveal_strlit("NOT BETWEEN");
    reveal_strlit("LIKE");
    reveal_strlit("NOT LIKE");
    reveal_with_fuel(count_q, 13);
    assert(count_q(op_token(op)) == 0);
}

/// A length-`n` placeholder list holds exactly `n` placeholders.
proof fn lemma_placeholders_count(n: nat)
    ensures
        count_q(placeholders(n)) == n,
    decreases n,
{
    broadcast use lemma_count_q_add;

    lemma_lit_counts();
    if n > 1 {
        lemma_placeholders_count((n - 1) as nat);
    }
}

/// Well-formed comparison node: its field text shows no stray placeholder,
/// and a raw fragment shows exactly as many placeholders as it binds values.
pub open spec fn stmt_wf(s: Statement) -> bool
    decreases s,
{
    match s {
        Statement::Value(f, _, _) => count_q(f@) == 0,
        Statement::OrChain(sub) => stmts_wf(sub@),
        Statement::SubChain(sub) => stmts_wf(sub@),
        Statement::Raw(sql, binds) => count_q(sql@) == opt_binds(binds).len(),
    }
}

/// Well-formedness of a whole `WHERE` tree.
pub open spec fn stmts_wf(ss: Seq<Statement>) -> bool
    decreases ss,
{
    if ss.len() == 0 {
        true
    } else {
        stmts_wf(ss.drop_last()) && stmt_wf(ss.last())
    }
}

/// Well-formed join-condition node: column and operator texts show no stray
/// placeholder.
pub open spec fn join_stmt_wf(j: JoinStatement) -> bool
    decreases j,
{
    match j {
        JoinStatement::On(a, op, b) => count_q(a@) == 0 && count_q(op@) == 0 && count_q(b@) == 0,
        JoinStatement::OnVal(col, op, _) => count_q(col@) == 0 && count_q(op@) == 0,
        JoinStatement::OrChain(sub) => join_stmts_wf(sub@),
    }
}

/// Well-formedness of a join-condition list.
pub open spec fn join_stmts_wf(js: Seq<JoinStatement>) -> bool
    decreases js,
{
    if js.len() == 0 {
        true
    } else {
        join_stmts_wf(js.drop_last()) && join_stmt_wf(js.last())
    }
}

/// Well-formed join clause: keyword and table show no stray placeholder.
pub open spec fn join_wf(j: Join) -> bool {
    count_q(j.join_type@) == 0 && count_q(j.table@) == 0 && join_stmts_wf(j.statement@)
}

/// Well-formedness of a join-clause list.
pub open spec fn joins_wf(js: Seq<Join>) -> bool
    decreases js,
{
    if js.len() == 0 {
        true
    } else {
        joins_wf(js.drop_last()) && join_wf(js.last())
    }
}

/// Well-formedness of a selected column list.
pub open spec fn cols_wf(cols: Seq<String>) -> bool
    decreases cols,
{
    if cols.len() == 0 {
        true
    } else {
        cols_wf(cols.drop_last()) && count_q(cols.last()@) == 0
    }
}

/// Well-formed selected item; a selected sub-query carries a well-formed
/// nested context.
pub open spec fn select_wf(it: Select) -> bool
    decreases it,
{
    match it {
        Select::Columns(cols) => cols_wf(cols@),
        Select::Raw(sql, binds) => count_q(sql@) == opt_binds(binds).len(),
        Select::Builder(alias, sub) => count_q(alias@) == 0 && ctx_wf(sub),
    }
}

/// Well-formedness of the select list.
pub open spec fn selects_wf(items: Seq<Select>) -> bool
    decreases items,
{
    if items.len() == 0 {
        true
    } else {
        selects_wf(items.drop_last()) && select_wf(items.last())
    }
}

/// Well-formedness of the trailing raw clauses.
pub open spec fn raws_wf(raws: Seq<(String, Option<Vec<serde_json::Value>>)>) -> bool
    decreases raws,
{
    if raws.len() == 0 {
        true
    } else {
        raws_wf(raws.drop_last()) && count_q(raws.last().0@) == opt_binds(raws.last().1).len()
    }
}

/// Well-formed context: no identifier shows a stray placeholder, and every
/// raw fragment shows exactly as many placeholders as it binds values.
pub open spec fn ctx_wf(c: ChainBuilder) -> bool
    decreases c,
{
    &&& (match c.db {
        Some(d) => count_q(d@) == 0,
        None => true,
    })
    &&& count_q(c.table@) == 0
    &&& (match c.as_name {
        Some(n) => count_q(n@) == 0,
        None => true,
    })
    &&& selects_wf(c.select@)
    &&& stmts_wf(c.query.statement@)
    &&& joins_wf(c.query.join@)
    &&& raws_wf(c.query.raw@)
}

/// Parity of a single comparison node.
proof fn lemma_value_node_parity(field: Seq<char>, op: Operator, val: BindValue)
    requires
        count_q(field) == 0,
        value_node(field, op, val) is Ok,
    ensures
        count_q(value_node(field, op, val)->Ok_0.0) == value_node(field, op, val)->Ok_0.1.len(),
{
    broadcast use lemma_count_q_add;

    lemma_lit_counts();
    lemma_op_token_q_free(op);
    match val {
        BindValue::Array(vs) => {
            if !(op == Operator::Between || op == Operator::NotBetween) && op_binds(op) {
                lemma_placeholders_count(vs@.len());
            }
        },
        BindValue::Scalar(_) => {},
    }
}

/// Parity of one `WHERE`-tree node.
proof fn lemma_where_node_parity(s: Statement)
    requires
        stmt_wf(s),
        where_node(s) is Ok,
    ensures
        count_q(where_node(s)->Ok_0.0) == where_node(s)->Ok_0.1.len(),
    decreases s,
{
    broadcast use lemma_count_q_add;

    lemma_lit_counts();
    match s {
        Statement::Value(f, op, val) => {
            lemma_value_node_parity(f@, op, val);
        },
        Statement::OrChain(sub) => {
            lemma_where_seq_parity(sub@);
        },
        Statement::SubChain(sub) => {
            lemma_where_seq_parity(sub@);
        },
        Statement::Raw(_, _) => {},
    }
}

/// Parity of a compiled `WHERE` tree: as many placeholders as main binds.
pub proof fn lemma_where_seq_parity(ss: Seq<Statement>)
    requires
        stmts_wf(ss),
        where_seq(ss) is Ok,
    ensures
        count_q(where_seq(ss)->Ok_0.0) == where_seq(ss)->Ok_0.1.len(),
    decreases ss,
{
    broadcast use lemma_count_q_add;

    lemma_lit_counts();
    if ss.len() > 0 {
        lemma_where_seq_parity(ss.drop_last());
        lemma_where_node_parity(ss.last());
    }
}

/// Parity of one join-condition node.
proof fn lemma_join_node_parity(j: JoinStatement)
    requires
        join_stmt_wf(j),
    ensures
        count_q(join_node(j).0) == join_node(j).1.len(),
    decreases j,
{
    broadcast use lemma_count_q_add;

    lemma_lit_counts();
    match j {
        JoinStatement::On(_, _, _) => {},
        JoinStatement::OnVal(_, _, _) => {},
        JoinStatement::OrChain(sub) => {
            lemma_join_nodes_parity(sub@);
        },
    }
}

/// Parity of a join-condition list.
proof fn lemma_join_nodes_parity(js: Seq<JoinStatement>)
    requires
        join_stmts_wf(js),
    ensures
        count_q(join_nodes(js).0) == join_nodes(js).1.len(),
    decreases js,
{
    broadcast use lemma_count_q_add;

    lemma_lit_counts();
    if js.len() > 0 {
        lemma_join_nodes_parity(js.drop_last());
        lemma_join_node_parity(js.last());
    }
}

/// Parity of one join clause with its header.
proof fn lemma_join_clause_parity(db: Option<String>, j: Join, prefix: bool)
    requires
        join_wf(j),
        match db {
            Some(d) => count_q(d@) == 0,
            None => true,
        },
    ensures
        count_q(join_clause(db, j, prefix).0) == join_clause(db, j, prefix).1.len(),
{
    broadcast use lemma_count_q_add;

    lemma_lit_counts();
    lemma_join_nodes_parity(j.statement@);
}

/// Parity of the whole join text: as many placeholders as join binds.
pub proof fn lemma_join_seq_parity(db: Option<String>, js: Seq<Join>, prefix: bool)
    requires
        joins_wf(js),
        match db {
            Some(d) => count_q(d@) == 0,
            None => true,
        },
    ensures
        count_q(join_seq(db, js, prefix).0) == join_seq(db, js, prefix).1.len(),
    decreases js,
{
    broadcast use lemma_count_q_add;

    lemma_lit_counts();
    if js.len() > 0 {
        lemma_join_seq_parity(db, js.drop_last(), prefix);
        lemma_join_clause_parity(db, js.last(), prefix);
    }
}

/// A well-formed column list shows no placeholder.
proof fn lemma_columns_count(cols: Seq<String>)
    requires
        cols_wf(cols),
    ensures
        count_q(columns_text(cols)) == 0,
    decreases cols,
{
    broadcast use lemma_count_q_add;

    lemma_lit_counts();
    if cols.len() > 0 {
        lemma_columns_count(cols.drop_last());
    }
}

/// Parity of one selected item.
proof fn lemma_select_item_parity(it: Select)
    requires
        select_wf(it),
        select_item(it) is Ok,
    ensures
        count_q(select_item(it)->Ok_0.0) == select_item(it)->Ok_0.1.len(),
    decreases it,
{
    broadcast use lemma_count_q_add;

    lemma_lit_counts();
    match it {
        Select::Columns(cols) => {
            lemma_columns_count(cols@);
        },
        Select::Raw(_, _) => {},
        Select::Builder(alias, sub) => {
            lemma_placeholder_parity(sub, false);
        },
    }
}

/// Parity of the select list: as many placeholders as select-bucket binds.
proof fn lemma_select_seq_parity(items: Seq<Select>)
    requires
        selects_wf(items),
        select_seq(items) is Ok,
    ensures
        count_q(select_seq(items)->Ok_0.0) == select_seq(items)->Ok_0.1.len(),
    decreases items,
{
    broadcast use lemma_count_q_add;

    lemma_lit_counts();
    if items.len() > 0 {
        lemma_select_seq_parity(items.drop_last());
        lemma_select_item_parity(items.last());
    }
}

/// Parity of the trailing raw clauses.
proof fn lemma_trailing_raw_parity(raws: Seq<(String, Option<Vec<serde_json::Value>>)>)
    requires
        raws_wf(raws),
    ensures
        count_q(trailing_raw(raws).0) == trailing_raw(raws).1.len(),
    decreases raws,
{
    broadcast use lemma_count_q_add;

    lemma_lit_counts();
    if raws.len() > 0 {
        lemma_trailing_raw_parity(raws.drop_last());
    }
}

/// Placeholder/bind parity: in every compiled SQL string of a well-formed
/// context, the number of `?` characters equals the length of the merged
/// positional bind array (select binds, then join binds, then main binds).
pub proof fn lemma_placeholder_parity(c: ChainBuilder, is_statement: bool)
    requires
        ctx_wf(c),
        spec_to_sql(c, is_statement) is Ok,
    ensures
        count_q(spec_to_sql(c, is_statement)->Ok_0.sql) == merged_binds(
            spec_to_sql(c, is_statement)->Ok_0,
        ).len(),
    decreases c,
{
    broadcast use lemma_count_q_add;

    lemma_lit_counts();
    lemma_where_seq_parity(c.query.statement@);
    if !is_statement {
        if c.select@.len() > 0 {
            lemma_select_seq_parity(c.select@);
        }
        if c.query.join@.len() > 0 {
            lemma_join_seq_parity(c.db, c.query.join@, true);
        }
        lemma_trailing_raw_parity(c.query.raw@);
    }
}

/// Order fidelity: text and binds of a `WHERE` tree grow in lockstep. The
/// compile of any prefix of the condition list is a prefix of the full text
/// and a prefix of the full bind list, and its placeholder count equals its
/// bind count — so the `k`-th placeholder of the full text always takes the
/// `k`-th bind, the value contributed by the placeholder's own source node.
pub proof fn lemma_order_fidelity(conds: Seq<Statement>, i: int)
    requires
        0 <= i <= conds.len(),
        stmts_wf(conds),
        where_seq(conds) is Ok,
    ensures
        where_seq(conds.take(i)) is Ok,
        where_seq(conds.take(i))->Ok_0.0.len() <= where_seq(conds)->Ok_0.0.len(),
        where_seq(conds.take(i))->Ok_0.1.len() <= where_seq(conds)->Ok_0.1.len(),
        where_seq(conds.take(i))->Ok_0.0 == where_seq(conds)->Ok_0.0.take(
            where_seq(conds.take(i))->Ok_0.0.len() as int,
        ),
        where_seq(conds.take(i))->Ok_0.1 == where_seq(conds)->Ok_0.1.take(
            where_seq(conds.take(i))->Ok_0.1.len() as int,
        ),
        count_q(where_seq(conds.take(i))->Ok_0.0) == where_seq(conds.take(i))->Ok_0.1.len(),
    decreases conds.len(),
{
    if i == conds.len() {
        assert(conds.take(i) =~= conds);
        lemma_where_seq_parity(conds);
        assert(where_seq(conds)->Ok_0.0.take(where_seq(conds)->Ok_0.0.len() as int) =~= where_seq(
            conds,
        )->Ok_0.0);
        assert(where_seq(conds)->Ok_0.1.take(where_seq(conds)->Ok_0.1.len() as int) =~= where_seq(
            conds,
        )->Ok_0.1);
    } else {
        let dl = conds.drop_last();
        lemma_order_fidelity(dl, i);
        assert(dl.take(i) =~= conds.take(i));
        let part = where_seq(conds.take(i))->Ok_0;
        let dlp = where_seq(dl)->Ok_0;
        let full = where_seq(conds)->Ok_0;
        assert(full.0.take(part.0.len() as int) =~= dlp.0.take(part.0.len() as int));
        assert(full.1.take(part.1.len() as int) =~= dlp.1.take(part.1.len() as int));
    }
}

/// `OR`-group parenthesization: an `OrChain` whose subtree holds exactly one
/// condition is inlined without parentheses; one with two or more conditions
/// is always wrapped in parentheses.
pub proof fn lemma_orchain_parenthesization(sub: Vec<Statement>)
    requires
        where_seq(sub@) is Ok,
    ensures
        where_node(Statement::OrChain(sub)) is Ok,
        sub@.len() <= 1 ==> where_node(Statement::OrChain(sub))->Ok_0.0 == where_seq(sub@)->Ok_0.0,
        sub@.len() > 1 ==> where_node(Statement::OrChain(sub))->Ok_0.0 == "("@ + where_seq(
            sub@,
        )->Ok_0.0 + ")"@,
{
}

/// Sub-query merge order: the select-bucket contribution of a selected
/// sub-query is exactly the nested compile's select binds, then its join
/// binds, then its main binds — the order their placeholders appear inside
/// the nested text. The compile is a function of the item alone, so the same
/// nested item always contributes the same sequence.
pub proof fn lemma_subquery_merge_order(alias: String, sub: ChainBuilder)
    requires
        spec_to_sql(sub, false) is Ok,
    ensures
        select_item(Select::Builder(alias, sub)) is Ok,
        select_item(Select::Builder(alias, sub))->Ok_0.1 == spec_to_sql(sub, false)->Ok_0.select_binds
            + spec_to_sql(sub, false)->Ok_0.join_binds + spec_to_sql(sub, false)->Ok_0.binds,
{
}

/// Segment alignment of the merged bind order: the full text is exactly the
/// select-and-`FROM` segment, then the join segment, then the
/// `WHERE`-and-trailing segment, and each segment shows exactly as many
/// placeholders as the bucket merged at its position — so the merged array
/// `select ++ join ++ main` assigns every placeholder the value its own
/// segment contributed.
pub proof fn lemma_merged_order_alignment(c: ChainBuilder)
    requires
        ctx_wf(c),
        spec_to_sql(c, false) is Ok,
    ensures
        ({
            let s = spec_to_sql(c, false)->Ok_0;
            let sel_part = (if c.is_select_method {
                "SELECT "@
            } else {
                Seq::<char>::empty()
            }) + (if c.select@.len() == 0 {
                "*"@
            } else {
                select_seq(c.select@)->Ok_0.0
            }) + from_text(c);
            let join_part = if c.query.join@.len() > 0 {
                " "@ + join_seq(c.db, c.query.join@, true).0
            } else {
                Seq::<char>::empty()
            };
            let where_raw_part = (if where_seq(c.query.statement@)->Ok_0.0.len() > 0 {
                " WHERE "@ + where_seq(c.query.statement@)->Ok_0.0
            } else {
                Seq::<char>::empty()
            }) + trailing_raw(c.query.raw@).0;
            &&& s.sql == sel_part + join_part + where_raw_part
            &&& count_q(sel_part) == s.select_binds.len()
            &&& count_q(join_part) == s.join_binds.len()
            &&& count_q(where_raw_part) == s.binds.len()
        }),
{
    broadcast use lemma_count_q_add;

    lemma_lit_counts();
    lemma_where_seq_parity(c.query.statement@);
    if c.select@.len() > 0 {
        lemma_select_seq_parity(c.select@);
    }
    if c.query.join@.len() > 0 {
        lemma_join_seq_parity(c.db, c.query.join@, true);
    }
    lemma_trailing_raw_parity(c.query.raw@);
    let s = spec_to_sql(c, false)->Ok_0;
    let sel_part = (if c.is_select_method {
        "SELECT "@
    } else {
        Seq::<char>::empty()
    }) + (if c.select@.len() == 0 {
        "*"@
    } else {
        select_seq(c.select@)->Ok_0.0
    }) + from_text(c);
    let join_part = if c.query.join@.len() > 0 {
        " "@ + join_seq(c.db, c.query.join@, true).0
    } else {
        Seq::<char>::empty()
    };
    let where_raw_part = (if where_seq(c.query.statement@)->Ok_0.0.len() > 0 {
        " WHERE "@ + where_seq(c.query.statement@)->Ok_0.0
    } else {
        Seq::<char>::empty()
    }) + trailing_raw(c.query.raw@).0;
    assert(s.sql =~= sel_part + join_part + where_raw_part);
}

/// Empty-tree form: a select context with no conditions, no joins, no
/// trailing raw clauses, no selected items, no schema and no alias compiles
/// to exactly `SELECT * FROM <table>` with an empty bind array.
pub proof fn lemma_empty_tree(c: ChainBuilder)
    requires
        c.query.statement@.len() == 0,
        c.query.join@.len() == 0,
        c.query.raw@.len() == 0,
        c.select@.len() == 0,
        c.db is None,
        c.as_name is None,
        c.is_select_method,
    ensures
        spec_to_sql(c, false) is Ok,
        spec_to_sql(c, false)->Ok_0.sql == "SELECT * FROM "@ + c.table@,
        merged_binds(spec_to_sql(c, false)->Ok_0) == Seq::<serde_json::Value>::empty(),
{
    reveal_strlit("SELECT ");
    reveal_strlit("*");
    reveal_strlit(" FROM ");
    reveal_strlit("SELECT * FROM ");
    assert(spec_to_sql(c, false)->Ok_0.sql =~= "SELECT * FROM "@ + c.table@);
    assert(merged_binds(spec_to_sql(c, false)->Ok_0) =~= Seq::<serde_json::Value>::empty());
}

} // verus!

