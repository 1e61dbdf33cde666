//! The operator table: each logical comparison operator maps to a fixed SQL
//! token and a flag saying whether it consumes bound value(s).

use vstd::prelude::*;

verus! {

/// A logical comparison operator of a `WHERE` condition.
#[derive(Clone, Copy, PartialEq, Eq, Structural, Debug)]
pub enum Operator {
    Equal,
    NotEqual,
    In,
    NotIn,
    IsNull,
    IsNotNull,
    Exists,
    NotExists,
    Between,
    NotBetween,
    Like,
    NotLike,
}

/// The SQL token an operator renders to.
pub open spec fn op_token(op: Operator) -> Seq<char> {
    match op {
        Operator::Equal => "="@,
        Operator::NotEqual => "!="@,
        Operator::In => "IN"@,
        Operator::NotIn => "NOT IN"@,
        Operator::IsNull => "IS NULL"@,
        Operator::IsNotNull => "IS NOT NULL"@,
        Operator::Exists => "EXISTS"@,
        Operator::NotExists => "NOT EXISTS"@,
        Operator::Between => "BETWEEN"@,
        Operator::NotBetween => "NOT BETWEEN"@,
        Operator::Like => "LIKE"@,
        Operator::NotLike => "NOT LIKE"@,
    }
}

/// Whether an operator consumes bound value(s): the null and existence
/// operators bind nothing, every other operator binds.
pub open spec fn op_binds(op: Operator) -> bool {
    match op {
        Operator::IsNull => false,
        Operator::IsNotNull => false,
        Operator::Exists => false,
        Operator::NotExists => false,
        _ => true,
    }
}

/// Maps an operator to its SQL token and its "binds a value" flag.
pub fn operator_to_sql(operator: &Operator) -> (r: (&str, bool))
    ensures
        r.0@ == op_token(*operator),
        r.1 == op_binds(*operator),
{
    match operator {
        Operator::Equal => ("=", true),
        Operator::NotEqual => ("!=", true),
        Operator::In => ("IN", true),
        Operator::NotIn => ("NOT IN", true),
        Operator::IsNull => ("IS NULL", false),
        Operator::IsNotNull => ("IS NOT NULL", false),
        Operator::Exists => ("EXISTS", false),
        Operator::NotExists => ("NOT EXISTS", false),
        Operator::Between => ("BETWEEN", true),
        Operator::NotBetween => ("NOT BETWEEN", true),
        Operator::Like => ("LIKE", true),
        Operator::NotLike => ("NOT LIKE", true),
    }
}

} // verus!
