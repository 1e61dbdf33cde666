//! The value model: bind values are opaque `serde_json::Value` scalars, and a
//! condition's operand is a dedicated scalar-or-array shape so that shape
//! errors (a `BETWEEN` without exactly two values, an `IN` without an array)
//! are caught at the node instead of producing malformed SQL.

use vstd::prelude::*;

verus! {

/// Declares `serde_json::Value` to the verifier. A value of it is opaque:
/// the compiler only carries such values into the bind lists, in order.
#[verifier::external_type_specification]
#[verifier::external_body]
pub struct ExJsonValue(serde_json::Value);

/// Relies on `serde_json::Value`'s derived `Clone`: the clone is structurally
/// equal to the value cloned.
pub assume_specification[ <serde_json::Value as Clone>::clone ](
    v: &serde_json::Value,
) -> (r: serde_json::Value)
    ensures
        r == *v,
;

/// The operand of a single comparison: a scalar for most operators, an array
/// for `IN`/`NOT IN` (any length) and `BETWEEN`/`NOT BETWEEN` (exactly two).
pub enum BindValue {
    Scalar(serde_json::Value),
    Array(Vec<serde_json::Value>),
}

/// The bind values an optional raw-fragment bind list contributes: its
/// elements in order, or none.
pub open spec fn opt_binds(b: Option<Vec<serde_json::Value>>) -> Seq<serde_json::Value> {
    match b {
        Some(v) => v@,
        None => Seq::empty(),
    }
}

/// Appends every value of `src`, in order, to `dst`.
pub fn push_values(dst: &mut Vec<serde_json::Value>, src: &Vec<serde_json::Value>)
    ensures
        final(dst)@ == old(dst)@ + src@,
{
    let ghost dst0 = dst@;
    let mut i: usize = 0;
    while i < src.len()
        invariant
            i <= src.len(),
            dst@ == dst0 + src@.take(i as int),
        decreases src.len() - i,
    {
        dst.push(src[i].clone());
        i = i + 1;
        proof {
            assert(src@.take(i as int) =~= src@.take(i as int - 1).push(src@[i as int - 1]));
            assert(dst@ =~= dst0 + src@.take(i as int));
        }
    }
    proof {
        assert(src@.take(src@.len() as int) =~= src@);
    }
}

} // verus!
