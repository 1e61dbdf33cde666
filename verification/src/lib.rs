//! A SQL compiler for a fluent query builder: it turns an in-memory tree of
//! conditions, joins, and column selections into a SQL string together with
//! correctly ordered positional bind-parameter lists.

pub mod laws;
pub mod model;
pub mod mysql;
pub mod operator;
pub mod tree;
pub mod value;

pub use operator::operator_to_sql;
pub use operator::Operator;
pub use tree::ChainBuilder;
pub use tree::CompileError;
pub use tree::Join;
pub use tree::JoinStatement;
pub use tree::QueryBuilder;
pub use tree::Select;
pub use tree::Statement;
pub use tree::ToSql;
pub use value::BindValue;
