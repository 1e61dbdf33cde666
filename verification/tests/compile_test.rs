use chain_builder::{
    operator_to_sql, BindValue, ChainBuilder, CompileError, Join, JoinStatement, Operator,
    QueryBuilder, Select, Statement,
};
use chain_builder::mysql::to_sql;
use serde_json::Value;

fn context(statement: Vec<Statement>) -> ChainBuilder {
    ChainBuilder {
        db: None,
        table: "users".to_string(),
        as_name: None,
        select: vec![],
        query: QueryBuilder {
            statement,
            join: vec![],
            raw: vec![],
        },
        is_select_method: true,
    }
}

fn eq_scalar(field: &str, v: &str) -> Statement {
    Statement::Value(
        field.to_string(),
        Operator::Equal,
        BindValue::Scalar(Value::String(v.to_string())),
    )
}

#[test]
fn test_empty_tree() {
    let sql = context(vec![]).to_sql().unwrap();
    assert_eq!(sql.0, "SELECT * FROM users");
    assert_eq!(sql.1, Vec::<Value>::new());
}

#[test]
fn test_scenario_and_in() {
    let c = context(vec![
        eq_scalar("name", "John"),
        eq_scalar("city", "New York"),
        Statement::Value(
            "department".to_string(),
            Operator::In,
            BindValue::Array(vec![
                Value::String("IT".to_string()),
                Value::String("HR".to_string()),
            ]),
        ),
    ]);
    let fragment = to_sql(&c, true).unwrap();
    assert_eq!(fragment.sql, "name = ? AND city = ? AND department IN (?,?)");
    assert_eq!(
        fragment.binds.unwrap(),
        vec![
            Value::String("John".to_string()),
            Value::String("New York".to_string()),
            Value::String("IT".to_string()),
            Value::String("HR".to_string()),
        ]
    );
    assert_eq!(fragment.select_binds.unwrap(), Vec::<Value>::new());
    assert_eq!(fragment.join_binds.unwrap(), Vec::<Value>::new());
}

#[test]
fn test_scenario_subchain_or() {
    let c = context(vec![Statement::SubChain(vec![
        eq_scalar("status", "active"),
        Statement::OrChain(vec![
            eq_scalar("status", "pending"),
            Statement::Value(
                "registered_at".to_string(),
                Operator::Between,
                BindValue::Array(vec![
                    Value::String("2024-01-01".to_string()),
                    Value::String("2024-01-31".to_string()),
                ]),
            ),
        ]),
    ])]);
    let fragment = to_sql(&c, true).unwrap();
    assert_eq!(
        fragment.sql,
        "(status = ? OR (status = ? AND registered_at BETWEEN ? AND ?))"
    );
    assert_eq!(
        fragment.binds.unwrap(),
        vec![
            Value::String("active".to_string()),
            Value::String("pending".to_string()),
            Value::String("2024-01-01".to_string()),
            Value::String("2024-01-31".to_string()),
        ]
    );
}

#[test]
fn test_scenario_join_or_group() {
    let mut c = context(vec![]);
    c.table = "users".to_string();
    c.query.join = vec![Join {
        join_type: "JOIN".to_string(),
        table: "details".to_string(),
        statement: vec![
            JoinStatement::On("a".to_string(), "=".to_string(), "b".to_string()),
            JoinStatement::On("c".to_string(), "=".to_string(), "d".to_string()),
            JoinStatement::OrChain(vec![
                JoinStatement::On("e".to_string(), "=".to_string(), "f".to_string()),
                JoinStatement::On("g".to_string(), "=".to_string(), "h".to_string()),
            ]),
        ],
    }];
    let sql = c.to_sql().unwrap();
    assert_eq!(
        sql.0,
        "SELECT * FROM users JOIN details ON a = b AND c = d OR (e = f AND g = h)"
    );
    assert_eq!(sql.1, Vec::<Value>::new());
}

#[test]
fn test_scenario_builder_merge() {
    let nested = context(vec![eq_scalar("b", "inner")]);
    let mut c = context(vec![eq_scalar("a", "outer")]);
    c.select = vec![Select::Builder("count".to_string(), nested)];
    let sql = c.to_sql().unwrap();
    assert_eq!(
        sql.0,
        "SELECT (SELECT * FROM users WHERE b = ?) AS count FROM users WHERE a = ?"
    );
    // The nested query's where-bind lands in the outer select bucket, so it
    // comes before the outer query's own where-bind.
    assert_eq!(
        sql.1,
        vec![
            Value::String("inner".to_string()),
            Value::String("outer".to_string()),
        ]
    );
}

#[test]
fn test_bucket_merge_order() {
    // One bind in each bucket: the merged array is select, join, main.
    let mut c = context(vec![eq_scalar("w", "main")]);
    c.select = vec![Select::Raw(
        "(SELECT ?) AS x".to_string(),
        Some(vec![Value::String("sel".to_string())]),
    )];
    c.query.join = vec![Join {
        join_type: "JOIN".to_string(),
        table: "d".to_string(),
        statement: vec![JoinStatement::OnVal(
            "d.k".to_string(),
            "=".to_string(),
            Value::String("join".to_string()),
        )],
    }];
    let sql = c.to_sql().unwrap();
    assert_eq!(
        sql.0,
        "SELECT (SELECT ?) AS x FROM users JOIN d ON d.k = ? WHERE w = ?"
    );
    assert_eq!(
        sql.1,
        vec![
            Value::String("sel".to_string()),
            Value::String("join".to_string()),
            Value::String("main".to_string()),
        ]
    );
}

#[test]
fn test_orchain_single_not_parenthesized() {
    let c = context(vec![
        eq_scalar("a", "1"),
        Statement::OrChain(vec![eq_scalar("b", "2")]),
    ]);
    let fragment = to_sql(&c, true).unwrap();
    assert_eq!(fragment.sql, "a = ? OR b = ?");
}

#[test]
fn test_orchain_two_parenthesized() {
    let c = context(vec![
        eq_scalar("a", "1"),
        Statement::OrChain(vec![eq_scalar("b", "2"), eq_scalar("c", "3")]),
    ]);
    let fragment = to_sql(&c, true).unwrap();
    assert_eq!(fragment.sql, "a = ? OR (b = ? AND c = ?)");
}

#[test]
fn test_orchain_after_orchain_single_or() {
    let c = context(vec![
        eq_scalar("a", "1"),
        Statement::OrChain(vec![eq_scalar("b", "2")]),
        Statement::OrChain(vec![eq_scalar("c", "3")]),
    ]);
    let fragment = to_sql(&c, true).unwrap();
    assert_eq!(fragment.sql, "a = ? OR b = ? OR c = ?");
}

#[test]
fn test_node_after_orchain_no_connective() {
    let c = context(vec![
        Statement::OrChain(vec![eq_scalar("a", "1"), eq_scalar("b", "2")]),
        eq_scalar("c", "3"),
    ]);
    let fragment = to_sql(&c, true).unwrap();
    assert_eq!(fragment.sql, "(a = ? AND b = ?)c = ?");
}

#[test]
fn test_between_exact() {
    let c = context(vec![Statement::Value(
        "x".to_string(),
        Operator::Between,
        BindValue::Array(vec![
            Value::Number(serde_json::Number::from(1)),
            Value::Number(serde_json::Number::from(5)),
        ]),
    )]);
    let fragment = to_sql(&c, true).unwrap();
    assert_eq!(fragment.sql, "x BETWEEN ? AND ?");
    assert_eq!(
        fragment.binds.unwrap(),
        vec![
            Value::Number(serde_json::Number::from(1)),
            Value::Number(serde_json::Number::from(5)),
        ]
    );
}

#[test]
fn test_is_null_binds_nothing() {
    let c = context(vec![Statement::Value(
        "x".to_string(),
        Operator::IsNull,
        BindValue::Scalar(Value::Null),
    )]);
    let fragment = to_sql(&c, true).unwrap();
    assert_eq!(fragment.sql, "x IS NULL");
    assert_eq!(fragment.binds.unwrap(), Vec::<Value>::new());
}

#[test]
fn test_in_empty_array() {
    let c = context(vec![Statement::Value(
        "x".to_string(),
        Operator::In,
        BindValue::Array(vec![]),
    )]);
    let fragment = to_sql(&c, true).unwrap();
    assert_eq!(fragment.sql, "x IN ()");
    assert_eq!(fragment.binds.unwrap(), Vec::<Value>::new());
}

#[test]
fn test_malformed_between_scalar() {
    let c = context(vec![Statement::Value(
        "x".to_string(),
        Operator::Between,
        BindValue::Scalar(Value::Number(serde_json::Number::from(1))),
    )]);
    assert_eq!(c.to_sql().unwrap_err(), CompileError::MalformedBetween);
}

#[test]
fn test_malformed_between_wrong_length() {
    let c = context(vec![Statement::Value(
        "x".to_string(),
        Operator::NotBetween,
        BindValue::Array(vec![Value::Number(serde_json::Number::from(1))]),
    )]);
    assert_eq!(c.to_sql().unwrap_err(), CompileError::MalformedBetween);
}

#[test]
fn test_malformed_in_scalar() {
    let c = context(vec![Statement::Value(
        "x".to_string(),
        Operator::NotIn,
        BindValue::Scalar(Value::String("solo".to_string())),
    )]);
    assert_eq!(c.to_sql().unwrap_err(), CompileError::MalformedIn);
}

#[test]
fn test_first_error_wins() {
    let c = context(vec![
        Statement::Value(
            "x".to_string(),
            Operator::In,
            BindValue::Scalar(Value::Null),
        ),
        Statement::Value(
            "y".to_string(),
            Operator::Between,
            BindValue::Scalar(Value::Null),
        ),
    ]);
    assert_eq!(c.to_sql().unwrap_err(), CompileError::MalformedIn);
}

#[test]
fn test_no_select_prefix_for_other_method() {
    let mut c = context(vec![]);
    c.is_select_method = false;
    let sql = c.to_sql().unwrap();
    assert_eq!(sql.0, "* FROM users");
}

#[test]
fn test_from_with_schema_and_alias() {
    let mut c = context(vec![]);
    c.db = Some("`mydb`".to_string());
    c.as_name = Some("u".to_string());
    let sql = c.to_sql().unwrap();
    assert_eq!(sql.0, "SELECT * FROM `mydb`.users AS u");
}

#[test]
fn test_trailing_raw_binds_after_where() {
    let mut c = context(vec![eq_scalar("a", "first")]);
    c.query.raw = vec![
        (
            "LIMIT ?".to_string(),
            Some(vec![Value::Number(serde_json::Number::from(10))]),
        ),
        ("FOR UPDATE".to_string(), None),
    ];
    let sql = c.to_sql().unwrap();
    assert_eq!(sql.0, "SELECT * FROM users WHERE a = ? LIMIT ? FOR UPDATE");
    assert_eq!(
        sql.1,
        vec![
            Value::String("first".to_string()),
            Value::Number(serde_json::Number::from(10)),
        ]
    );
}

#[test]
fn test_placeholder_parity_concrete() {
    let nested = context(vec![eq_scalar("n", "nested")]);
    let mut c = context(vec![
        eq_scalar("a", "1"),
        Statement::Value(
            "tags".to_string(),
            Operator::In,
            BindValue::Array(vec![
                Value::String("x".to_string()),
                Value::String("y".to_string()),
                Value::String("z".to_string()),
            ]),
        ),
    ]);
    c.select = vec![Select::Builder("sub".to_string(), nested)];
    c.query.join = vec![Join {
        join_type: "LEFT JOIN".to_string(),
        table: "d".to_string(),
        statement: vec![JoinStatement::OnVal(
            "d.k".to_string(),
            ">".to_string(),
            Value::Number(serde_json::Number::from(7)),
        )],
    }];
    let sql = c.to_sql().unwrap();
    let placeholders = sql.0.chars().filter(|ch| *ch == '?').count();
    assert_eq!(placeholders, sql.1.len());
}

#[test]
fn test_operator_table() {
    assert_eq!(operator_to_sql(&Operator::Equal), ("=", true));
    assert_eq!(operator_to_sql(&Operator::NotEqual), ("!=", true));
    assert_eq!(operator_to_sql(&Operator::In), ("IN", true));
    assert_eq!(operator_to_sql(&Operator::NotIn), ("NOT IN", true));
    assert_eq!(operator_to_sql(&Operator::IsNull), ("IS NULL", false));
    assert_eq!(operator_to_sql(&Operator::IsNotNull), ("IS NOT NULL", false));
    assert_eq!(operator_to_sql(&Operator::Exists), ("EXISTS", false));
    assert_eq!(operator_to_sql(&Operator::NotExists), ("NOT EXISTS", false));
    assert_eq!(operator_to_sql(&Operator::Between), ("BETWEEN", true));
    assert_eq!(operator_to_sql(&Operator::NotBetween), ("NOT BETWEEN", true));
    assert_eq!(operator_to_sql(&Operator::Like), ("LIKE", true));
    assert_eq!(operator_to_sql(&Operator::NotLike), ("NOT LIKE", true));
}

#[test]
fn test_like_scalar() {
    let c = context(vec![Statement::Value(
        "name".to_string(),
        Operator::Like,
        BindValue::Scalar(Value::String("Jo%".to_string())),
    )]);
    let fragment = to_sql(&c, true).unwrap();
    assert_eq!(fragment.sql, "name LIKE ?");
    assert_eq!(
        fragment.binds.unwrap(),
        vec![Value::String("Jo%".to_string())]
    );
}

#[test]
fn test_raw_condition_in_tree() {
    let c = context(vec![
        eq_scalar("a", "1"),
        Statement::Raw(
            "b > ?".to_string(),
            Some(vec![Value::Number(serde_json::Number::from(2))]),
        ),
    ]);
    let fragment = to_sql(&c, true).unwrap();
    assert_eq!(fragment.sql, "a = ? AND b > ?");
    assert_eq!(
        fragment.binds.unwrap(),
        vec![
            Value::String("1".to_string()),
            Value::Number(serde_json::Number::from(2)),
        ]
    );
}

#[test]
fn test_subquery_merge_twice_identical() {
    let nested = context(vec![eq_scalar("b", "inner")]);
    let mut c1 = context(vec![]);
    c1.select = vec![Select::Builder("count".to_string(), nested)];
    let first = c1.to_sql().unwrap();
    let second = c1.to_sql().unwrap();
    assert_eq!(first.0, second.0);
    assert_eq!(first.1, second.1);
}

#[test]
fn test_empty_orchain_contributes_no_text() {
    let c = context(vec![
        eq_scalar("a", "1"),
        Statement::OrChain(vec![]),
    ]);
    let fragment = to_sql(&c, true).unwrap();
    assert_eq!(fragment.sql, "a = ? OR ");
    assert_eq!(
        fragment.binds.unwrap(),
        vec![Value::String("1".to_string())]
    );
}

#[test]
fn test_join_binds_in_condition_order() {
    let mut c = context(vec![]);
    c.query.join = vec![Join {
        join_type: "JOIN".to_string(),
        table: "d".to_string(),
        statement: vec![
            JoinStatement::OnVal(
                "d.a".to_string(),
                "=".to_string(),
                Value::Number(serde_json::Number::from(1)),
            ),
            JoinStatement::OrChain(vec![
                JoinStatement::OnVal(
                    "d.b".to_string(),
                    "=".to_string(),
                    Value::Number(serde_json::Number::from(2)),
                ),
                JoinStatement::OnVal(
                    "d.c".to_string(),
                    "=".to_string(),
                    Value::Number(serde_json::Number::from(3)),
                ),
            ]),
        ],
    }];
    let sql = c.to_sql().unwrap();
    assert_eq!(
        sql.0,
        "SELECT * FROM users JOIN d ON d.a = ? OR (d.b = ? AND d.c = ?)"
    );
    assert_eq!(
        sql.1,
        vec![
            Value::Number(serde_json::Number::from(1)),
            Value::Number(serde_json::Number::from(2)),
            Value::Number(serde_json::Number::from(3)),
        ]
    );
}

#[test]
fn test_two_join_clauses_space_separated() {
    let mut c = context(vec![]);
    c.query.join = vec![
        Join {
            join_type: "JOIN".to_string(),
            table: "d".to_string(),
            statement: vec![JoinStatement::On(
                "d.id".to_string(),
                "=".to_string(),
                "users.d_id".to_string(),
            )],
        },
        Join {
            join_type: "LEFT JOIN".to_string(),
            table: "e".to_string(),
            statement: vec![JoinStatement::On(
                "e.id".to_string(),
                "=".to_string(),
                "users.e_id".to_string(),
            )],
        },
    ];
    let sql = c.to_sql().unwrap();
    assert_eq!(
        sql.0,
        "SELECT * FROM users JOIN d ON d.id = users.d_id LEFT JOIN e ON e.id = users.e_id"
    );
}
