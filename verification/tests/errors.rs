use arel::collectors::Sql;
use arel::error::ArelError;
use arel::json::{Json, JsonNumber};
use arel::methods::{Dialect, Model};
use arel::statements::where_clause::{help_range_to_sql, JoinType, Ops, RangeBound, Where};
use arel::statements::StatementAble;
use arel::table::Table;

fn to_json(v: &serde_json::Value) -> Json {
    match v {
        serde_json::Value::Null => Json::Null,
        serde_json::Value::Bool(b) => Json::Bool(*b),
        serde_json::Value::Number(n) => {
            if let Some(u) = n.as_u64() {
                Json::Number(JsonNumber::PosInt(u))
            } else if let Some(i) = n.as_i64() {
                Json::Number(JsonNumber::NegInt(i))
            } else {
                Json::Number(JsonNumber::Float(n.to_string()))
            }
        }
        serde_json::Value::String(s) => Json::String(s.clone()),
        serde_json::Value::Array(a) => Json::Array(a.iter().map(to_json).collect()),
        serde_json::Value::Object(o) => {
            Json::Object(o.iter().map(|(k, v)| (k.clone(), to_json(v))).collect())
        }
    }
}

/// The JSON written in `text`.
fn j(text: &str) -> Json {
    to_json(&serde_json::from_str(text).unwrap())
}

fn users() -> Model {
    Model::new("users", "id", Dialect::MySql)
}


#[test]
fn a_nested_value_has_no_literal() {
    let m = users();
    assert_eq!(m.create(j(r#"{"a": {"b": 1}}"#)).to_sql_string(), Err(ArelError::ValueNotSupported));
}

#[test]
fn a_shape_that_a_statement_does_not_take_is_refused() {
    let m = users();
    let w = Where::new(j(r#""a = 1""#), Ops::new(JoinType::And, true, false));
    assert_eq!(w.to_sql_string(&m), Err(ArelError::StatementNotSupported));
    assert_eq!(m.create(j("[1]")).to_sql_string(), Err(ArelError::StatementNotSupported));
}

#[test]
fn raw_sql_must_come_first() {
    let m = users();
    assert_eq!(m.query().where_(j("[1, 2]")).to_sql_string(), Err(ArelError::FirstElementNotString));
}

#[test]
fn a_between_needs_two_bounds() {
    let m = users();
    assert_eq!(m.query().where_between(j(r#"{"age": [1]}"#)).to_sql_string(), Err(ArelError::BetweenArrayLength));
}

#[test]
fn more_values_than_placeholders_are_refused() {
    let m = users();
    assert_eq!(m.query().where_(j(r#"["a = 1", 5]"#)).to_sql_string(), Err(ArelError::PrepareCountMismatch));
    let sql = Sql::new_with_prepare("a".to_string(), vec![Json::Null]);
    assert_eq!(sql.to_sql_string(), Err(ArelError::PrepareCountMismatch));
}

#[test]
fn a_range_needs_a_bound() {
    assert_eq!(help_range_to_sql("age", &RangeBound::Unbounded, &RangeBound::Unbounded), Err(ArelError::UnboundedRange));
    assert_eq!(
        help_range_to_sql("age", &RangeBound::Excluded(Json::from_i64(1)), &RangeBound::Excluded(Json::from_i64(9))).unwrap(),
        "age > 1 AND age < 9"
    );
}

#[test]
fn a_table_needs_a_statement() {
    let m = users();
    assert!(matches!(Table::new(m).to_sql(), Err(ArelError::NoManager)));
}

#[test]
fn rendering_is_refused_where_values_run_out() {
    let m = users();
    assert_eq!(m.query().where_(j(r#"["a = ? AND b = ?", 1]"#)).try_to_sql_string(), None);
    assert_eq!(m.query().where_(j(r#"["a = ?", 1]"#)).try_to_sql_string(), Some(Ok("SELECT `users`.* FROM `users` WHERE a = 1".to_string())));
    assert_eq!(m.query().where_(j(r#"["a = ?", 1, 2]"#)).try_to_sql_string(), Some(Err(ArelError::PrepareCountMismatch)));
}
