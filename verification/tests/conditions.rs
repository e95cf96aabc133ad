use arel::error::ArelError;
use arel::json::{Json, JsonNumber};
use arel::methods::{Dialect, Model};
use arel::statements::where_clause::{JoinType, Ops, Where};

fn to_json(v: &serde_json::Value) -> Json {
    match v {
        serde_json::Value::Null => Json::Null,
        serde_json::Value::Bool(b) => Json::Bool(*b),
        serde_json::Value::Number(n) => {
            if let Some(u) = n.as_u64() {
                Json::Number(JsonNumber::PosInt(u))
            } else if let Some(i) = n.as_i64() {
                Json::Number(JsonNumber::NegInt(i))
            } else {
                Json::Number(JsonNumber::Float(n.to_string()))
            }
        }
        serde_json::Value::String(s) => Json::String(s.clone()),
        serde_json::Value::Array(a) => Json::Array(a.iter().map(to_json).collect()),
        serde_json::Value::Object(o) => {
            Json::Object(o.iter().map(|(k, v)| (k.clone(), to_json(v))).collect())
        }
    }
}

/// The JSON written in `text`.
fn j(text: &str) -> Json {
    to_json(&serde_json::from_str(text).unwrap())
}

fn users() -> Model {
    Model::new("users", "id", Dialect::MySql)
}


#[test]
fn every_kind_of_condition() {
    let m = users();
    let plain = m.query().where_(j(r#"{"name": "Tom"}"#)).to_sql_string().unwrap();
    let prepared = m.query().where_prepare(j(r#"{"name": "Tom"}"#)).to_sql_string().unwrap();
    assert_eq!(plain, prepared);
    let sql = m.query().where_not_between(j(r#"{"age": [18, 30]}"#)).to_sql_string().unwrap();
    assert_eq!(sql, "SELECT `users`.* FROM `users` WHERE `users`.`age` NOT BETWEEN 18 AND 30");
    let sql = m.query().where_or_not(j(r#"{"a": 1, "b": "x"}"#)).to_sql_string().unwrap();
    assert_eq!(sql, "SELECT `users`.* FROM `users` WHERE (`users`.`a` != 1 OR `users`.`b` != 'x')");
    let sql = m.query().where_or_between(j(r#"{"a": [1, 2], "b": [3, 4]}"#)).to_sql_string().unwrap();
    assert_eq!(sql, "SELECT `users`.* FROM `users` WHERE (`users`.`a` BETWEEN 1 AND 2 OR `users`.`b` BETWEEN 3 AND 4)");
    let sql = m.query().where_or_not_between(j(r#"{"a": [1, 2]}"#)).to_sql_string().unwrap();
    assert_eq!(sql, "SELECT `users`.* FROM `users` WHERE (`users`.`a` NOT BETWEEN 1 AND 2)");
}

#[test]
fn every_kind_of_group_condition() {
    let m = users();
    let sql = m.query().group(j(r#""age""#)).having_between(j(r#"{"n": [1, 5]}"#)).to_sql_string().unwrap();
    assert_eq!(sql, "SELECT `users`.* FROM `users` GROUP BY age HAVING `users`.`n` BETWEEN 1 AND 5");
    let sql = m.query().group(j(r#""age""#)).having_not_between(j(r#"{"n": [1, 5]}"#)).to_sql_string().unwrap();
    assert_eq!(sql, "SELECT `users`.* FROM `users` GROUP BY age HAVING `users`.`n` NOT BETWEEN 1 AND 5");
    let sql = m.query().group(j(r#""age""#)).having_or(j(r#"{"n": 1, "m": null}"#)).to_sql_string().unwrap();
    assert_eq!(sql, "SELECT `users`.* FROM `users` GROUP BY age HAVING (`users`.`m` IS NULL OR `users`.`n` = 1)");
    let sql = m.query().group(j(r#""age""#)).having_or_not(j(r#"{"n": 1, "m": null}"#)).to_sql_string().unwrap();
    assert_eq!(sql, "SELECT `users`.* FROM `users` GROUP BY age HAVING (`users`.`m` IS NOT NULL OR `users`.`n` != 1)");
    // having_or_between compares as having_or does: its arrays are sets, not ranges.
    let sql = m.query().group(j(r#""age""#)).having_or_between(j(r#"{"n": [1, 5]}"#)).to_sql_string().unwrap();
    assert_eq!(sql, "SELECT `users`.* FROM `users` GROUP BY age HAVING (`users`.`n` IN (1, 5))");
    let sql = m.query().group(j(r#""age""#)).having_or_not_between(j(r#"{"n": [1, 5]}"#)).to_sql_string().unwrap();
    assert_eq!(sql, "SELECT `users`.* FROM `users` GROUP BY age HAVING (`users`.`n` NOT BETWEEN 1 AND 5)");
}

#[test]
fn a_condition_value_alone() {
    let w = Where::new(Json::Null, Ops::new(JoinType::And, true, false));
    assert_eq!(w.value_sql_from_json(&j("[1, 2]"), true).unwrap().value, "NOT IN (1, 2)");
    assert_eq!(w.value_sql_from_json(&j("null"), true).unwrap().value, "IS NOT NULL");
    assert!(matches!(w.value_sql_from_json(&j("null"), false), Err(ArelError::StatementNotSupported)));
    let w = Where::new(Json::Null, Ops::new(JoinType::And, false, true));
    assert_eq!(w.value_sql_from_json(&j(r#"["a", 2]"#), true).unwrap().value, "BETWEEN 'a' AND 2");
    assert!(matches!(w.value_sql_from_json(&j("[1, 2, 3]"), true), Err(ArelError::BetweenArrayLength)));
}
