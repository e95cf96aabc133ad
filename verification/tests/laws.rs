use arel::collectors::Sql;
use arel::json::{Json, JsonNumber};
use arel::methods::{table_column_name, Dialect, Model};
use arel::statements::where_clause::{JoinType, Ops, Where};

fn to_json(v: &serde_json::Value) -> Json {
    match v {
        serde_json::Value::Null => Json::Null,
        serde_json::Value::Bool(b) => Json::Bool(*b),
        serde_json::Value::Number(n) => {
            if let Some(u) = n.as_u64() {
                Json::Number(JsonNumber::PosInt(u))
            } else if let Some(i) = n.as_i64() {
                Json::Number(JsonNumber::NegInt(i))
            } else {
                Json::Number(JsonNumber::Float(n.to_string()))
            }
        }
        serde_json::Value::String(s) => Json::String(s.clone()),
        serde_json::Value::Array(a) => Json::Array(a.iter().map(to_json).collect()),
        serde_json::Value::Object(o) => {
            Json::Object(o.iter().map(|(k, v)| (k.clone(), to_json(v))).collect())
        }
    }
}

/// The JSON written in `text`.
fn j(text: &str) -> Json {
    to_json(&serde_json::from_str(text).unwrap())
}

fn users() -> Model {
    Model::new("users", "id", Dialect::MySql)
}


#[test]
fn rendering_appended_pieces_keeps_each_value_with_its_placeholder() {
    let mut sql = Sql::new_with_prepare("a = ?".to_string(), vec![Json::from_i64(1)]);
    let other = Sql::new_with_prepare(" AND b = ?".to_string(), vec![Json::from_str("x")]);
    sql.push_from_sql(&other);
    assert_eq!(sql.to_sql_string().unwrap(), "a = 1 AND b = 'x'");
    let mut plain = Sql::new("c = 2".to_string());
    plain.push_from_sql(&Sql::new_with_prepare(" AND d IN ?".to_string(), vec![j("[1, 2]")]));
    assert_eq!(plain.to_sql_string().unwrap(), "c = 2 AND d IN (1, 2)");
}

#[test]
fn rendering_joined_pieces_joins_their_texts() {
    let parts = vec![
        Sql::new_with_prepare("x = ?".to_string(), vec![Json::Bool(true)]),
        Sql::new("y IS NULL".to_string()),
        Sql::new_with_prepare("z > ?".to_string(), vec![Json::from_i64(-4)]),
    ];
    let mut sql = Sql::default();
    sql.push_from_sqls(&parts, " AND ");
    assert_eq!(sql.value, "x = ? AND y IS NULL AND z > ?");
    assert_eq!(sql.to_sql_string().unwrap(), "x = 1 AND y IS NULL AND z > -4");
}

#[test]
fn text_without_prepared_values_renders_as_it_is() {
    let sql = Sql::new("name = '?'".to_string());
    assert_eq!(sql.to_sql_string().unwrap(), "name = '?'");
}

#[test]
fn table_column_name_is_idempotent() {
    let m = users();
    let once = table_column_name(&m, "age");
    assert_eq!(once, "`users`.`age`");
    assert_eq!(table_column_name(&m, &once), once);
    let star = table_column_name(&m, "*");
    assert_eq!(star, "`users`.*");
    assert_eq!(table_column_name(&m, &star), star);
    assert_eq!(table_column_name(&m, "users.name"), "users.name");
    let lite = Model::new("users", "id", Dialect::Sqlite);
    let once = table_column_name(&lite, "age");
    assert_eq!(once, "\"users\".\"age\"");
    assert_eq!(table_column_name(&lite, &once), once);
    assert_eq!(table_column_name(&lite, "*"), "*");
}

#[test]
fn a_later_limit_or_offset_replaces_an_earlier_one() {
    let m = users();
    let sql = m.query().limit(5).limit(10).to_sql_string().unwrap();
    assert_eq!(sql, "SELECT `users`.* FROM `users` LIMIT 10");
    let sql = m.query().offset(5).offset(20).to_sql_string().unwrap();
    assert_eq!(sql, "SELECT `users`.* FROM `users` OFFSET 20");
    let a = m.query().limit(3).offset(6).to_sql_string().unwrap();
    let b = m.query().offset(6).limit(3).to_sql_string().unwrap();
    assert_eq!(a, b);
    assert_eq!(a, "SELECT `users`.* FROM `users` LIMIT 3 OFFSET 6");
    assert_eq!(m.query().paginate(1, 7).to_sql_string().unwrap(), "SELECT `users`.* FROM `users` LIMIT 7 OFFSET 0");
}

#[test]
fn a_later_join_or_projection_replaces_an_earlier_one() {
    let m = users();
    let sql = m.query().joins(j(r#""left join a on 1 = 1""#)).joins(j(r#""left join b on 2 = 2""#)).to_sql_string().unwrap();
    assert_eq!(sql, "SELECT `users`.* FROM `users` left join b on 2 = 2");
    let sql = m.query().select(j(r#"["name"]"#)).select(j(r#"["age"]"#)).to_sql_string().unwrap();
    assert_eq!(sql, "SELECT `users`.`age` FROM `users`");
}

#[test]
fn building_twice_gives_the_same_sql() {
    let m = users();
    let mut t = m.query();
    t.where_(j(r#"{"x": 1}"#)).update_all(j(r#"{"name": "Tom"}"#));
    let first = t.to_sql_string().unwrap();
    let second = t.to_sql_string().unwrap();
    assert_eq!(first, second);
    let mut d = m.query();
    d.where_(j(r#"{"x": 2}"#)).delete_all(j(r#"{"y": 3}"#));
    assert_eq!(d.to_sql_string().unwrap(), d.to_sql_string().unwrap());
}

#[test]
fn every_model_selects_all_its_columns() {
    let orders = Model::new("orders", "uid", Dialect::MySql);
    assert_eq!(orders.query().to_sql_string().unwrap(), "SELECT `orders`.* FROM `orders`");
    assert_eq!(orders.lock().to_sql_string().unwrap(), "SELECT `orders`.* FROM `orders` FOR UPDATE");
    let lite = Model::new("orders", "uid", Dialect::Sqlite);
    assert_eq!(lite.lock().to_sql_string().unwrap(), "SELECT * FROM \"orders\"");
    assert_eq!(lite.query().to_sql_string().unwrap(), "SELECT * FROM \"orders\"");
}

#[test]
fn deleting_and_updating_all_rows_of_any_model() {
    let orders = Model::new("orders", "uid", Dialect::MySql);
    let sql = orders.delete_all(j(r#"["total > ?", 10]"#)).to_sql_string().unwrap();
    assert_eq!(sql, "DELETE FROM `orders` WHERE total > 10");
    let sql = orders.update_all(j(r#"{"paid": true}"#)).to_sql_string().unwrap();
    assert_eq!(sql, "UPDATE `orders` SET `orders`.`paid` = 1");
    let lite = Model::new("orders", "uid", Dialect::Sqlite);
    let sql = lite.update_all(j(r#"{"paid": false}"#)).to_sql_string().unwrap();
    assert_eq!(sql, "UPDATE \"orders\" SET \"paid\" = 0");
    let sql = lite.delete_all(j(r#"{"paid": false}"#)).to_sql_string().unwrap();
    assert_eq!(sql, "DELETE FROM \"orders\" WHERE \"orders\".\"paid\" = 0");
    let sql = lite.create(j(r#"{"paid": false}"#)).to_sql_string().unwrap();
    assert_eq!(sql, "INSERT INTO \"orders\" (`paid`) VALUES (0)");
}

#[test]
fn adding_a_condition_appends_it() {
    let m = users();
    let sql = m.query().where_(j(r#"{"a": 1}"#)).where_(j(r#"["b = ?", 2]"#)).where_(j(r#"{"c": null}"#)).to_sql_string().unwrap();
    assert_eq!(sql, "SELECT `users`.* FROM `users` WHERE `users`.`a` = 1 AND b = 2 AND `users`.`c` IS NULL");
    let sql = m.query().order(j(r#""a""#)).order(j(r#"{"b": "asc"}"#)).to_sql_string().unwrap();
    assert_eq!(sql, "SELECT `users`.* FROM `users` ORDER BY a, `users`.`b` ASC");
}

#[test]
fn increments_and_decrements_by_negative_amounts() {
    let m = users();
    let sql = m.table().increment("x", -3).where_(j(r#"{"id": 1}"#)).to_sql_string().unwrap();
    assert_eq!(sql, "UPDATE `users` SET `users`.`x` = COALESCE(`users`.`x`, 0) - 3 WHERE `users`.`id` = 1");
    let sql = m.table().decrement("x", -3).where_(j(r#"{"id": 1}"#)).to_sql_string().unwrap();
    assert_eq!(sql, "UPDATE `users` SET `users`.`x` = COALESCE(`users`.`x`, 0) + 3 WHERE `users`.`id` = 1");
}

#[test]
fn raw_conditions_keep_their_values_apart() {
    let m = users();
    let sql = m.query().where_(j(r#"["a = ? AND b = ?", 1, "x'); --"]"#)).to_sql().unwrap();
    assert_eq!(sql.value, "SELECT `users`.* FROM `users` WHERE a = ? AND b = ?");
    assert_eq!(sql.prepare_value.as_ref().map(|v| v.len()), Some(2));
}

#[test]
fn negating_a_condition_negates_its_comparison() {
    let cases = [
        ("null", false, "IS NULL", "IS NOT NULL"),
        (r#""Tom""#, false, "= 'Tom'", "!= 'Tom'"),
        ("[1, 2]", false, "IN (1, 2)", "NOT IN (1, 2)"),
        ("[1, 2]", true, "BETWEEN 1 AND 2", "NOT BETWEEN 1 AND 2"),
        ("true", true, "= 1", "!= 1"),
    ];
    for (value, between, positive, negative) in cases {
        let pos = Where::new(Json::Null, Ops::new(JoinType::And, false, between));
        let neg = Where::new(Json::Null, Ops::new(JoinType::And, true, between));
        assert_eq!(pos.value_sql_from_json(&j(value), true).unwrap().value, positive);
        assert_eq!(neg.value_sql_from_json(&j(value), true).unwrap().value, negative);
    }
}
