use arel::json::{Json, JsonNumber};
use arel::methods::{Dialect, Model};
use arel::statements::where_clause::RangeBound;

fn to_json(v: &serde_json::Value) -> Json {
    match v {
        serde_json::Value::Null => Json::Null,
        serde_json::Value::Bool(b) => Json::Bool(*b),
        serde_json::Value::Number(n) => {
            if let Some(u) = n.as_u64() {
                Json::Number(JsonNumber::PosInt(u))
            } else if let Some(i) = n.as_i64() {
                Json::Number(JsonNumber::NegInt(i))
            } else {
                Json::Number(JsonNumber::Float(n.to_string()))
            }
        }
        serde_json::Value::String(s) => Json::String(s.clone()),
        serde_json::Value::Array(a) => Json::Array(a.iter().map(to_json).collect()),
        serde_json::Value::Object(o) => {
            Json::Object(o.iter().map(|(k, v)| (k.clone(), to_json(v))).collect())
        }
    }
}

/// The JSON written in `text`.
fn j(text: &str) -> Json {
    to_json(&serde_json::from_str(text).unwrap())
}

fn users() -> Model {
    Model::new("users", "id", Dialect::MySql)
}


#[test]
fn test_delete() {
    let user = users();
    let sql = user
        .delete_all(j(r#"{"name": "Tom"}"#))
        .where_range("age", &RangeBound::Included(Json::from_i64(18)), &RangeBound::Unbounded)
        .where_range("login_time", &RangeBound::Included(Json::from_i64(0)), &RangeBound::Included(Json::from_i64(3)))
        .order(j(r#""id desc""#))
        .offset(1)
        .limit(5)
        .to_sql_string()
        .unwrap();
    assert_eq!(sql, "DELETE FROM `users` WHERE `users`.`name` = 'Tom' AND `users`.`age` >= 18 AND `users`.`login_time` BETWEEN 0 AND 3 ORDER BY id desc LIMIT 5 OFFSET 1");
    let sql = user.query().delete_all(j(r#"{"name": "Tom2"}"#)).to_sql_string().unwrap();
    assert_eq!(sql, "DELETE FROM `users` WHERE `users`.`id` IN (SELECT `id` FROM (SELECT `users`.`id` FROM `users` WHERE `users`.`name` = 'Tom2') AS __arel_subquery_temp)");
    let sql = user.query().where_(j(r#"{"x": 1}"#)).delete_all(j(r#"{"name": "Tom"}"#)).to_sql_string().unwrap();
    assert_eq!(sql, "DELETE FROM `users` WHERE `users`.`id` IN (SELECT `id` FROM (SELECT `users`.`id` FROM `users` WHERE `users`.`x` = 1 AND `users`.`name` = 'Tom') AS __arel_subquery_temp)");
}

#[test]
fn test_insert_mysql() {
    let user = users();
    let sql = user.create(j("{}")).to_sql_string().unwrap();
    assert_eq!(sql, "INSERT INTO `users` VALUES ()");

    let sql = user.create(j(r#"{"name": "Tom", "age": 18}"#)).to_sql_string().unwrap();
    assert_eq!(sql, "INSERT INTO `users` (`age`, `name`) VALUES (18, 'Tom')");
}

#[test]
fn test_insert_sqlite() {
    let user = Model::new("users", "id", Dialect::Sqlite);
    let sql = user.create(j("{}")).to_sql_string().unwrap();
    assert_eq!(sql, "INSERT INTO \"users\" DEFAULT VALUES");
}

#[test]
fn test_update() {
    let user = users();
    let sql = user
        .update_all(j(r#"{"name": "Tom"}"#))
        .where_(j(r#"{"x": 1}"#))
        .where_range("age", &RangeBound::Unbounded, &RangeBound::Excluded(Json::from_i64(18)))
        .where_range("login_time", &RangeBound::Included(Json::from_i64(0)), &RangeBound::Included(Json::from_i64(3)))
        .order(j(r#""id desc""#))
        .offset(1)
        .limit(5)
        .to_sql_string()
        .unwrap();
    assert_eq!(sql, "UPDATE `users` SET `users`.`name` = 'Tom' WHERE `users`.`x` = 1 AND `users`.`age` < 18 AND `users`.`login_time` BETWEEN 0 AND 3 ORDER BY id desc LIMIT 5 OFFSET 1");

    let sql = user.query().where_(j(r#"{"x": 1}"#)).update_all(j(r#"{"name": "Tom"}"#)).to_sql_string().unwrap();
    assert_eq!(sql, "UPDATE `users` SET `users`.`name` = 'Tom' WHERE `users`.`id` IN (SELECT `id` FROM (SELECT `users`.`id` FROM `users` WHERE `users`.`x` = 1) AS __arel_subquery_temp)");

    // The same query, built twice: once updated, once kept as a select.
    let mut updated = user.query();
    updated.where_(j(r#"{"x": 1}"#));
    let sql = updated.update_all(j(r#"{"name": "Tom"}"#)).to_sql_string().unwrap();
    assert_eq!(sql, "UPDATE `users` SET `users`.`name` = 'Tom' WHERE `users`.`id` IN (SELECT `id` FROM (SELECT `users`.`id` FROM `users` WHERE `users`.`x` = 1) AS __arel_subquery_temp)");

    let mut query = user.query();
    query.where_(j(r#"{"x": 1}"#));
    let sql = query.to_sql_string().unwrap();
    assert_eq!(sql, "SELECT `users`.* FROM `users` WHERE `users`.`x` = 1");

    let sql = user.table().increment("x", 2).where_(j(r#"{"id": 1}"#)).to_sql_string().unwrap();
    assert_eq!(sql, "UPDATE `users` SET `users`.`x` = COALESCE(`users`.`x`, 0) + 2 WHERE `users`.`id` = 1");
    let sql = user.table().decrement("x", 2).where_(j(r#"{"id": 1}"#)).to_sql_string().unwrap();
    assert_eq!(sql, "UPDATE `users` SET `users`.`x` = COALESCE(`users`.`x`, 0) - 2 WHERE `users`.`id` = 1");
}

#[test]
fn sqlite_subqueries_select_the_key_in_backticks() {
    let user = Model::new("users", "id", Dialect::Sqlite);
    let sql = user.query().where_(j(r#"{"x": 1}"#)).update_all(j(r#"{"name": "Tom"}"#)).to_sql_string().unwrap();
    assert_eq!(sql, "UPDATE \"users\" SET \"name\" = 'Tom' WHERE \"users\".\"id\" IN (SELECT `id` FROM (SELECT \"users\".\"id\" FROM \"users\" WHERE \"users\".\"x\" = 1) AS __arel_subquery_temp)");
    let sql = user.query().delete_all(j(r#"{"name": "Tom2"}"#)).to_sql_string().unwrap();
    assert_eq!(sql, "DELETE FROM \"users\" WHERE \"users\".\"id\" IN (SELECT `id` FROM (SELECT \"users\".\"id\" FROM \"users\" WHERE \"users\".\"name\" = 'Tom2') AS __arel_subquery_temp)");
}

#[test]
fn sqlite_inserts_name_columns_in_backticks() {
    let user = Model::new("users", "id", Dialect::Sqlite);
    let sql = user.create(j(r#"{"name": "Tom", "age": 18}"#)).to_sql_string().unwrap();
    assert_eq!(sql, "INSERT INTO \"users\" (`age`, `name`) VALUES (18, 'Tom')");
}
