use arel::json::{Json, JsonNumber};
use arel::methods::{Dialect, Model};
use arel::statements::where_clause::RangeBound;

fn to_json(v: &serde_json::Value) -> Json {
    match v {
        serde_json::Value::Null => Json::Null,
        serde_json::Value::Bool(b) => Json::Bool(*b),
        serde_json::Value::Number(n) => {
            if let Some(u) = n.as_u64() {
                Json::Number(JsonNumber::PosInt(u))
            } else if let Some(i) = n.as_i64() {
                Json::Number(JsonNumber::NegInt(i))
            } else {
                Json::Number(JsonNumber::Float(n.to_string()))
            }
        }
        serde_json::Value::String(s) => Json::String(s.clone()),
        serde_json::Value::Array(a) => Json::Array(a.iter().map(to_json).collect()),
        serde_json::Value::Object(o) => {
            Json::Object(o.iter().map(|(k, v)| (k.clone(), to_json(v))).collect())
        }
    }
}

/// The JSON written in `text`.
fn j(text: &str) -> Json {
    to_json(&serde_json::from_str(text).unwrap())
}

fn users() -> Model {
    Model::new("users", "id", Dialect::MySql)
}


#[test]
fn test_select() {
    let user = users();
    let sql: String = user.query().to_sql_string().unwrap();
    assert_eq!(sql, "SELECT `users`.* FROM `users`");
    let sql = user.query().distinct().to_sql_string().unwrap();
    assert_eq!(sql, "SELECT DISTINCT `users`.* FROM `users`");
    let sql = user.query().select(j(r#"["name", "age"]"#)).to_sql_string().unwrap();
    assert_eq!(sql, "SELECT `users`.`name`, `users`.`age` FROM `users`");
    let sql = user.query().select(j(r#"["name", "age"]"#)).distinct().to_sql_string().unwrap();
    assert_eq!(sql, "SELECT DISTINCT `users`.`name`, `users`.`age` FROM `users`");
    let sql = user.query().select(j(r#""name, age""#)).to_sql_string().unwrap();
    assert_eq!(sql, "SELECT name, age FROM `users`");
    let sql = user.query().select(j(r#""name, age""#)).distinct().to_sql_string().unwrap();
    assert_eq!(sql, "SELECT DISTINCT name, age FROM `users`");
    let sql = user.query().count().to_sql_string().unwrap();
    assert_eq!(sql, "SELECT COUNT(`users`.*) FROM `users`");
    let sql = user.query().sum("price").to_sql_string().unwrap();
    assert_eq!(sql, "SELECT SUM(`users`.`price`) FROM `users`");
    let sql = user.query().avg("price").to_sql_string().unwrap();
    assert_eq!(sql, "SELECT AVG(`users`.`price`) FROM `users`");
    let sql = user.query().min("price").to_sql_string().unwrap();
    assert_eq!(sql, "SELECT MIN(`users`.`price`) FROM `users`");
    let sql = user.query().max("price").to_sql_string().unwrap();
    assert_eq!(sql, "SELECT MAX(`users`.`price`) FROM `users`");
}

#[test]
fn test_where() {
    let user = users();
    let sql = user
        .query()
        .where_(j(r#"{"name": "Tom"}"#))
        .where_(j(r#"["active = ?", true]"#))
        .where_not(j(r#"{"status": [1, 2, 3]}"#))
        .where_between(j(r#"{"created_at": ["2021-12-01 00:00:00", "2021-12-31 23:59:59"]}"#))
        .where_or(j(r#"{"login": false, "phone": null}"#))
        .to_sql_string()
        .unwrap();
    assert_eq!(sql, "SELECT `users`.* FROM `users` WHERE `users`.`name` = 'Tom' AND active = 1 AND `users`.`status` NOT IN (1, 2, 3) AND `users`.`created_at` BETWEEN '2021-12-01 00:00:00' AND '2021-12-31 23:59:59' AND (`users`.`login` = 0 OR `users`.`phone` IS NULL)");

    let sql = user
        .query()
        .where_not(j(r#"{"name": "Tom", "status": [1, 2, 3]}"#))
        .where_(j(r#"["active = ?", true]"#))
        .to_sql_string()
        .unwrap();
    assert_eq!(sql, "SELECT `users`.* FROM `users` WHERE `users`.`name` != 'Tom' AND `users`.`status` NOT IN (1, 2, 3) AND active = 1");

    let sql = user
        .query()
        .joins(j(r#""left join orders on users.id = orders.user_id""#))
        .where_(j(r#"{"name": "Tom"}"#))
        .to_sql_string()
        .unwrap();
    assert_eq!(sql, "SELECT `users`.* FROM `users` left join orders on users.id = orders.user_id WHERE `users`.`name` = 'Tom'");

    let sql = user
        .query()
        .where_range("age", &RangeBound::Included(Json::from_i64(18)), &RangeBound::Excluded(Json::from_i64(25)))
        .to_sql_string()
        .unwrap();
    assert_eq!(sql, "SELECT `users`.* FROM `users` WHERE `users`.`age` >= 18 AND `users`.`age` < 25");
    let sql = user
        .query()
        .where_range("age", &RangeBound::Included(Json::from_i64(18)), &RangeBound::Unbounded)
        .to_sql_string()
        .unwrap();
    assert_eq!(sql, "SELECT `users`.* FROM `users` WHERE `users`.`age` >= 18");
    let sql = user
        .query()
        .where_range("age", &RangeBound::Unbounded, &RangeBound::Included(Json::from_i64(25)))
        .to_sql_string()
        .unwrap();
    assert_eq!(sql, "SELECT `users`.* FROM `users` WHERE `users`.`age` <= 25");
    let sql = user
        .query()
        .where_range("age", &RangeBound::Included(Json::from_i64(18)), &RangeBound::Included(Json::from_i64(25)))
        .to_sql_string()
        .unwrap();
    assert_eq!(sql, "SELECT `users`.* FROM `users` WHERE `users`.`age` BETWEEN 18 AND 25");

    let start = Json::from_str("2021-01-01T00:00:00Z");
    let end = Json::from_str("2021-12-31T23:59:59Z");
    let sql = user
        .query()
        .where_range("created_at", &RangeBound::Included(start), &RangeBound::Included(end))
        .to_sql_string()
        .unwrap();
    assert_eq!(sql, "SELECT `users`.* FROM `users` WHERE `users`.`created_at` BETWEEN '2021-01-01T00:00:00Z' AND '2021-12-31T23:59:59Z'");
}

#[test]
fn test_lock() {
    let user = users();
    let sql = user.lock().where_(j(r#"{"x": 1}"#)).to_sql_string().unwrap();
    assert_eq!(sql, "SELECT `users`.* FROM `users` WHERE `users`.`x` = 1 FOR UPDATE");
}

#[test]
fn test_group_having() {
    let user = users();
    let sql = user.query().group(j(r#"["name", "email"]"#)).group(j(r#""age""#)).to_sql_string().unwrap();
    assert_eq!(sql, "SELECT `users`.* FROM `users` GROUP BY `users`.`name`, `users`.`email`, age");

    let sql = user
        .query()
        .group(j(r#""age""#))
        .having_not(j(r#"{"x": 1}"#))
        .having(j(r#"["y > ?", 2]"#))
        .having_range("z", &RangeBound::Included(Json::from_i64(18)), &RangeBound::Unbounded)
        .to_sql_string()
        .unwrap();
    assert_eq!(sql, "SELECT `users`.* FROM `users` GROUP BY age HAVING `users`.`x` != 1 AND y > 2 AND `users`.`z` >= 18");
}

#[test]
fn test_order() {
    let user = users();
    let sql = user.query().order(j(r#"{"name": "desc"}"#)).order(j(r#""age ASC""#)).to_sql_string().unwrap();
    assert_eq!(sql, "SELECT `users`.* FROM `users` ORDER BY `users`.`name` DESC, age ASC");
}

#[test]
fn test_limit_offset() {
    let user = users();
    let sql = user.query().limit(10).to_sql_string().unwrap();
    assert_eq!(sql, "SELECT `users`.* FROM `users` LIMIT 10");
    let sql = user.query().offset(10).to_sql_string().unwrap();
    assert_eq!(sql, "SELECT `users`.* FROM `users` OFFSET 10");
    let sql = user.query().paginate(5, 10).to_sql_string().unwrap();
    assert_eq!(sql, "SELECT `users`.* FROM `users` LIMIT 10 OFFSET 40");
}
