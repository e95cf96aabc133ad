use arel::json::{Json, JsonNumber};
use arel::methods::{Dialect, Model};
use arel::statements::group::Group;
use arel::statements::helpers::and;
use arel::statements::join::Join;
use arel::statements::lock::Lock;
use arel::statements::offset::Offset;
use arel::statements::order::Order;
use arel::statements::select::Select;
use arel::statements::update::Update;
use arel::statements::where_clause::{JoinType, Ops, Where};
use arel::statements::StatementAble;

fn to_json(v: &serde_json::Value) -> Json {
    match v {
        serde_json::Value::Null => Json::Null,
        serde_json::Value::Bool(b) => Json::Bool(*b),
        serde_json::Value::Number(n) => {
            if let Some(u) = n.as_u64() {
                Json::Number(JsonNumber::PosInt(u))
            } else if let Some(i) = n.as_i64() {
                Json::Number(JsonNumber::NegInt(i))
            } else {
                Json::Number(JsonNumber::Float(n.to_string()))
            }
        }
        serde_json::Value::String(s) => Json::String(s.clone()),
        serde_json::Value::Array(a) => Json::Array(a.iter().map(to_json).collect()),
        serde_json::Value::Object(o) => {
            Json::Object(o.iter().map(|(k, v)| (k.clone(), to_json(v))).collect())
        }
    }
}

/// The JSON written in `text`.
fn j(text: &str) -> Json {
    to_json(&serde_json::from_str(text).unwrap())
}

fn users() -> Model {
    Model::new("users", "id", Dialect::MySql)
}

#[test]
fn group_to_sql() {
    let m = users();
    let group = Group::new(j(r#""name, age""#));
    assert_eq!(group.to_sql_string(&m).unwrap(), "name, age");

    let group = Group::new(j(r#"["name", "age"]"#));
    assert_eq!(group.to_sql_string(&m).unwrap(), "`users`.`name`, `users`.`age`");
}

#[test]
fn and_to_sql() {
    let m = users();
    let wheres = vec![
        Where::new(j(r#"{"profile": null}"#), Ops::new(JoinType::And, false, false)),
        Where::new(j(r#"["name = ?", "Tom"]"#), Ops::new(JoinType::And, false, false)),
    ];
    assert_eq!(and::to_sql_string(&wheres, &m).unwrap(), "`users`.`profile` IS NULL AND name = 'Tom'");
}

#[test]
fn join_to_sql() {
    let m = users();
    let join = Join::new(j(r#""LEFT JOINS orders ON users.id = orders.user_id""#));
    assert_eq!(join.to_sql_string(&m).unwrap(), "LEFT JOINS orders ON users.id = orders.user_id");

    let join = Join::new(j(r#"["LEFT JOINS orders ON users.id = orders.user_id"]"#));
    assert_eq!(join.to_sql_string(&m).unwrap(), "LEFT JOINS orders ON users.id = orders.user_id");
    let join = Join::new(j(
        r#"["LEFT JOINS ? ON users.id = ? AND users.age = ?", "orders", "orders.user_id", 18]"#,
    ));
    assert_eq!(
        join.to_sql_string(&m).unwrap(),
        "LEFT JOINS orders ON users.id = orders.user_id AND users.age = 18"
    );
}

#[test]
fn lock_to_sql() {
    let m = users();
    let lock = Lock::new(j(r#""FOR UPDATE""#));
    assert_eq!(lock.to_sql_string(&m).unwrap(), "FOR UPDATE");
}

#[test]
fn offset_to_sql() {
    let m = users();
    let offset = Offset::new(10);
    assert_eq!(offset.to_sql_string(&m).unwrap(), "OFFSET 10");
}

#[test]
fn order_to_sql() {
    let m = users();
    let order = Order::new(j(r#""name desc""#));
    assert_eq!(order.to_sql_string(&m).unwrap(), "name desc");

    let order = Order::new(j(r#"["name desc", "age asc"]"#));
    assert_eq!(order.to_sql_string(&m).unwrap(), "name desc, age asc");
    let order = Order::new(j(r#"{"name": "desc", "age": "asc"}"#));
    assert_eq!(order.to_sql_string(&m).unwrap(), "`users`.`age` ASC, `users`.`name` DESC");
}

#[test]
fn select_to_sql() {
    let m = users();
    let select = Select::new(j(r#""name, age""#), false);
    assert_eq!(select.to_sql_string(&m).unwrap(), "name, age");

    let select = Select::new(j(r#"["name", "age"]"#), false);
    assert_eq!(select.to_sql_string(&m).unwrap(), "`users`.`name`, `users`.`age`");
}

#[test]
fn update_to_sql() {
    let m = users();
    let update = Update::new(j(r#"{"name": "Tome", "age": 18, "active": true, "profile": null}"#));
    assert_eq!(
        update.to_sql_string(&m).unwrap(),
        "`users`.`active` = 1, `users`.`age` = 18, `users`.`name` = 'Tome', `users`.`profile` = NULL"
    );

    let update = Update::new(j(r#""users.active = 1""#));
    assert_eq!(update.to_sql_string(&m).unwrap(), "users.active = 1");

    let update = Update::new(j(r#"["users.active = ?", 1]"#));
    assert_eq!(update.to_sql_string(&m).unwrap(), "users.active = 1");
}

#[test]
fn where_to_sql() {
    let m = users();
    let w = Where::new(
        j(r#"{"name": "Tom", "age": 18, "gender": ["male", "female"], "role": [1, 2], "active": true, "profile": null}"#),
        Ops::new(JoinType::And, false, false),
    );
    assert_eq!(w.to_sql_string(&m).unwrap(), "`users`.`active` = 1 AND `users`.`age` = 18 AND `users`.`gender` IN ('male', 'female') AND `users`.`name` = 'Tom' AND `users`.`profile` IS NULL AND `users`.`role` IN (1, 2)");
    let w = Where::new(
        j(r#"{"name": "Tom", "age": 18, "gender": ["male", "female"], "active": true, "profile": null}"#),
        Ops::new(JoinType::And, true, false),
    );
    assert_eq!(w.to_sql_string(&m).unwrap(), "`users`.`active` != 1 AND `users`.`age` != 18 AND `users`.`gender` NOT IN ('male', 'female') AND `users`.`name` != 'Tom' AND `users`.`profile` IS NOT NULL");

    let w = Where::new(j(r#""age > 18""#), Ops::new(JoinType::And, false, false));
    assert_eq!(w.to_sql_string(&m).unwrap(), "age > 18");

    let w = Where::new(j(r#"["age > 18"]"#), Ops::new(JoinType::And, false, false));
    assert_eq!(w.to_sql_string(&m).unwrap(), "age > 18");
    let w = Where::new(
        j(r#"["name = ? AND age > ? AND gender in ? AND enable = ?", "Tom", 18, ["male", "female"], true]"#),
        Ops::new(JoinType::And, false, false),
    );
    assert_eq!(w.to_sql_string(&m).unwrap(), "name = 'Tom' AND age > 18 AND gender in ('male', 'female') AND enable = 1");
    assert_eq!(w.to_sql(&m).unwrap().value, "name = ? AND age > ? AND gender in ? AND enable = ?");

    let w = Where::new(j(r#"{"age": [18, 30]}"#), Ops::new(JoinType::And, false, true));
    assert_eq!(w.to_sql_string(&m).unwrap(), "`users`.`age` BETWEEN 18 AND 30");
    let w = Where::new(j(r#"{"age": [18, 30]}"#), Ops::new(JoinType::And, true, true));
    assert_eq!(w.to_sql_string(&m).unwrap(), "`users`.`age` NOT BETWEEN 18 AND 30");
    let w = Where::new(j(r#"["age", 19, 31]"#), Ops::new(JoinType::And, false, true));
    assert_eq!(w.to_sql_string(&m).unwrap(), "`users`.`'age'` BETWEEN 19 AND 31");
    let w = Where::new(j(r#"["age", 18, 30]"#), Ops::new(JoinType::And, true, true));
    assert_eq!(w.to_sql_string(&m).unwrap(), "`users`.`'age'` NOT BETWEEN 18 AND 30");
    let w = Where::new(j(r#"{"age": [18, 30], "name": "Tom"}"#), Ops::new(JoinType::Or, false, false));
    assert_eq!(w.to_sql_string(&m).unwrap(), "(`users`.`age` IN (18, 30) OR `users`.`name` = 'Tom')");
    let w = Where::new(j(r#"{"age": [18, 30], "name": "Tom"}"#), Ops::new(JoinType::Or, true, false));
    assert_eq!(w.to_sql_string(&m).unwrap(), "(`users`.`age` NOT IN (18, 30) OR `users`.`name` != 'Tom')");
    let w = Where::new(j(r#"{"age": [18, 30], "name": "Tom"}"#), Ops::new(JoinType::Or, true, true));
    assert_eq!(w.to_sql_string(&m).unwrap(), "(`users`.`age` NOT BETWEEN 18 AND 30 OR `users`.`name` != 'Tom')");
    let w = Where::new(j(r#"["age", 18, 30]"#), Ops::new(JoinType::Or, true, true));
    assert_eq!(w.to_sql_string(&m).unwrap(), "(`users`.`'age'` NOT BETWEEN 18 AND 30)");
}
