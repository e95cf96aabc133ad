use arel::error::ArelError;
use arel::json::{Json, JsonNumber};
use arel::methods::{Dialect, Model};
use arel::records::{
    attr_name_to_table_column_name, attr_names, changed_attrs_json, delete_statement, first_missing_field,
    locking_step, persisted_locking_version, save_statement, table_column_name_to_attr_name, table_column_names, update_outcome, AttrState,
    Field, SaveStatement,
};

fn to_json(v: &serde_json::Value) -> Json {
    match v {
        serde_json::Value::Null => Json::Null,
        serde_json::Value::Bool(b) => Json::Bool(*b),
        serde_json::Value::Number(n) => {
            if let Some(u) = n.as_u64() {
                Json::Number(JsonNumber::PosInt(u))
            } else if let Some(i) = n.as_i64() {
                Json::Number(JsonNumber::NegInt(i))
            } else {
                Json::Number(JsonNumber::Float(n.to_string()))
            }
        }
        serde_json::Value::String(s) => Json::String(s.clone()),
        serde_json::Value::Array(a) => Json::Array(a.iter().map(to_json).collect()),
        serde_json::Value::Object(o) => {
            Json::Object(o.iter().map(|(k, v)| (k.clone(), to_json(v))).collect())
        }
    }
}

/// The JSON written in `text`.
fn j(text: &str) -> Json {
    to_json(&serde_json::from_str(text).unwrap())
}

fn users() -> Model {
    Model::new("users", "id", Dialect::MySql)
}


fn fields() -> Vec<Field> {
    vec![
        Field { attr_name: "id".to_string(), column_name: "id".to_string(), required: false },
        Field { attr_name: "name".to_string(), column_name: "name".to_string(), required: true },
        Field { attr_name: "desc2".to_string(), column_name: "desc".to_string(), required: true },
    ]
}

fn attr(name: &str, current: Option<&str>, persisted: Option<&str>) -> AttrState {
    AttrState { attr_name: name.to_string(), current: current.map(j), persisted: persisted.map(j) }
}

#[test]
fn fields_map_attributes_to_columns() {
    let f = fields();
    assert_eq!(attr_name_to_table_column_name(&f, "desc2").unwrap(), "desc");
    assert_eq!(attr_name_to_table_column_name(&f, "name").unwrap(), "name");
    assert_eq!(attr_name_to_table_column_name(&f, "age"), Err(ArelError::AttrNotFound));
    assert_eq!(table_column_name_to_attr_name(&f, "desc").unwrap(), "desc2");
    assert_eq!(table_column_name_to_attr_name(&f, "desc2"), Err(ArelError::ColumnNotFound));
    assert_eq!(table_column_names(&f), vec!["id", "name", "desc"]);
    assert_eq!(attr_names(&f), vec!["id", "name", "desc2"]);
}

#[test]
fn required_fields_need_values() {
    let f = fields();
    assert_eq!(first_missing_field(&f, &vec![None, Some(j("1")), Some(j("2"))]), None);
    assert_eq!(first_missing_field(&f, &vec![Some(j("1")), Some(j("1")), None]), Some(2));
    assert_eq!(first_missing_field(&f, &vec![None, None, None]), Some(1));
}

#[test]
fn changed_attributes_become_a_sorted_object() {
    let f = fields();
    let attrs = vec![
        attr("id", Some("1"), Some("1")),
        attr("name", Some(r#""Tom""#), Some(r#""Jim""#)),
        attr("desc2", None, Some(r#""old""#)),
    ];
    let changes = changed_attrs_json(&f, &attrs).unwrap().unwrap();
    let m = users();
    let sql = m.update_all(changes).to_sql_string().unwrap();
    assert_eq!(sql, "UPDATE `users` SET `users`.`desc` = NULL, `users`.`name` = 'Tom'");
    let unchanged = vec![attr("id", Some("1"), Some("1")), attr("name", None, None)];
    assert!(changed_attrs_json(&f, &unchanged).unwrap().is_none());
    let unknown = vec![attr("age", Some("3"), None)];
    assert!(matches!(changed_attrs_json(&f, &unknown), Err(ArelError::AttrNotFound)));
    let again = vec![attr("name", Some(r#""A""#), None), attr("name", Some(r#""B""#), None)];
    let sql = m.create(changed_attrs_json(&f, &again).unwrap().unwrap()).to_sql_string().unwrap();
    assert_eq!(sql, "INSERT INTO `users` (`name`) VALUES ('B')");
}

#[test]
fn saving_updates_a_saved_record_and_inserts_a_new_one() {
    let m = users();
    let step = locking_step("lock_version", Some(3));
    assert_eq!(step.next_version, 4);
    let plan = save_statement(&m, Some(j(r#"{"name": "Tom"}"#)), Some(Json::from_i64(1)), step.condition);
    match plan {
        Some(SaveStatement::Update(mut t)) => assert_eq!(
            t.to_sql_string().unwrap(),
            "UPDATE `users` SET `users`.`name` = 'Tom' WHERE `users`.`id` = 1 AND `users`.`lock_version` = 3"
        ),
        _ => panic!("an update was expected"),
    }
    let fresh = locking_step("lock_version", None);
    assert_eq!(fresh.next_version, 0);
    assert!(fresh.condition.is_none());
    match save_statement(&m, Some(j(r#"{"name": "Tom"}"#)), None, fresh.condition) {
        Some(SaveStatement::Create(mut t)) => {
            assert_eq!(t.to_sql_string().unwrap(), "INSERT INTO `users` (`name`) VALUES ('Tom')")
        }
        _ => panic!("an insert was expected"),
    }
    assert!(save_statement(&m, None, Some(Json::from_i64(1)), None).is_none());
    assert_eq!(update_outcome(0, true), Err(ArelError::StaleRecord));
    assert_eq!(update_outcome(0, false), Ok(()));
    assert_eq!(update_outcome(2, true), Ok(()));
}

#[test]
fn deleting_needs_a_saved_record() {
    let m = users();
    let sql = delete_statement(&m, Some(Json::from_i64(5))).unwrap().to_sql_string().unwrap();
    assert_eq!(sql, "DELETE FROM `users` WHERE `users`.`id` = 5");
    assert!(matches!(delete_statement(&m, None), Err(ArelError::NotPersisted)));
}

#[test]
fn json_values_compare_by_content() {
    assert!(j(r#"[1, {"a": null, "b": "x"}]"#).same_value(&j(r#"[1, {"b": "x", "a": null}]"#)));
    assert!(!j("[1, 2]").same_value(&j("[1, 3]")));
    assert!(!j("1").same_value(&j("1.0")));
    assert!(!j(r#"{"a": 1}"#).same_value(&j(r#"{"b": 1}"#)));
}

#[test]
fn saved_locking_versions_are_read_as_i32() {
    assert_eq!(persisted_locking_version(&None), Ok(None));
    assert_eq!(persisted_locking_version(&Some(Json::Null)), Ok(None));
    assert_eq!(persisted_locking_version(&Some(j("3"))), Ok(Some(3)));
    assert_eq!(persisted_locking_version(&Some(j("-4"))), Ok(Some(-4)));
    assert_eq!(persisted_locking_version(&Some(j("2147483647"))), Ok(Some(i32::MAX)));
    assert_eq!(persisted_locking_version(&Some(j("2147483648"))), Err(ArelError::InvalidLockingVersion));
    assert_eq!(persisted_locking_version(&Some(j("-2147483649"))), Err(ArelError::InvalidLockingVersion));
    assert_eq!(persisted_locking_version(&Some(j("\"x\""))), Err(ArelError::InvalidLockingVersion));
}
