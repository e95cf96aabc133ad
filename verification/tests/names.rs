use arel::associations::{
    belongs_to_association, belongs_to_join_string, belongs_to_query, default_foreign_key, default_join_table,
    has_and_belongs_to_many_association, has_and_belongs_to_many_join_string, has_and_belongs_to_many_query,
    has_column, has_many_association, has_many_join_string, has_many_query, has_many_through_association,
    has_many_through_join_string, has_many_through_query, has_one_query, has_one_through_query, through_chain, AssociationArgs, AssociationKind, Declarations,
};
use arel::error::ArelError;
use arel::generators::{migration_dir, migration_file, migration_table_name, model_migration_file, model_table_name, remove_to};
use arel::json::Json;
use arel::methods::{quote_table_name, type_to_pluralize_string, Dialect, Model};

fn args(name: &str, struct_name: Option<&str>) -> AssociationArgs {
    AssociationArgs {
        name: name.to_string(),
        struct_name: struct_name.map(|s| s.to_string()),
        foreign_key: None,
        association_foreign_key: None,
        join_table: None,
        through: None,
        source: None,
    }
}

#[test]
fn type_names_become_table_names() {
    assert_eq!(type_to_pluralize_string("arel::UserTable"), "user_tables");
    assert_eq!(type_to_pluralize_string("my_app::models::OrderArel"), "orders");
    assert_eq!(type_to_pluralize_string("User"), "users");
    assert_eq!(quote_table_name("users", Dialect::MySql), "`users`");
    assert_eq!(quote_table_name("users", Dialect::Sqlite), "\"users\"");
}

#[test]
fn generators_name_their_files() {
    assert_eq!(migration_dir("/srv/app"), "/srv/app/migrations");
    assert_eq!(model_table_name("UserProfile"), "user_profiles");
    assert_eq!(model_migration_file("/m", "20211231235959", "User"), "/m/20211231235959_create_users");
    assert_eq!(migration_file("/m", "20211231235959", "add_name_to_users"), "/m/20211231235959_add_name_to_users");
}

#[test]
fn migrations_name_their_tables() {
    assert_eq!(migration_table_name("add_name_to_users"), Some("users".to_string()));
    assert_eq!(migration_table_name("move_to_to_archive"), Some("archive".to_string()));
    assert_eq!(migration_table_name("create_users"), None);
    assert_eq!(remove_to("to_user_to_s"), "user_s");
}

#[test]
fn associations_take_default_keys() {
    assert_eq!(default_foreign_key("UserProfile"), "user_profile_id");
    let a = has_many_association("User", &args("orders", Some("Order"))).unwrap();
    assert_eq!((a.name.as_str(), a.struct_name.as_str(), a.foreign_key.as_str()), ("orders", "Order", "user_id"));
    let b = belongs_to_association(&args("user", Some("User"))).unwrap();
    assert_eq!(b.foreign_key, "user_id");
    let mut custom = args("owner", Some("User"));
    custom.foreign_key = Some("owner_key".to_string());
    assert_eq!(belongs_to_association(&custom).unwrap().foreign_key, "owner_key");
    assert_eq!(has_many_association("User", &args("orders", None)).unwrap_err(), ArelError::MissingAssociationStruct);
    let h = has_and_belongs_to_many_association("User", &args("roles", Some("Role"))).unwrap();
    assert_eq!(h.join_table, "roles_users");
    assert_eq!(h.foreign_key, "user_id");
    assert_eq!(h.association_foreign_key, "role_id");
    assert_eq!(default_join_table("Admin", "users"), "admins_users");
}

#[test]
fn associations_join_their_tables() {
    let columns = vec!["id".to_string(), "user_id".to_string()];
    assert!(has_column(&columns, "user_id"));
    assert!(!has_column(&columns, "user"));
    assert_eq!(
        has_many_join_string("users", "id", "orders", &columns, "user_id"),
        "INNER JOIN users ON orders.user_id = users.id"
    );
    assert_eq!(
        belongs_to_join_string("orders", &columns, "user_id", "users", "id"),
        "INNER JOIN orders ON users.id = orders.user_id"
    );
    let h = has_and_belongs_to_many_association("User", &args("roles", Some("Role"))).unwrap();
    assert_eq!(
        has_and_belongs_to_many_join_string("users", "id", "roles", "id", &h),
        "INNER JOIN roles_users ON roles.id = roles_users.role_id INNER JOIN users ON roles_users.user_id = users.id"
    );
}

#[test]
fn associations_select_what_they_reach() {
    let orders = Model::new("orders", "id", Dialect::MySql);
    let sql = has_many_query(&orders, "user_id", Some(Json::from_i64(7))).unwrap().to_sql_string().unwrap();
    assert_eq!(sql, "SELECT `orders`.* FROM `orders` WHERE `orders`.`user_id` = 7");
    assert!(matches!(has_many_query(&orders, "user_id", None), Err(ArelError::NotPersisted)));
    let users = Model::new("users", "id", Dialect::MySql);
    let sql = belongs_to_query(&users, Some(Json::from_i64(3))).unwrap().to_sql_string().unwrap();
    assert_eq!(sql, "SELECT `users`.* FROM `users` WHERE `users`.`id` = 3");
    assert!(matches!(belongs_to_query(&users, None), Err(ArelError::BlankForeignKey)));
    let roles = Model::new("roles", "id", Dialect::MySql);
    let h = has_and_belongs_to_many_association("User", &args("roles", Some("Role"))).unwrap();
    let sql = has_and_belongs_to_many_query(&roles, &h, Some(Json::from_i64(1))).unwrap().to_sql_string().unwrap();
    assert_eq!(sql, "SELECT `roles`.* FROM `roles` INNER JOIN roles_users ON roles.id = roles_users.role_id WHERE roles_users.user_id = 1");
}

#[test]
fn through_associations_follow_their_chain() {
    let orders = args("orders", Some("Order"));
    let mut items = args("items", Some("Item"));
    items.through = Some("orders".to_string());
    let mut tags = args("tags", Some("Tag"));
    tags.through = Some("items".to_string());
    tags.source = Some("labels".to_string());
    let d = Declarations { has_and_belongs_to_many: vec![], has_many: vec![orders, items, tags], has_one: vec![] };
    assert_eq!(through_chain(&d, "orders"), Some(vec![(AssociationKind::HasMany, 0)]));
    assert_eq!(through_chain(&d, "items"), Some(vec![(AssociationKind::HasMany, 1), (AssociationKind::HasMany, 0)]));
    assert_eq!(through_chain(&d, "nothing"), Some(vec![]));

    let t = has_many_through_association("User", &d.has_many[1], &d).unwrap().unwrap();
    assert_eq!((t.name.as_str(), t.struct_name.as_str()), ("items", "Item"));
    assert_eq!(t.steps.len(), 1);
    assert_eq!((t.steps[0].struct_name.as_str(), t.steps[0].association_name.as_str()), ("Order", "items"));
    assert_eq!((t.last_kind, t.last_index, t.last_foreign_key.as_str()), (AssociationKind::HasMany, 0, "user_id"));

    let t = has_many_through_association("User", &d.has_many[2], &d).unwrap().unwrap();
    assert_eq!(t.steps.len(), 2);
    assert_eq!((t.steps[0].struct_name.as_str(), t.steps[0].association_name.as_str()), ("Item", "labels"));
    assert_eq!((t.steps[1].struct_name.as_str(), t.steps[1].association_name.as_str()), ("Order", "items"));
    assert!(has_many_through_association("User", &d.has_many[0], &d).unwrap().is_none());

    let mut a = args("a", Some("A"));
    a.through = Some("b".to_string());
    let mut b = args("b", Some("B"));
    b.through = Some("a".to_string());
    let looping = Declarations { has_and_belongs_to_many: vec![], has_many: vec![a, b], has_one: vec![] };
    assert_eq!(through_chain(&looping, "a"), None);

    let mut lost = args("items", Some("Item"));
    lost.through = Some("orders".to_string());
    let broken = Declarations { has_and_belongs_to_many: vec![], has_many: vec![args("orders", None), lost], has_one: vec![] };
    assert_eq!(has_many_through_association("User", &broken.has_many[1], &broken).unwrap_err(), ArelError::MissingAssociationStruct);
}

#[test]
fn through_associations_join_and_select() {
    let step_joins = vec!["INNER JOIN orders ON items.order_id = orders.id".to_string()];
    assert_eq!(
        has_many_through_join_string(&step_joins, "orders", "id", "user_id", None, "users", "id"),
        "INNER JOIN orders ON items.order_id = orders.id INNER JOIN users ON orders.user_id = users.id"
    );
    let items = Model::new("items", "id", Dialect::MySql);
    let sql = has_many_through_query(&items, &step_joins, "orders", "id", "user_id", None, Some(Json::from_i64(1)))
        .unwrap()
        .to_sql_string()
        .unwrap();
    assert_eq!(sql, "SELECT `items`.* FROM `items` INNER JOIN orders ON items.order_id = orders.id WHERE orders.user_id = 1");
    let h = has_and_belongs_to_many_association("Order", &args("tags", Some("Tag"))).unwrap();
    assert_eq!(
        has_many_through_join_string(&step_joins, "orders", "id", "user_id", Some(&h), "users", "id"),
        "INNER JOIN orders ON items.order_id = orders.id INNER JOIN orders_tags ON orders.id = orders_tags.tag_id INNER JOIN users ON orders_tags.order_id = users.id"
    );
    assert!(matches!(
        has_many_through_query(&items, &step_joins, "orders", "id", "user_id", Some(&h), None),
        Err(ArelError::NotPersisted)
    ));
}

fn sqlite(table: &str) -> Model {
    Model::new(table, "id", Dialect::Sqlite)
}

fn habtm(self_struct: &str, name: &str, struct_name: &str, join_table: &str, fk: &str, afk: &str) -> arel::associations::JoinTableAssociation {
    let mut a = args(name, Some(struct_name));
    a.join_table = Some(join_table.to_string());
    a.foreign_key = Some(fk.to_string());
    a.association_foreign_key = Some(afk.to_string());
    has_and_belongs_to_many_association(self_struct, &a).unwrap()
}

#[test]
fn test_association() {
    let one = || Some(Json::from_i64(1));
    let columns = vec!["id".to_string(), "user_id".to_string(), "parent_id".to_string(), "order_id".to_string(),
        "order_shop_id".to_string(), "owner_wallet_id".to_string(), "avatar_id".to_string()];

    // belongs_to
    let sql = belongs_to_query(&sqlite("users"), one()).unwrap().to_sql_string().unwrap();
    assert_eq!(sql, "SELECT * FROM \"users\" WHERE \"users\".\"id\" = 1");
    assert_eq!(belongs_to_join_string("orders", &columns, "user_id", "users", "id"), "INNER JOIN orders ON users.id = orders.user_id");

    // has_many
    let sql = has_many_query(&sqlite("users"), "parent_id", one()).unwrap().to_sql_string().unwrap();
    assert_eq!(sql, "SELECT * FROM \"users\" WHERE \"users\".\"parent_id\" = 1");
    assert_eq!(has_many_join_string("users", "id", "users", &columns, "parent_id"), "INNER JOIN users ON users.parent_id = users.id");
    let sql = has_many_query(&sqlite("orders"), "user_id", one()).unwrap().to_sql_string().unwrap();
    assert_eq!(sql, "SELECT * FROM \"orders\" WHERE \"orders\".\"user_id\" = 1");
    assert_eq!(has_many_join_string("users", "id", "orders", &columns, "user_id"), "INNER JOIN users ON orders.user_id = users.id");

    // has_one
    let sql = has_one_query(&sqlite("wallets"), "user_id", one()).unwrap().to_sql_string().unwrap();
    assert_eq!(sql, "SELECT * FROM \"wallets\" WHERE \"wallets\".\"user_id\" = 1 LIMIT 1");
    assert_eq!(has_many_join_string("users", "id", "wallets", &columns, "user_id"), "INNER JOIN users ON wallets.user_id = users.id");
    let sql = has_one_query(&sqlite("wallet_extra_infos"), "owner_wallet_id", one()).unwrap().to_sql_string().unwrap();
    assert_eq!(sql, "SELECT * FROM \"wallet_extra_infos\" WHERE \"wallet_extra_infos\".\"owner_wallet_id\" = 1 LIMIT 1");
    assert_eq!(
        has_many_join_string("wallets", "id", "wallet_extra_infos", &columns, "owner_wallet_id"),
        "INNER JOIN wallets ON wallet_extra_infos.owner_wallet_id = wallets.id"
    );

    // has_many through
    let order_shops_join = has_many_join_string("orders", "id", "order_shops", &columns, "order_id");
    let order_products_join = has_many_join_string("order_shops", "id", "order_shop_products", &columns, "order_shop_id");
    let steps = vec![order_shops_join.clone()];
    let sql = has_many_through_query(&sqlite("order_shops"), &steps, "orders", "id", "user_id", None, one()).unwrap().to_sql_string().unwrap();
    assert_eq!(sql, "SELECT * FROM \"order_shops\" INNER JOIN orders ON order_shops.order_id = orders.id WHERE orders.user_id = 1");
    assert_eq!(
        has_many_through_join_string(&steps, "orders", "id", "user_id", None, "users", "id"),
        "INNER JOIN orders ON order_shops.order_id = orders.id INNER JOIN users ON orders.user_id = users.id"
    );
    let steps = vec![order_products_join, order_shops_join];
    let sql = has_many_through_query(&sqlite("order_shop_products"), &steps, "orders", "id", "user_id", None, one()).unwrap().to_sql_string().unwrap();
    assert_eq!(sql, "SELECT * FROM \"order_shop_products\" INNER JOIN order_shops ON order_shop_products.order_shop_id = order_shops.id INNER JOIN orders ON order_shops.order_id = orders.id WHERE orders.user_id = 1");
    assert_eq!(
        has_many_through_join_string(&steps, "orders", "id", "user_id", None, "users", "id"),
        "INNER JOIN order_shops ON order_shop_products.order_shop_id = order_shops.id INNER JOIN orders ON order_shops.order_id = orders.id INNER JOIN users ON orders.user_id = users.id"
    );

    // has_one through
    let steps = vec!["INNER JOIN wallets ON wallet_extra_infos.owner_wallet_id = wallets.id".to_string()];
    let sql = has_one_through_query(&sqlite("wallet_extra_infos"), &steps, "wallets", "id", "user_id", None, one()).unwrap().to_sql_string().unwrap();
    assert_eq!(sql, "SELECT * FROM \"wallet_extra_infos\" INNER JOIN wallets ON wallet_extra_infos.owner_wallet_id = wallets.id WHERE wallets.user_id = 1 LIMIT 1");

    // has_and_belongs_to_many
    let avatars = habtm("User", "avatars", "Avatar", "users_avatars", "user_id", "avatar_id");
    let sql = has_and_belongs_to_many_query(&sqlite("avatars"), &avatars, one()).unwrap().to_sql_string().unwrap();
    assert_eq!(sql, "SELECT * FROM \"avatars\" INNER JOIN users_avatars ON avatars.id = users_avatars.avatar_id WHERE users_avatars.user_id = 1");
    assert_eq!(
        has_and_belongs_to_many_join_string("users", "id", "avatars", "id", &avatars),
        "INNER JOIN users_avatars ON avatars.id = users_avatars.avatar_id INNER JOIN users ON users_avatars.user_id = users.id"
    );
    let steps = vec!["INNER JOIN avatars ON avatar_sources.avatar_id = avatars.id".to_string()];
    let sql = has_many_through_query(&sqlite("avatar_sources"), &steps, "avatars", "id", "user_id", Some(&avatars), one()).unwrap().to_sql_string().unwrap();
    assert_eq!(sql, "SELECT * FROM \"avatar_sources\" INNER JOIN avatars ON avatar_sources.avatar_id = avatars.id INNER JOIN users_avatars ON avatars.id = users_avatars.avatar_id WHERE users_avatars.user_id = 1");
    let user_avatar_sources = has_many_through_join_string(&steps, "avatars", "id", "user_id", Some(&avatars), "users", "id");
    assert_eq!(user_avatar_sources, "INNER JOIN avatars ON avatar_sources.avatar_id = avatars.id INNER JOIN users_avatars ON avatars.id = users_avatars.avatar_id INNER JOIN users ON users_avatars.user_id = users.id");
    let users = habtm("Admin", "users", "User", "admins_users", "admin_id", "user_id");
    let sql = has_and_belongs_to_many_query(&sqlite("users"), &users, one()).unwrap().to_sql_string().unwrap();
    assert_eq!(sql, "SELECT * FROM \"users\" INNER JOIN admins_users ON users.id = admins_users.user_id WHERE admins_users.admin_id = 1");
    assert_eq!(
        has_and_belongs_to_many_join_string("admins", "id", "users", "id", &users),
        "INNER JOIN admins_users ON users.id = admins_users.user_id INNER JOIN admins ON admins_users.admin_id = admins.id"
    );
    let steps = vec![user_avatar_sources];
    let sql = has_many_through_query(&sqlite("avatar_sources"), &steps, "users", "id", "admin_id", Some(&users), one()).unwrap().to_sql_string().unwrap();
    assert_eq!(sql, "SELECT * FROM \"avatar_sources\" INNER JOIN avatars ON avatar_sources.avatar_id = avatars.id INNER JOIN users_avatars ON avatars.id = users_avatars.avatar_id INNER JOIN users ON users_avatars.user_id = users.id INNER JOIN admins_users ON users.id = admins_users.user_id WHERE admins_users.admin_id = 1");
    assert_eq!(
        has_many_through_join_string(&steps, "users", "id", "admin_id", Some(&users), "admins", "id"),
        "INNER JOIN avatars ON avatar_sources.avatar_id = avatars.id INNER JOIN users_avatars ON avatars.id = users_avatars.avatar_id INNER JOIN users ON users_avatars.user_id = users.id INNER JOIN admins_users ON users.id = admins_users.user_id INNER JOIN admins ON admins_users.admin_id = admins.id"
    );
}

#[test]
fn orderings_name_their_column_and_direction() {
    let users = Model::new("users", "id", Dialect::MySql);
    assert_eq!(arel::statements::order::ordering_text(&users, "name", "DESC"), "`users`.`name` DESC");
    let lite = Model::new("users", "id", Dialect::Sqlite);
    assert_eq!(arel::statements::order::ordering_text(&lite, "name", "ASC"), "\"users\".\"name\" ASC");
    let mut t = lite.query();
    let sql = t.order_by_primary_key_desc().to_sql_string().unwrap();
    assert_eq!(sql, "SELECT * FROM \"users\" ORDER BY \"users\".\"id\" DESC");
}
