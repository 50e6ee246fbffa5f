use ruskit::database::config::DatabaseConfig;
use ruskit::database::connection::{DatabaseError, DB};
use ruskit::database::factory::{creation_outcome, failure_message};
use ruskit::database::migration::{
    drop_all_statements, drop_table_statement, find_migration, plan_rollback, plan_run, Migration,
};
use ruskit::database::model::{
    binding_for, unsupported_value_message, Binding, JsonKind, all_statement, check_rules, find_statement, insert_statement, relate_statement, related_one_statement,
    relation_foreign_key, Field, Rules,
};
use ruskit::database::query_builder::QueryBuilder;
use ruskit::database::schema_builder::{SchemaBuilder, Table};
use ruskit::database::seeder::DatabaseSeeder;
use ruskit::testing::database::{count_statement, exists_statement};
use std::time::Duration;

#[test]
fn column_sql_lists_constraints_in_order() {
    let mut table = Table::new("users");
    let sql = table.text("email").not_null().unique().to_sql();
    assert_eq!(sql, "email TEXT NOT NULL UNIQUE");
    let bare = table.integer("age").to_sql();
    assert_eq!(bare, "age INTEGER");
}

#[test]
fn nullable_removes_the_first_not_null() {
    let mut table = Table::new("users");
    let sql = table.text("name").not_null().default("'x'").nullable().to_sql();
    assert_eq!(sql, "name TEXT DEFAULT 'x'");
    let untouched = table.boolean("active").nullable().to_sql();
    assert_eq!(untouched, "active BOOLEAN");
}

#[test]
fn table_sql_with_foreign_key() {
    let mut table = Table::new("posts");
    table.id();
    table.text("title").not_null();
    table.real_number("score");
    table.foreign("user_id").references("users", "id").on_delete("CASCADE").build();
    assert_eq!(
        table.to_sql(),
        "CREATE TABLE posts (\n    id INTEGER PRIMARY KEY AUTOINCREMENT,\n    title TEXT NOT NULL,\n    score REAL,\n    FOREIGN KEY (user_id) REFERENCES users(id) ON DELETE CASCADE\n)"
    );
}

#[test]
fn timestamps_columns() {
    let mut table = Table::new("t");
    table.timestamps();
    assert_eq!(
        table.to_sql(),
        "CREATE TABLE t (\n    created_at INTEGER NOT NULL DEFAULT CURRENT_TIMESTAMP,\n    updated_at INTEGER NOT NULL DEFAULT CURRENT_TIMESTAMP\n)"
    );
    let mut iso = Table::new("u");
    iso.timestamp_iso_strings();
    assert_eq!(
        iso.to_sql(),
        "CREATE TABLE u (\n    created_at TEXT NOT NULL DEFAULT (datetime('now')),\n    updated_at TEXT NOT NULL DEFAULT (datetime('now'))\n)"
    );
}

#[test]
fn schema_builder_joins_statements() {
    let mut schema = SchemaBuilder::new();
    schema
        .create_table("tags", |t: &mut Table| {
            t.id();
            t.text("name");
        })
        .drop_table("old_tags");
    assert_eq!(
        schema.to_sql(),
        "CREATE TABLE tags (\n    id INTEGER PRIMARY KEY AUTOINCREMENT,\n    name TEXT\n);\nDROP TABLE IF EXISTS old_tags"
    );
}

#[test]
fn select_sql_with_every_clause() {
    let q = QueryBuilder::table("users")
        .select("id, name")
        .where_clause("age", ">", "18")
        .where_clause("active", "=", "1")
        .order_by("name", "ASC")
        .limit(10)
        .offset(-5);
    assert_eq!(
        q.to_select_sql(),
        "SELECT id, name FROM users WHERE age > ? AND active = ? ORDER BY name ASC LIMIT 10 OFFSET -5"
    );
    assert_eq!(q.to_count_sql(), "SELECT COUNT(*) as count FROM users WHERE age > ? AND active = ?");
    assert_eq!(q.bindings(), &vec!["18".to_string(), "1".to_string()]);
}

#[test]
fn plain_query_selects_everything() {
    let q = QueryBuilder::table("posts");
    assert_eq!(q.to_select_sql(), "SELECT * FROM posts");
    assert_eq!(q.to_count_sql(), "SELECT COUNT(*) as count FROM posts");
    assert!(q.bindings().is_empty());
}

#[test]
fn database_config_defaults() {
    let c = DatabaseConfig::from_env(None, None, "/app");
    assert_eq!(c.default, "sqlite");
    assert_eq!(c.connections.sqlite.database, "/app/database/database.sqlite");
    assert!(c.connections.sqlite.foreign_key_constraints);
    assert_eq!(c.connection_url(), "sqlite:///app/database/database.sqlite");
    let r = DatabaseConfig::from_env(Some("sqlite".to_string()), Some("data.db".to_string()), "/app");
    assert_eq!(r.connection_url(), "sqlite://data.db");
    let a = DatabaseConfig::from_env(None, Some("/var/app.db".to_string()), "/app");
    assert_eq!(a.connection_url(), "sqlite:///var/app.db");
}

#[test]
fn pool_options_defaults() {
    let o = DB::pool_options();
    assert_eq!(o.max_connections, 100);
    assert_eq!(o.min_connections, 5);
    assert_eq!(o.connect_timeout, Duration::from_secs(8));
    assert_eq!(o.acquire_timeout, Duration::from_secs(8));
    assert_eq!(o.idle_timeout, Duration::from_secs(8));
    assert_eq!(o.max_lifetime, Duration::from_secs(8));
    assert!(o.sqlx_logging);
}

#[test]
fn rules_report_the_first_failure() {
    let r = check_rules("", Rules::new().required().min(3));
    assert_eq!(r.unwrap_err().code(), "required field");
    let r = check_rules("ab", Rules::new().required().min(3));
    assert_eq!(r.unwrap_err().code(), "too short");
    let r = check_rules("abcdef", Rules::new().max(5));
    assert_eq!(r.unwrap_err().code(), "too long");
    let r = check_rules("not-an-email", Rules::new().email());
    assert_eq!(r.unwrap_err().code(), "invalid email format");
    assert!(check_rules("someone@example.com", Rules::new().required().email()).is_ok());
    let r = check_rules("abc", Rules::new().regex("^[0-9]+$"));
    assert_eq!(r.unwrap_err().code(), "invalid format");
    assert!(check_rules("123", Rules::new().regex("^[0-9]+$")).is_ok());
}

#[test]
fn invalid_pattern_fails_the_rule() {
    let r = check_rules("abc", Rules::new().regex("("));
    assert_eq!(r.unwrap_err().code(), "invalid format");
}

#[test]
fn model_statements() {
    assert_eq!(find_statement("users", "id"), "SELECT * FROM users WHERE id = ?");
    assert_eq!(all_statement("users"), "SELECT * FROM users");
    assert_eq!(related_one_statement("profiles", "user_id"), "SELECT * FROM profiles WHERE user_id = ? LIMIT 1");
    assert_eq!(relate_statement("posts", "user_id"), "UPDATE posts SET user_id = ? WHERE id = ?");
    assert_eq!(relation_foreign_key("users"), "user_id");
    assert_eq!(relation_foreign_key("sheep"), "sheep_id");
    let (sql, cols) = insert_statement("users", &vec!["id".to_string(), "name".to_string(), "email".to_string()]);
    assert_eq!(sql, "INSERT INTO users (name, email) VALUES (?, ?)");
    assert_eq!(cols, vec!["name".to_string(), "email".to_string()]);
    let _f: Field<String> = Field::new("name");
}

#[test]
fn run_plan_skips_applied_migrations() {
    let ms = vec![
        Migration::new("a", "CREATE TABLE a (id INTEGER)", "DROP TABLE a"),
        Migration::new("b", "CREATE TABLE b (id INTEGER)", "DROP TABLE b"),
        Migration::new("c", "CREATE TABLE c (id INTEGER)", "DROP TABLE c"),
    ];
    let plan = plan_run(&ms, &vec!["b".to_string()], 4);
    assert_eq!(plan.batch, 5);
    let names: Vec<String> = plan.pending.iter().map(|m| m.name.clone()).collect();
    assert_eq!(names, vec!["a".to_string(), "c".to_string()]);
    let mut executed = vec!["b".to_string()];
    executed.extend(names);
    let again = plan_run(&ms, &executed, 5);
    assert!(again.pending.is_empty());
}

#[test]
fn rollback_plan_follows_batch_order() {
    let known = vec![
        Migration::new("a", "up a", "down a"),
        Migration::new("b", "up b", "down b"),
        Migration::new("b", "up b2", "down b2"),
    ];
    let plan = plan_rollback(&vec!["b".to_string(), "zzz".to_string(), "a".to_string()], &known);
    let downs: Vec<String> = plan.iter().map(|m| m.down.clone()).collect();
    assert_eq!(downs, vec!["down b".to_string(), "down a".to_string()]);
    assert!(find_migration(&known, "missing").is_none());
}

#[test]
fn drop_statements() {
    assert_eq!(drop_table_statement("users"), "DROP TABLE IF EXISTS users");
    assert_eq!(
        drop_all_statements(&vec!["users".to_string(), "posts".to_string()]),
        vec![
            "PRAGMA foreign_keys = OFF".to_string(),
            "DROP TABLE IF EXISTS users".to_string(),
            "DROP TABLE IF EXISTS posts".to_string(),
            "PRAGMA foreign_keys = ON".to_string(),
        ]
    );
}

#[test]
fn factory_outcomes() {
    assert_eq!(failure_message(0, "User", "boom"), "Failed to create instance 1 of User: boom");
    assert_eq!(failure_message(41, "Post", "x"), "Failed to create instance 42 of Post: x");
    match creation_outcome(vec![1, 2], &vec![]) {
        Ok(v) => assert_eq!(v, vec![1, 2]),
        Err(_) => panic!("expected the records"),
    }
    match creation_outcome::<i32>(vec![], &vec!["e1".to_string()]) {
        Err(DatabaseError::Other(m)) => assert_eq!(m, "Failed to create any instances. Errors: [\"e1\"]"),
        _ => panic!("expected an error"),
    }
}

#[test]
fn seeders_are_discovered() {
    assert!(DatabaseSeeder::discover_seeders().is_ok());
}

#[test]
fn database_assertion_statements() {
    assert_eq!(
        exists_statement("users", &vec!["email".to_string(), "name".to_string()]),
        "SELECT EXISTS(SELECT 1 FROM users WHERE 1=1 AND email = ? AND name = ?) AS exists"
    );
    assert_eq!(exists_statement("users", &vec![]), "SELECT EXISTS(SELECT 1 FROM users WHERE 1=1) AS exists");
    assert_eq!(count_statement("users"), "SELECT COUNT(*) FROM users");
}

#[test]
fn nullable_after_not_null_restores_the_column() {
    let mut table = Table::new("t");
    assert_eq!(table.text("x").unique().not_null().nullable().to_sql(), "x TEXT UNIQUE");
}

#[test]
fn counting_ignores_order_and_paging() {
    let plain = QueryBuilder::table("posts").where_clause("author", "=", "7");
    let paged = QueryBuilder::table("posts").where_clause("author", "=", "7").select("id").order_by("id", "DESC").limit(5).offset(10);
    assert_eq!(plain.to_count_sql(), paged.to_count_sql());
    assert_eq!(paged.bindings().len(), 1);
}

#[test]
fn bindings_of_json_values() {
    assert_eq!(binding_for(JsonKind::Number { integer: true, float: true }), Some(Binding::Integer));
    assert_eq!(binding_for(JsonKind::Number { integer: false, float: true }), Some(Binding::Real));
    assert_eq!(binding_for(JsonKind::Number { integer: false, float: false }), Some(Binding::Nothing));
    assert_eq!(binding_for(JsonKind::String), Some(Binding::Text));
    assert_eq!(binding_for(JsonKind::Bool), Some(Binding::Boolean));
    assert_eq!(binding_for(JsonKind::Null), Some(Binding::Null));
    assert_eq!(binding_for(JsonKind::Array), None);
    assert_eq!(binding_for(JsonKind::Object), None);
    assert_eq!(unsupported_value_message("tags", "Array [String(\"a\")]"), "Unsupported value type for column tags: Array [String(\"a\")]");
}
