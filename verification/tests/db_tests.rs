use todo_access::db::DBAccess;
use todo_access::error::Error;
use todo_access::pool::{create_pool, POOL_CAPACITY};
use todo_access::todo::{ColValue, Row};

const SCHEMA: &str =
    "CREATE TABLE IF NOT EXISTS todo (id SERIAL PRIMARY KEY, name TEXT NOT NULL, checked BOOLEAN NOT NULL DEFAULT FALSE);";

fn ready_access() -> DBAccess {
    let pool = create_pool().unwrap();
    let mut access = DBAccess::new(pool);
    access.init_db(Some(SCHEMA)).unwrap();
    access
}

#[test]
fn list_on_empty_store_is_empty_ok() {
    let mut access = ready_access();
    let todos = access.fetch_todos().unwrap();
    assert_eq!(todos.len(), 0);
}

#[test]
fn create_returns_name_and_default_checked() {
    let mut access = ready_access();
    let todo = access.create_todo("buy milk".to_string()).unwrap();
    assert_eq!(todo.id, 1);
    assert_eq!(todo.name, "buy milk");
    assert_eq!(todo.checked, false);
}

#[test]
fn created_todo_appears_unchanged_in_listing() {
    let mut access = ready_access();
    let todo = access.create_todo("water plants".to_string()).unwrap();
    let todos = access.fetch_todos().unwrap();
    assert_eq!(todos.len(), 1);
    assert_eq!(todos[0].id, todo.id);
    assert_eq!(todos[0].name, todo.name);
    assert_eq!(todos[0].checked, todo.checked);
}

#[test]
fn list_reflects_insertion_order_with_ascending_ids() {
    let mut access = ready_access();
    let names = ["wash", "cook", "read", "sleep"];
    for name in names {
        access.create_todo(name.to_string()).unwrap();
    }
    let todos = access.fetch_todos().unwrap();
    assert_eq!(todos.len(), names.len());
    for (k, todo) in todos.iter().enumerate() {
        assert_eq!(todo.name, names[k]);
        if k > 0 {
            assert!(todos[k - 1].id < todo.id);
        }
    }
}

#[test]
fn pool_count_is_restored_after_every_call() {
    let mut access = ready_access();
    assert_eq!(access.db_pool.available, POOL_CAPACITY);
    access.create_todo("a".to_string()).unwrap();
    assert_eq!(access.db_pool.available, POOL_CAPACITY);
    access.fetch_todos().unwrap();
    assert_eq!(access.db_pool.available, POOL_CAPACITY);
    access.init_db(Some(SCHEMA)).unwrap();
    assert_eq!(access.db_pool.available, POOL_CAPACITY);
    // failure paths restore the count too
    access.db_pool.store.ready = false;
    assert_eq!(access.fetch_todos().unwrap_err(), Error::QueryError);
    assert_eq!(access.db_pool.available, POOL_CAPACITY);
}

#[test]
fn unreadable_schema_resource_is_schema_load_error() {
    let pool = create_pool().unwrap();
    let mut access = DBAccess::new(pool);
    assert_eq!(access.init_db(None).unwrap_err(), Error::SchemaLoadError);
}

#[test]
fn exhausted_pool_is_pool_acquire_error() {
    let mut access = ready_access();
    access.db_pool.available = 0;
    assert_eq!(access.fetch_todos().unwrap_err(), Error::PoolAcquireError);
    assert_eq!(
        access.create_todo("x".to_string()).unwrap_err(),
        Error::PoolAcquireError
    );
    assert_eq!(access.init_db(Some(SCHEMA)).unwrap_err(), Error::PoolAcquireError);
    assert_eq!(access.db_pool.available, 0);
}

#[test]
fn query_before_schema_is_query_error() {
    let pool = create_pool().unwrap();
    let mut access = DBAccess::new(pool);
    assert_eq!(access.fetch_todos().unwrap_err(), Error::QueryError);
    assert_eq!(
        access.create_todo("x".to_string()).unwrap_err(),
        Error::QueryError
    );
}

#[test]
fn exhausted_id_sequence_is_query_error() {
    let mut access = ready_access();
    access.db_pool.store.next_id = i32::MAX;
    assert_eq!(
        access.create_todo("x".to_string()).unwrap_err(),
        Error::QueryError
    );
    assert_eq!(access.db_pool.available, POOL_CAPACITY);
}

#[test]
fn row_mapper_reads_positional_fields() {
    let access = DBAccess::new(create_pool().unwrap());
    let row = Row {
        cols: vec![
            ColValue::IntVal(7),
            ColValue::TextVal("feed cat".to_string()),
            ColValue::BoolVal(true),
        ],
    };
    let todo = access.row_to_todo(&row);
    assert_eq!(todo.id, 7);
    assert_eq!(todo.name, "feed cat");
    assert_eq!(todo.checked, true);
}
