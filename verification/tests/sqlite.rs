use blog::app::{mw_extract_blog_from_config_state, mw_extract_user_from_key};
use blog::config::blog::{Blog, Config};
use blog::error::ServerError;
use blog::model::markdown::Markdown;
use blog::model::mock::MockUser;
use blog::model::sqlite::{user_from_row, PostInfo, SqliteOperations, User};
use blog::state::{ConfigState, EnvState};

fn shared_db(name: &str) -> (rusqlite::Connection, String) {
    let uri = format!("file:{name}?mode=memory&cache=shared");
    let conn = rusqlite::Connection::open(&uri).unwrap();
    conn.execute_batch(
        "CREATE TABLE posts (id TEXT PRIMARY KEY NOT NULL, views INTEGER NOT NULL DEFAULT 0);
         CREATE TABLE users (id TEXT NOT NULL, api_key TEXT NOT NULL);",
    )
    .unwrap();
    (conn, uri)
}

#[test]
fn post_is_created_then_found() {
    let (conn, _) = shared_db("post_created");
    let p = Markdown::find_or_create_post(&conn, "hello").0.unwrap();
    assert_eq!(p, PostInfo { id: "hello".to_string(), views: 0 });
    Markdown::increment_views(&conn, "hello").0.unwrap();
    Markdown::add_views_to_markdown(&conn, "hello").0.unwrap();
    let p = Markdown::find_or_create_post(&conn, "hello").0.unwrap();
    assert_eq!(p, PostInfo { id: "hello".to_string(), views: 2 });
}

#[test]
fn database_without_tables_fails() {
    let conn = rusqlite::Connection::open_in_memory().unwrap();
    assert!(matches!(Markdown::find_or_create_post(&conn, "x").0, Err(ServerError::DBError(_))));
    assert!(matches!(Markdown::increment_views(&conn, "x").0, Err(ServerError::DBError(_))));
    assert!(matches!(Markdown::get_user_from_api_key(&conn, 1).0, Err(ServerError::DBError(_))));
}

const ID: &str = "a1a2a3a4-b1b2-c1c2-d1d2-d3d4d5d6d7d8";
const KEY: &str = "550e8400-e29b-41d4-a716-446655440000";

#[test]
fn user_found_by_api_key() {
    let (conn, uri) = shared_db("user_found");
    conn.execute("INSERT INTO users (id, api_key) VALUES (?1, ?2)", [ID, KEY]).unwrap();
    let key = 0x550e8400_e29b_41d4_a716_446655440000u128;
    let user = Markdown::get_user_from_api_key(&conn, key).0.unwrap();
    assert_eq!(user, User { id: 0xa1a2a3a4_b1b2_c1c2_d1d2_d3d4d5d6d7d8, api_key: key });
    assert!(matches!(Markdown::get_user_from_api_key(&conn, key + 1).0, Err(ServerError::Unauthorized)));

    let env = EnvState { sqlite_path: uri, rust_env: "test".to_string() };
    assert_eq!(mw_extract_user_from_key(&env, Some(KEY.to_string())).0.unwrap(), user);
    assert!(matches!(mw_extract_user_from_key(&env, None).0, Err(ServerError::Unauthorized)));
    assert!(matches!(
        mw_extract_user_from_key(&env, Some("not-a-uuid".to_string())).0,
        Err(ServerError::UuidError(_))
    ));
    assert!(matches!(
        mw_extract_user_from_key(&env, Some("00000000-0000-0000-0000-000000000001".to_string())).0,
        Err(ServerError::Unauthorized)
    ));
}

#[test]
fn rows_are_read_as_uuids() {
    let u = user_from_row((ID.to_string(), KEY.to_string())).unwrap();
    assert_eq!(u.id, 0xa1a2a3a4_b1b2_c1c2_d1d2_d3d4d5d6d7d8);
    assert!(matches!(user_from_row(("x".to_string(), KEY.to_string())), Err(ServerError::UuidError(_))));
    assert!(matches!(user_from_row((ID.to_string(), "y".to_string())), Err(ServerError::UuidError(_))));
}

#[test]
fn blog_of_a_user_by_hyphenated_id() {
    let config = Config {
        blog: vec![
            Blog { path: "other".to_string(), user: "someone".to_string() },
            Blog { path: "mine".to_string(), user: ID.to_string() },
        ],
        application: "app".to_string(),
    };
    let state = ConfigState::new(config, "assets");
    let user = User { id: 0xa1a2a3a4_b1b2_c1c2_d1d2_d3d4d5d6d7d8, api_key: 0 };
    assert_eq!(
        mw_extract_blog_from_config_state(&state, &user),
        Some(Blog { path: "mine".to_string(), user: ID.to_string() })
    );
    let nobody = User { id: 5, api_key: 0 };
    assert_eq!(mw_extract_blog_from_config_state(&state, &nobody), None);
}

#[test]
fn mock_user_is_nil() {
    assert_eq!(User::new_mock().unwrap(), User { id: 0, api_key: 0 });
}

#[test]
fn database_outcomes_are_kept_or_wrapped() {
    let ok: Result<u8, rusqlite::Error> = Ok(4);
    assert_eq!(blog::model::sqlite::db_outcome(ok).unwrap(), 4);
    let bad: Result<u8, rusqlite::Error> = Err(rusqlite::Error::QueryReturnedNoRows);
    assert!(matches!(
        blog::model::sqlite::db_outcome(bad),
        Err(ServerError::DBError(rusqlite::Error::QueryReturnedNoRows))
    ));
}
