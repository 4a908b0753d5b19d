use blog::config::blog::{Blog, Config};
use blog::config::environment;
use blog::config::tracing::Tracing;
use blog::config::{get_env, Environment};
use blog::error::ServerError;

fn s(x: &str) -> Option<String> {
    Some(x.to_string())
}

#[test]
fn environment_with_both_values() {
    let e = Environment::load_from_env(s("8080"), s("info")).unwrap();
    assert_eq!(e.server_port, "8080");
    assert_eq!(e.rust_log, "info");
}

#[test]
fn environment_missing_value() {
    for (p, l) in [(None, s("info")), (s("80"), None), (None, None)] {
        match Environment::load_from_env(p, l) {
            Err(ServerError::InternalServer(m)) => assert_eq!(m, "env not found"),
            _ => panic!("expected a missing variable"),
        }
    }
    match get_env(None) {
        Err(ServerError::InternalServer(m)) => assert_eq!(m, "env not found"),
        _ => panic!("expected a missing variable"),
    }
}

#[test]
fn full_environment_names_first_missing() {
    let e = environment::Environment::load_from_env(s("80"), s("debug"), s("0.0.0.0"), s("proj")).unwrap();
    assert_eq!(e.server_port, "80");
    assert_eq!(e.rust_log, "debug");
    assert_eq!(e.server_host, "0.0.0.0");
    assert_eq!(e.firestore_project_id, "proj");
    match environment::Environment::load_from_env(s("80"), None, None, s("p")) {
        Err(ServerError::InternalServer(m)) => assert_eq!(m, "Env: RUST_LOG not found"),
        _ => panic!("expected RUST_LOG to be missing"),
    }
    match environment::Environment::load_from_env(s("80"), s("x"), s("h"), None) {
        Err(ServerError::InternalServer(m)) => assert_eq!(m, "Env: FIRESTORE_PROJECT_ID not found"),
        _ => panic!("expected FIRESTORE_PROJECT_ID to be missing"),
    }
    match environment::get_env("SERVER_HOST", None) {
        Err(ServerError::InternalServer(m)) => assert_eq!(m, "Env: SERVER_HOST not found"),
        _ => panic!("expected SERVER_HOST to be missing"),
    }
}

#[test]
fn tracing_filter_silences_workers() {
    assert_eq!(Tracing::env_filter("info"), "info,h2=off,tower::buffer::worker=off");
    assert_eq!(Tracing::env_filter(""), ",h2=off,tower::buffer::worker=off");
}

fn blog(path: &str, user: &str) -> Blog {
    Blog { path: path.to_string(), user: user.to_string() }
}

#[test]
fn first_blog_of_a_user() {
    let config = Config {
        blog: vec![blog("a", "u1"), blog("b", "u2"), blog("c", "u1")],
        application: "app".to_string(),
    };
    assert_eq!(config.blog_for_user("u1"), Some(blog("a", "u1")));
    assert_eq!(config.blog_for_user("u2"), Some(blog("b", "u2")));
    assert_eq!(config.blog_for_user("u3"), None);
}
