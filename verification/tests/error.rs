use blog::error::{ResultPath, ServerError};

#[test]
fn status_of_each_error() {
    assert_eq!(ServerError::InternalServer("x".to_string()).status(), (500, "internal server error"));
    assert_eq!(ServerError::PageNotFound("x".to_string()).status(), (404, "Page not found"));
    assert_eq!(
        ServerError::PageUnavailable("x".to_string()).status(),
        (503, "Page unavailable in the moment")
    );
    assert_eq!(ServerError::Unauthorized.status(), (401, "Unauthorized"));
    assert_eq!(ServerError::YamlConvertionError("x".to_string()).status(), (400, "Undefined error"));
    assert_eq!(ServerError::ConfigurationError("x".to_string()).status(), (400, "Undefined error"));
}

#[test]
fn messages_of_errors() {
    assert_eq!(
        ServerError::InternalServer("boom".to_string()).message(),
        "Internal Server Error: boom"
    );
    assert_eq!(
        ServerError::YamlConvertionError("post".to_string()).message(),
        "Error occur on metadata extraction of post"
    );
    assert_eq!(ServerError::Unauthorized.message(), "Unauthorized");
    assert_eq!(
        ServerError::PageNotFound("a.md".to_string()).message(),
        "PageNotFound: a.md not found"
    );
    assert_eq!(
        ServerError::PageUnavailable("a".to_string()).message(),
        "PageUnavailable: a has some error"
    );
    assert_eq!(
        ServerError::ConfigurationError("c".to_string()).message(),
        "PageUnavailable: c has some error"
    );
}

#[test]
fn debug_text_ends_the_line() {
    assert_eq!(ServerError::Unauthorized.debug_text(), "Unauthorized\n");
    assert_eq!(
        ServerError::PageNotFound("p".to_string()).debug_text(),
        "PageNotFound: p not found\n"
    );
}

#[test]
fn result_path_keeps_value_or_is_not_found() {
    let ok: Result<u32, ()> = Ok(7);
    match ResultPath::from_extracted(ok) {
        Ok(ResultPath(v)) => assert_eq!(v, 7),
        Err(_) => panic!("expected a value"),
    }
    let bad: Result<u32, &str> = Err("no such segment");
    match ResultPath::from_extracted(bad) {
        Err(ServerError::PageNotFound(m)) => assert_eq!(m, "page not found"),
        _ => panic!("expected PageNotFound"),
    }
}

#[test]
fn outside_errors_keep_their_prefix() {
    let conn = rusqlite::Connection::open_in_memory().unwrap();
    let db_error = conn.execute("SELECT * FROM nowhere", []).unwrap_err();
    let m = ServerError::DBError(db_error).message();
    assert!(m.starts_with("sqlite error: "), "{m}");
    let io = std::io::Error::new(std::io::ErrorKind::Other, "disk gone");
    assert_eq!(ServerError::IOError(io).message(), "IOError: disk gone");
    assert_eq!(ServerError::IOError(std::io::Error::new(std::io::ErrorKind::Other, "x")).status(), (400, "Undefined error"));
}
