use blog::config::blog::{Blog, Config};
use blog::controller::blog::{
    content_headers, join_strings, load_markdown_content_api,
    load_markdown_similar_posts_api, markdown_list_api, post_file_path, show, similar_post_paths,
    similar_posts_found,
};
use blog::controller::{finished_posts, home, home_blog};
use blog::error::ServerError;
use blog::model::markdown::{Markdown, MarkdownFile, MarkdownMetadata, PostEntry};
use blog::model::sqlite::PostInfo;
use blog::state::{AppState, ConfigState, EnvState};

const POST: &str = "---\nfilename: \"test-markdown\"\n---\n# Test Markdown\n> test markdown\n\n> It will be published at **SOON**\n";

fn shared_db(name: &str) -> (rusqlite::Connection, EnvState) {
    let uri = format!("file:{name}?mode=memory&cache=shared");
    let conn = rusqlite::Connection::open(&uri).unwrap();
    conn.execute_batch(
        "CREATE TABLE posts (id TEXT PRIMARY KEY NOT NULL, views INTEGER NOT NULL DEFAULT 0);
         CREATE TABLE users (id TEXT NOT NULL, api_key TEXT NOT NULL);",
    )
    .unwrap();
    (conn, EnvState { sqlite_path: uri, rust_env: "test".to_string() })
}

fn mock_blog() -> Blog {
    Blog { path: "mock_path".to_string(), user: "mockuser".to_string() }
}

fn similar_metadata() -> MarkdownMetadata {
    MarkdownMetadata {
        version: None,
        filename: "test-markdown-2".to_string(),
        title: "test-markdown-title".to_string(),
        subtitle: "test-markdown-subtitle".to_string(),
        description: "test-markdown-description".to_string(),
        tags: Some(vec!["rust".to_string(), "test".to_string()]),
        similar_posts: Some(vec!["test-markdown".to_string()]),
        date: Some("2024-04-03t17:52:00".to_string()),
        finished: false,
        ..Default::default()
    }
}

#[test]
fn it_should_return_empty_when_invalid_metadata() {
    let (_keep, state) = shared_db("invalid_metadata");
    let entries = vec![PostEntry::File(Err("missing field `filename`".to_string()))];
    let content = markdown_list_api(&state, entries).0.unwrap();
    assert_eq!(content, []);
}

#[test]
fn it_should_return_plain_text_markdown() {
    let (conn, state) = shared_db("plain_text");
    let path = post_file_path(&mock_blog().path, "test-markdown");
    assert_eq!(path, "mock_path/test-markdown.md");
    let file = MarkdownFile { text: POST.to_string(), metadata: Ok(similar_metadata()) };
    conn.execute("INSERT INTO posts (id) VALUES ('test-markdown')", []).unwrap();
    let (markdown, _headers) = load_markdown_content_api(&state, "test-markdown", &mock_blog(), Some(file)).0.unwrap();
    assert_eq!(
        markdown.content,
        "<h1>Test Markdown</h1>
<blockquote>
<p>test markdown</p>
</blockquote>
<blockquote>
<p>It will be published at <strong>SOON</strong></p>
</blockquote>\n"
    );
    let views: i64 = conn
        .query_row("SELECT views FROM posts WHERE id = 'test-markdown'", [], |r| r.get(0))
        .unwrap();
    assert_eq!(views, 1);
}

#[test]
fn it_should_return_an_array_of_similar_posts() {
    let (conn, _state) = shared_db("similar_posts");
    let main = MarkdownMetadata {
        filename: "test-markdown".to_string(),
        similar_posts: Some(vec!["test-markdown-2".to_string()]),
        ..Default::default()
    };
    let file = MarkdownFile { text: POST.to_string(), metadata: Ok(main) };
    let paths = load_markdown_similar_posts_api("test-markdown", Some(file), &mock_blog()).unwrap();
    assert_eq!(paths, vec!["mock_path/test-markdown-2.md".to_string()]);
    let files: Vec<(String, Option<MarkdownFile>)> = paths
        .into_iter()
        .map(|p| {
            let file = MarkdownFile { text: POST.to_string(), metadata: Ok(similar_metadata()) };
            (p, Some(file))
        })
        .collect();
    let content = similar_posts_found(&conn, files).0;
    assert_eq!(
        content,
        [(similar_metadata(), PostInfo { id: "test-markdown-2".to_string(), views: 0 })]
    );
}

#[test]
fn content_headers_of_a_post() {
    let h = content_headers(&similar_metadata());
    let h: Vec<(&str, &str)> = h.iter().map(|(a, b)| (a.as_str(), b.as_str())).collect();
    assert_eq!(
        h,
        vec![
            ("content-type", "text/plain"),
            ("X-Content-Title", "test-markdown-title"),
            ("X-Content-Description", "test-markdown-description"),
            ("X-Content-Author", ""),
            ("X-Content-Image-Preview", ""),
            ("X-Content-Tags", "rust,test"),
        ]
    );
    let mut m = MarkdownMetadata::default();
    m.author = Some("me".to_string());
    m.image_preview = Some("img.png".to_string());
    let h = content_headers(&m);
    assert_eq!(h[3].1, "me");
    assert_eq!(h[4].1, "img.png");
    assert_eq!(h[5].1, "");
}

#[test]
fn join_puts_separator_between() {
    let v = vec!["a".to_string(), "b".to_string(), "c".to_string()];
    assert_eq!(join_strings(&v, ","), "a,b,c");
    assert_eq!(join_strings(&vec!["x".to_string()], ", "), "x");
    assert_eq!(join_strings(&vec![], ","), "");
}

#[test]
fn similar_paths_follow_the_front_matter() {
    let mut m = MarkdownMetadata::default();
    assert!(similar_post_paths("blog", &m).is_empty());
    m.similar_posts = Some(vec!["a".to_string(), "b".to_string()]);
    assert_eq!(similar_post_paths("blog", &m), vec!["blog/a.md".to_string(), "blog/b.md".to_string()]);
}

#[test]
fn similar_posts_that_fail_are_dropped_in_order() {
    let (conn, _state) = shared_db("similar_dropped");
    let good = |name: &str| {
        let m = MarkdownMetadata { filename: name.to_string(), ..Default::default() };
        Some(MarkdownFile { text: POST.to_string(), metadata: Ok(m) })
    };
    let files = vec![
        ("b/one.md".to_string(), good("one")),
        ("b/missing.md".to_string(), None),
        ("b/bad.md".to_string(), Some(MarkdownFile { text: POST.to_string(), metadata: Err("bad".to_string()) })),
        ("b/two.md".to_string(), good("two")),
    ];
    let found = similar_posts_found(&conn, files).0;
    let names: Vec<(String, String)> = found.into_iter().map(|(m, p)| (m.filename, p.id)).collect();
    assert_eq!(
        names,
        vec![("one".to_string(), "one".to_string()), ("two".to_string(), "two".to_string())]
    );
}

fn post(name: &str, finished: bool) -> (MarkdownMetadata, PostInfo) {
    let m = MarkdownMetadata { filename: name.to_string(), finished, ..Default::default() };
    (m, PostInfo { id: name.to_string(), views: 0 })
}

#[test]
fn only_finished_posts_on_home() {
    let l = vec![post("a", true), post("b", false), post("c", true)];
    assert_eq!(finished_posts(l), vec![post("a", true), post("c", true)]);
}

fn app_state(env: EnvState) -> AppState {
    let config = Config { blog: vec![], application: "posts".to_string() };
    AppState { config_state: ConfigState::new(config, "."), env_state: env }
}

#[test]
fn home_lists_finished_posts_of_the_application() {
    let (_keep, env) = shared_db("home_lists");
    let state = app_state(env);
    let b = home_blog(&state.config_state);
    assert_eq!(b, Blog { path: "posts".to_string(), user: "application_main_user".to_string() });
    let entries = vec![
        PostEntry::File(Ok(post("a", true).0)),
        PostEntry::File(Ok(post("b", false).0)),
        PostEntry::Folder,
    ];
    assert_eq!(home(&state, entries).0.unwrap(), vec![post("a", true)]);
}

#[test]
fn show_counts_a_view_and_reads_the_post() {
    let (conn, env) = shared_db("show_counts");
    conn.execute("INSERT INTO posts (id) VALUES ('p')", []).unwrap();
    let state = app_state(env);
    let main = MarkdownMetadata {
        similar_posts: Some(vec!["q".to_string()]),
        ..Default::default()
    };
    let file = MarkdownFile { text: POST.to_string(), metadata: Ok(main) };
    let (md, paths) = show(&state, "p", Some(file)).0.unwrap();
    assert!(md.content.starts_with("<h1>"));
    assert_eq!(paths, vec!["posts/q.md".to_string()]);
    match show(&state, "p", None).0 {
        Err(ServerError::PageNotFound(p)) => assert_eq!(p, "posts/p.md"),
        _ => panic!("expected PageNotFound"),
    }
    let views: i64 = conn.query_row("SELECT views FROM posts WHERE id = 'p'", [], |r| r.get(0)).unwrap();
    assert_eq!(views, 2);
}

#[test]
fn content_api_missing_post_is_not_found() {
    let (_keep, state) = shared_db("content_missing");
    match load_markdown_content_api(&state, "none", &mock_blog(), None).0 {
        Err(ServerError::PageNotFound(p)) => assert_eq!(p, "mock_path/none.md"),
        _ => panic!("expected PageNotFound"),
    }
}

#[test]
fn content_api_reads_before_counting_a_view() {
    let (conn, state) = shared_db("content_reads_first");
    conn.execute("INSERT INTO posts (id) VALUES ('p')", []).unwrap();
    assert!(matches!(
        load_markdown_content_api(&state, "p", &mock_blog(), None).0,
        Err(ServerError::PageNotFound(_))
    ));
    let views: i64 = conn.query_row("SELECT views FROM posts WHERE id = 'p'", [], |r| r.get(0)).unwrap();
    assert_eq!(views, 0);
}

#[test]
fn similar_posts_api_reads_the_post_of_the_blog() {
    match load_markdown_similar_posts_api("gone", None, &mock_blog()) {
        Err(ServerError::PageNotFound(p)) => assert_eq!(p, "mock_path/gone.md"),
        _ => panic!("expected PageNotFound"),
    }
    let file = MarkdownFile { text: POST.to_string(), metadata: Err("bad".to_string()) };
    assert!(matches!(
        load_markdown_similar_posts_api("bad", Some(file), &mock_blog()),
        Err(ServerError::YamlConvertionError(_))
    ));
}

#[test]
fn list_api_without_database_is_a_db_error() {
    let state = EnvState { sqlite_path: "/nonexistent-dir-for-blog-tests/db.sqlite".to_string(), rust_env: "test".to_string() };
    assert!(matches!(markdown_list_api(&state, vec![]).0, Err(ServerError::DBError(_))));
}
