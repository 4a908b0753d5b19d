use blog::error::ServerError;
use blog::model::markdown::{Markdown, MarkdownFile, MarkdownMetadata, PostEntry};
use blog::model::sqlite::PostInfo;

const POST: &str = "---\nfilename: \"test-markdown\"\ntitle: \"Test Markdown\"\n---\n# Test Markdown\n> test markdown\n\n> It will be published at **SOON**\n";

const POST_HTML: &str = "<h1>Test Markdown</h1>
<blockquote>
<p>test markdown</p>
</blockquote>
<blockquote>
<p>It will be published at <strong>SOON</strong></p>
</blockquote>\n";

fn metadata(name: &str, finished: bool) -> MarkdownMetadata {
    MarkdownMetadata {
        filename: name.to_string(),
        title: format!("{name}-title"),
        finished,
        ..Default::default()
    }
}

#[test]
fn extract_cuts_the_first_front_matter() {
    assert_eq!(MarkdownMetadata::extract("a---x---b").unwrap(), "ab");
    assert_eq!(MarkdownMetadata::extract("---\ntitle: t\n---\nbody").unwrap(), "\nbody");
    assert_eq!(MarkdownMetadata::extract("---a---b---c---").unwrap(), "b---c---");
    assert_eq!(MarkdownMetadata::extract("------").unwrap(), "");
}

#[test]
fn extract_keeps_text_without_a_pair_of_marks() {
    assert_eq!(MarkdownMetadata::extract("no marks here").unwrap(), "no marks here");
    assert_eq!(MarkdownMetadata::extract("one --- mark").unwrap(), "one --- mark");
    assert_eq!(MarkdownMetadata::extract("----").unwrap(), "----");
    assert_eq!(MarkdownMetadata::extract("").unwrap(), "");
}

#[test]
fn extract_counts_characters_not_bytes() {
    assert_eq!(MarkdownMetadata::extract("é---ç---ü").unwrap(), "éü");
}

#[test]
fn new_renders_the_body_without_front_matter() {
    let file = MarkdownFile { text: POST.to_string(), metadata: Ok(metadata("test-markdown", true)) };
    let md = Markdown::new("mock_path/test-markdown.md".to_string(), Some(file)).unwrap();
    assert_eq!(md.content, POST_HTML);
    assert_eq!(md.metadata, metadata("test-markdown", true));
}

#[test]
fn new_renders_tables() {
    let text = "---\n---\n| a | b |\n|---|---|\n| 1 | 2 |\n";
    let file = MarkdownFile { text: text.to_string(), metadata: Ok(MarkdownMetadata::default()) };
    let md = Markdown::new("t.md".to_string(), Some(file)).unwrap();
    assert!(md.content.starts_with("<table>"), "{}", md.content);
}

#[test]
fn new_missing_file_is_not_found() {
    match Markdown::new("mock_path/none.md".to_string(), None) {
        Err(ServerError::PageNotFound(p)) => assert_eq!(p, "mock_path/none.md"),
        _ => panic!("expected PageNotFound"),
    }
}

#[test]
fn new_bad_front_matter_is_a_yaml_error() {
    let file = MarkdownFile { text: POST.to_string(), metadata: Err("missing field".to_string()) };
    match Markdown::new("p.md".to_string(), Some(file)) {
        Err(ServerError::YamlConvertionError(m)) => assert_eq!(m, "missing field"),
        _ => panic!("expected YamlConvertionError"),
    }
    match MarkdownMetadata::new(Err("bad".to_string())) {
        Err(ServerError::YamlConvertionError(m)) => assert_eq!(m, "bad"),
        _ => panic!("expected YamlConvertionError"),
    }
}

fn shared_db(name: &str) -> (rusqlite::Connection, String) {
    let uri = format!("file:{name}?mode=memory&cache=shared");
    let conn = rusqlite::Connection::open(&uri).unwrap();
    conn.execute_batch(
        "CREATE TABLE posts (id TEXT PRIMARY KEY NOT NULL, views INTEGER NOT NULL DEFAULT 0);
         CREATE TABLE users (id TEXT NOT NULL, api_key TEXT NOT NULL);",
    )
    .unwrap();
    (conn, uri)
}

#[test]
fn listing_skips_folders_and_bad_front_matter() {
    let (conn, _) = shared_db("listing_skips");
    let entries = vec![
        PostEntry::Folder,
        PostEntry::File(Ok(metadata("first", true))),
        PostEntry::File(Err("bad yaml".to_string())),
        PostEntry::File(Ok(metadata("second", false))),
    ];
    let list = Markdown::list_private_markdown_info(&conn, entries).0.unwrap();
    assert_eq!(
        list,
        vec![
            (metadata("first", true), PostInfo { id: "first".to_string(), views: 0 }),
            (metadata("second", false), PostInfo { id: "second".to_string(), views: 0 }),
        ]
    );
}

#[test]
fn listing_stops_at_an_unreadable_file() {
    let (conn, _) = shared_db("listing_stops");
    let entries = vec![
        PostEntry::File(Ok(metadata("first", true))),
        PostEntry::Unreadable("blog/broken.md".to_string()),
        PostEntry::File(Ok(metadata("never", true))),
    ];
    match Markdown::list_private_markdown_info(&conn, entries).0 {
        Err(ServerError::PageNotFound(p)) => assert_eq!(p, "blog/broken.md"),
        _ => panic!("expected PageNotFound"),
    }
    let n: i64 = conn.query_row("SELECT COUNT(*) FROM posts", [], |r| r.get(0)).unwrap();
    assert_eq!(n, 1);
}

#[test]
fn listing_without_a_table_is_a_db_error() {
    let conn = rusqlite::Connection::open_in_memory().unwrap();
    let entries = vec![PostEntry::File(Ok(metadata("first", true)))];
    assert!(matches!(
        Markdown::list_private_markdown_info(&conn, entries).0,
        Err(ServerError::DBError(_))
    ));
    assert!(Markdown::list_private_markdown_info(&conn, vec![PostEntry::Folder]).0.unwrap().is_empty());
}

#[test]
fn post_info_of_one_post() {
    let (conn, _) = shared_db("post_info_of_one");
    let file = MarkdownFile { text: POST.to_string(), metadata: Ok(metadata("test-markdown-2", false)) };
    let (m, p) = Markdown::list_markdown_info_of_a_post(&conn, "x/test-markdown-2.md".to_string(), Some(file)).0.unwrap();
    assert_eq!(m, metadata("test-markdown-2", false));
    assert_eq!(p, PostInfo { id: "test-markdown-2".to_string(), views: 0 });
    match Markdown::list_markdown_info_of_a_post(&conn, "x/none.md".to_string(), None).0 {
        Err(ServerError::PageNotFound(path)) => assert_eq!(path, "x/none.md"),
        _ => panic!("expected PageNotFound"),
    }
}

#[test]
fn front_matter_after_a_preamble_is_cut() {
    let text = "intro\n---\ntitle: t\n---\nbody";
    assert_eq!(MarkdownMetadata::extract(text).unwrap(), "intro\n\nbody");
}

#[test]
fn listing_of_only_bad_front_matter_needs_no_database() {
    let conn = rusqlite::Connection::open_in_memory().unwrap();
    let entries = vec![PostEntry::File(Err("bad yaml".to_string())), PostEntry::Folder];
    assert!(Markdown::list_private_markdown_info(&conn, entries).0.unwrap().is_empty());
}
