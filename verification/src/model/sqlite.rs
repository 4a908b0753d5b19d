use vstd::prelude::*;

use crate::error::ServerError;
use crate::model::ids::{parse_uuid, uuid_parse, uuid_text, uuid_to_string};

verus! {

#[verifier::external_type_specification]
#[verifier::external_body]
pub struct ExConnection(rusqlite::Connection);

/// A post's record in the database: its id and how often it was viewed.
#[derive(Clone, Debug, PartialEq, Eq)]
pub struct PostInfo {
    pub id: String,
    pub views: u16,
}

/// A user of the blog's API. Both ids are the 128 bits of a UUID.
#[derive(Clone, Copy, Debug, PartialEq, Eq)]
pub struct User {
    pub id: u128,
    pub api_key: u128,
}

/// A statement handed to the database: its text and its one parameter.
pub struct SqlCall {
    pub sql: Seq<char>,
    pub param: Seq<char>,
}

/// The statement `sql` with the parameter `param`.
pub open spec fn sql_call(sql: Seq<char>, param: Seq<char>) -> SqlCall {
    SqlCall { sql, param }
}

/// The query that reads a post's record.
pub open spec fn select_post_sql() -> Seq<char> {
    "SELECT id, views FROM posts WHERE id = ?1"@
}

/// The statement that gives a post a record.
pub open spec fn insert_post_sql() -> Seq<char> {
    "INSERT INTO posts (id) values (?1)"@
}

/// The statement that counts one more view of a post.
pub open spec fn update_views_sql() -> Seq<char> {
    "UPDATE posts SET views = views + 1 WHERE id = ?1"@
}

/// The query that reads the user with an API key.
pub open spec fn select_user_sql() -> Seq<char> {
    "SELECT * FROM users WHERE api_key = ?1"@
}

/// Opening a database: the path that was opened, and whether it failed.
pub struct OpenStep {
    pub path: Seq<char>,
    pub answer: Result<(), rusqlite::Error>,
}

/// Whether a call into the database succeeded, with its error when it failed.
pub open spec fn outcome_only<T>(r: Result<T, rusqlite::Error>) -> Result<(), rusqlite::Error> {
    match r {
        Ok(_) => Ok(()),
        Err(e) => Err(e),
    }
}

/// Opens the SQLite database at `path` (`rusqlite::Connection::open`). Also
/// gives back, as a ghost, the path it opened: exactly `path`. Whether the
/// open succeeds depends on the disk; nothing is stated of it.
#[verifier::external_body]
pub(crate) fn open_connection(path: &str) -> (r: (Result<rusqlite::Connection, rusqlite::Error>, Ghost<Seq<char>>))
    ensures
        r.1@ == path@,
{
    (rusqlite::Connection::open(path), Ghost(path@))
}

/// Runs the statement `sql` with the one text parameter `param`
/// (`rusqlite::Connection::execute`) and gives the number of rows changed.
/// Also gives back, as a ghost, the statement it ran: exactly `sql` and
/// `param`. What the database answers is not stated.
#[verifier::external_body]
fn execute_text(conn: &rusqlite::Connection, sql: &str, param: &str) -> (r: (Result<usize, rusqlite::Error>, Ghost<SqlCall>))
    ensures
        r.1@ == sql_call(sql@, param@),
{
    (conn.execute(sql, [param]), Ghost(sql_call(sql@, param@)))
}

/// Runs the query `sql` with the one text parameter `param`
/// (`rusqlite::Connection::prepare_cached`, `Statement::query_row`) and
/// reads the first row's first two columns as a text and a number. Fails with
/// `QueryReturnedNoRows` when there is no row. Also gives back, as a ghost,
/// the query it ran: exactly `sql` and `param`. What the database answers is
/// not stated.
#[verifier::external_body]
fn query_text_and_number(conn: &rusqlite::Connection, sql: &str, param: &str) -> (r: (Result<(String, u16), rusqlite::Error>, Ghost<SqlCall>))
    ensures
        r.1@ == sql_call(sql@, param@),
{
    let found = match conn.prepare_cached(sql) {
        Ok(mut stmt) => stmt.query_row([param], |row| <(String, u16)>::try_from(row)),
        Err(e) => Err(e),
    };
    (found, Ghost(sql_call(sql@, param@)))
}

/// As `query_text_and_number`, reading the first two columns as texts.
#[verifier::external_body]
fn query_two_texts(conn: &rusqlite::Connection, sql: &str, param: &str) -> (r: (Result<(String, String), rusqlite::Error>, Ghost<SqlCall>))
    ensures
        r.1@ == sql_call(sql@, param@),
{
    let found = match conn.prepare_cached(sql) {
        Ok(mut stmt) => stmt.query_row([param], |row| <(String, String)>::try_from(row)),
        Err(e) => Err(e),
    };
    (found, Ghost(sql_call(sql@, param@)))
}

/// `rusqlite::OptionalExtension::optional`: a found row becomes `Some`, the
/// error `QueryReturnedNoRows` becomes `None`, any other error is kept.
/// The contract states the first and last of these; that `None` stands for
/// exactly `QueryReturnedNoRows` is not stated, as the error is opaque here.
#[verifier::external_body]
fn optional_row<T>(found: Result<T, rusqlite::Error>) -> (r: Result<Option<T>, rusqlite::Error>)
    ensures
        match found {
            Ok(v) => r == Ok::<Option<T>, rusqlite::Error>(Some(v)),
            Err(e) => r == Ok::<Option<T>, rusqlite::Error>(None) || r == Err::<Option<T>, rusqlite::Error>(e),
        },
{
    rusqlite::OptionalExtension::optional(found)
}

/// The user that a row of the users table describes: its id and API key,
/// each read as a UUID. Fails with `UuidError` when either is not one. A row
/// whose key is written in the hyphenated form of `v` gives a user whose key
/// is `v`.
pub fn user_from_row(row: (String, String)) -> (r: Result<User, ServerError>)
    ensures
        match (uuid_parse(row.0@), uuid_parse(row.1@)) {
            (Some(id), Some(key)) => r == Ok::<User, ServerError>(User { id, api_key: key }),
            _ => r matches Err(ServerError::UuidError(_)),
        },
        forall|v: u128| #[trigger] uuid_text(v) == row.1@ ==> (r matches Ok(u) ==> u.api_key == v),
{
    let id = match parse_uuid(row.0.as_str()) {
        Ok(v) => v,
        Err(e) => return Err(ServerError::UuidError(e)),
    };
    let api_key = match parse_uuid(row.1.as_str()) {
        Ok(v) => v,
        Err(e) => return Err(ServerError::UuidError(e)),
    };
    Ok(User { id, api_key })
}

/// What finding or creating a post's record asked the database and what it
/// answered: the first lookup (no row read as `None`), the insert made when
/// there was no row, and the second lookup made once the insert succeeded.
pub struct PostSteps {
    pub calls: Seq<SqlCall>,
    pub found: Result<Option<(String, u16)>, rusqlite::Error>,
    pub inserted: Option<Result<usize, rusqlite::Error>>,
    pub reread: Option<Result<(String, u16), rusqlite::Error>>,
}

/// `s` is how the record of the post `title` is found or created: the post
/// is looked up by `title`; only when there is no row is a record inserted
/// for `title`; only when that insert succeeds is the post looked up again.
pub open spec fn post_steps_for(title: Seq<char>, s: PostSteps) -> bool {
    &&& s.calls.len() >= 1
    &&& s.calls[0] == sql_call(select_post_sql(), title)
    &&& match s.found {
        Ok(None) => {
            &&& s.inserted is Some
            &&& s.calls.len() >= 2
            &&& s.calls[1] == sql_call(insert_post_sql(), title)
            &&& match s.inserted {
                Some(Ok(_)) => s.reread is Some && s.calls.len() == 3 && s.calls[2] == sql_call(select_post_sql(), title),
                _ => s.reread is None && s.calls.len() == 2,
            }
        },
        _ => s.inserted is None && s.reread is None && s.calls.len() == 1,
    }
}

/// What the answers of finding or creating a record give: the row found
/// first, else the row read after a successful insert; any failure of the
/// database is a `DBError` with its error. (Answers that `post_steps_for`
/// rules out give `Unauthorized`.)
pub open spec fn answers_outcome(
    found: Result<Option<(String, u16)>, rusqlite::Error>,
    inserted: Option<Result<usize, rusqlite::Error>>,
    reread: Option<Result<(String, u16), rusqlite::Error>>,
) -> Result<PostInfo, ServerError> {
    match found {
        Ok(Some(row)) => Ok(PostInfo { id: row.0, views: row.1 }),
        Err(e) => Err(ServerError::DBError(e)),
        Ok(None) => match inserted {
            Some(Err(e)) => Err(ServerError::DBError(e)),
            _ => match reread {
                Some(Ok(row)) => Ok(PostInfo { id: row.0, views: row.1 }),
                Some(Err(e)) => Err(ServerError::DBError(e)),
                None => Err(ServerError::Unauthorized),
            },
        },
    }
}

/// What finding or creating a record gave, by its steps.
pub open spec fn post_outcome(s: PostSteps) -> Result<PostInfo, ServerError> {
    answers_outcome(s.found, s.inserted, s.reread)
}

/// Reads the database's answers to finding or creating a post's record, as
/// `answers_outcome` says.
pub fn post_from_answers(
    found: Result<Option<(String, u16)>, rusqlite::Error>,
    inserted: Option<Result<usize, rusqlite::Error>>,
    reread: Option<Result<(String, u16), rusqlite::Error>>,
) -> (r: Result<PostInfo, ServerError>)
    requires
        found matches Ok(None) ==> inserted is Some,
        inserted matches Some(Ok(_)) ==> reread is Some,
    ensures
        r == answers_outcome(found, inserted, reread),
{
    match found {
        Ok(Some((id, views))) => Ok(PostInfo { id, views }),
        Err(e) => Err(ServerError::DBError(e)),
        Ok(None) => match inserted {
            Some(Err(e)) => Err(ServerError::DBError(e)),
            _ => match reread {
                Some(Ok((id, views))) => Ok(PostInfo { id, views }),
                Some(Err(e)) => Err(ServerError::DBError(e)),
                None => Err(ServerError::Unauthorized),
            },
        },
    }
}

/// `r` is what reading the answer `found` to a user lookup gives: a found row
/// read as `user_from_row` says, `Unauthorized` for no row, and `DBError` with
/// the database's error.
pub open spec fn user_lookup_outcome(found: Result<Option<(String, String)>, rusqlite::Error>, r: Result<User, ServerError>) -> bool {
    match found {
        Ok(Some(row)) => match (uuid_parse(row.0@), uuid_parse(row.1@)) {
            (Some(id), Some(key)) => r == Ok::<User, ServerError>(User { id, api_key: key }),
            _ => r matches Err(ServerError::UuidError(_)),
        },
        Ok(None) => r matches Err(ServerError::Unauthorized),
        Err(e) => r matches Err(ServerError::DBError(e2)) && e2 == e,
    }
}

/// Reading a user lookup: no row is `Unauthorized`, a failed query is a
/// `DBError` with its error, and a row whose id and key are UUIDs is the user
/// they name; a result that meets the reading is the only one.
pub proof fn law_user_lookup_reading(
    found: Result<Option<(String, String)>, rusqlite::Error>,
    r1: Result<User, ServerError>,
    r2: Result<User, ServerError>,
)
    requires
        user_lookup_outcome(found, r1),
    ensures
        found matches Ok(None) ==> r1 matches Err(ServerError::Unauthorized),
        found matches Err(e) ==> r1 == Err::<User, ServerError>(ServerError::DBError(e)),
        found matches Ok(Some(row)) ==> match (uuid_parse(row.0@), uuid_parse(row.1@)) {
            (Some(id), Some(key)) => r1 == Ok::<User, ServerError>(User { id, api_key: key }),
            _ => r1 matches Err(ServerError::UuidError(_)),
        },
        user_lookup_outcome(found, r2) && !(r1 is Err && r2 is Err) ==> r1 == r2,
{
}

/// What looking a user up by API key gave, read as a user, as
/// `user_lookup_outcome` says.
pub fn user_from_lookup(found: Result<Option<(String, String)>, rusqlite::Error>) -> (r: Result<User, ServerError>)
    ensures
        user_lookup_outcome(found, r),
        found matches Ok(Some(row)) ==> forall|v: u128| #[trigger] uuid_text(v) == row.1@ ==> (r matches Ok(u) ==> u.api_key == v),
{
    match found {
        Ok(Some(row)) => user_from_row(row),
        Ok(None) => Err(ServerError::Unauthorized),
        Err(e) => Err(ServerError::DBError(e)),
    }
}

/// What a call into the database gave, read as the server's result: the
/// value when it succeeded, else a `DBError` that carries the database's error.
pub fn db_outcome<T>(found: Result<T, rusqlite::Error>) -> (r: Result<T, ServerError>)
    ensures
        match found {
            Ok(v) => r == Ok::<T, ServerError>(v),
            Err(e) => r matches Err(ServerError::DBError(e2)) && e2 == e,
        },
{
    match found {
        Ok(v) => Ok(v),
        Err(e) => Err(ServerError::DBError(e)),
    }
}

/// Counting a view: the statement run and what the database answered.
pub struct ViewStep {
    pub call: SqlCall,
    pub answer: Result<usize, rusqlite::Error>,
}

/// `s` counts one more view of the post `title`.
pub open spec fn view_step_for(title: Seq<char>, s: ViewStep) -> bool {
    s.call == sql_call(update_views_sql(), title)
}

/// What counting a view gave: nothing on success, else a `DBError` with the
/// database's error.
pub open spec fn view_outcome(s: ViewStep) -> Result<(), ServerError> {
    match s.answer {
        Ok(_) => Ok(()),
        Err(e) => Err(ServerError::DBError(e)),
    }
}

/// Counting a view succeeds exactly when the update succeeded, and a failed
/// update is a `DBError` that carries the database's own error.
pub proof fn law_view_outcome_follows_the_update(s: ViewStep)
    ensures
        s.answer is Ok <==> view_outcome(s) == Ok::<(), ServerError>(()),
        s.answer matches Err(e) ==> view_outcome(s) == Err::<(), ServerError>(ServerError::DBError(e)),
{
}

/// `r` is what counting one more view of the post `title` gave, where `s` is
/// the statement run and the database's answer.
pub open spec fn views_counted(title: Seq<char>, s: ViewStep, r: Result<(), ServerError>) -> bool {
    view_step_for(title, s) && r == view_outcome(s)
}

/// Looking a user up by API key: the key, the query run and its answer (no
/// row read as `None`).
pub struct UserLookup {
    pub key: u128,
    pub call: SqlCall,
    pub found: Result<Option<(String, String)>, rusqlite::Error>,
}

/// `s` looks up the user whose API key is `key`, by its hyphenated form.
pub open spec fn user_lookup_for(key: u128, s: UserLookup) -> bool {
    s.key == key && s.call == sql_call(select_user_sql(), uuid_text(key))
}

/// The database operations on posts and users. Each gives back, as a ghost,
/// what it asked the database and what the database answered.
pub trait SqliteOperations {
    /// The record of the post `title`: the row the lookup by `title` finds;
    /// when there is none, a record is inserted for `title` and the row read
    /// back is returned. Every failure of the database is a `DBError` with its
    /// error. What the database holds is not stated.
    fn find_or_create_post(sqlite_conn: &rusqlite::Connection, title: &str) -> (r: (Result<PostInfo, ServerError>, Ghost<PostSteps>))
        ensures
            post_steps_for(title@, r.1@),
            r.0 == post_outcome(r.1@),
    {
        let select = "SELECT id, views FROM posts WHERE id = ?1";
        let (first, first_call) = query_text_and_number(sqlite_conn, select, title);
        let found = optional_row(first);
        let ghost found_g = found;
        let ghost mut calls = seq![first_call@];
        let (inserted, reread) = match &found {
            Ok(None) => {
                let (ins, ins_call) = execute_text(sqlite_conn, "INSERT INTO posts (id) values (?1)", title);
                proof { calls = calls.push(ins_call@); }
                if ins.is_ok() {
                    let (again, again_call) = query_text_and_number(sqlite_conn, select, title);
                    proof { calls = calls.push(again_call@); }
                    (Some(ins), Some(again))
                } else {
                    (Some(ins), None)
                }
            },
            _ => (None, None),
        };
        let ghost steps = PostSteps { calls, found: found_g, inserted, reread };
        let r = post_from_answers(found, inserted, reread);
        (r, Ghost(steps))
    }

    /// Counts one more view of the post `title`: the update is run for
    /// `title`; its failure is a `DBError` with the database's error.
    fn increment_views(sqlite_conn: &rusqlite::Connection, title: &str) -> (r: (Result<(), ServerError>, Ghost<ViewStep>))
        ensures
            views_counted(title@, r.1@, r.0),
    {
        let (answer, call) = execute_text(sqlite_conn, "UPDATE posts SET views = views + 1 WHERE id = ?1", title);
        let ghost step = ViewStep { call: call@, answer };
        let r = match db_outcome(answer) {
            Ok(_) => Ok(()),
            Err(e) => Err(e),
        };
        (r, Ghost(step))
    }

    /// The user whose API key is `api_key`: the users are looked up by the
    /// key's hyphenated form, and the answer read as `user_lookup_outcome`
    /// says (`Unauthorized` when no user has it). When the row found carries
    /// that form as its key, the user returned has the key `api_key`.
    fn get_user_from_api_key(sqlite_conn: &rusqlite::Connection, api_key: u128) -> (r: (Result<User, ServerError>, Ghost<UserLookup>))
        ensures
            user_lookup_for(api_key, r.1@),
            user_lookup_outcome(r.1@.found, r.0),
            r.1@.found matches Ok(Some(row)) && row.1@ == uuid_text(api_key)
                ==> (r.0 matches Ok(u) ==> u.api_key == api_key),
    {
        let key = uuid_to_string(api_key);
        let (row, call) = query_two_texts(sqlite_conn, "SELECT * FROM users WHERE api_key = ?1", key.as_str());
        let found = optional_row(row);
        let ghost lookup = UserLookup { key: api_key, call: call@, found };
        (user_from_lookup(found), Ghost(lookup))
    }
}

} // verus!
