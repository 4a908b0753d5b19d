use vstd::prelude::*;

verus! {

#[verifier::external_type_specification]
#[verifier::external_body]
pub struct ExIoError(std::io::Error);

#[verifier::external_type_specification]
#[verifier::external_body]
pub struct ExUuidError(uuid::Error);

#[verifier::external_type_specification]
#[verifier::external_body]
pub struct ExSqliteError(rusqlite::Error);

/// Everything that can go wrong while serving the blog.
#[derive(Debug)]
pub enum ServerError {
    InternalServer(String),
    YamlConvertionError(String),
    Unauthorized,
    PageNotFound(String),
    PageUnavailable(String),
    ConfigurationError(String),
    IOError(std::io::Error),
    UuidError(uuid::Error),
    DBError(rusqlite::Error),
}

/// The HTTP status code that answers a request that failed with `e`.
pub open spec fn status_code(e: ServerError) -> u16 {
    match e {
        ServerError::InternalServer(_) => 500,
        ServerError::PageNotFound(_) => 404,
        ServerError::PageUnavailable(_) => 503,
        ServerError::Unauthorized => 401,
        _ => 400,
    }
}

/// The body of the answer to a request that failed with `e`.
pub open spec fn status_text(e: ServerError) -> Seq<char> {
    match e {
        ServerError::InternalServer(_) => "internal server error"@,
        ServerError::PageNotFound(_) => "Page not found"@,
        ServerError::PageUnavailable(_) => "Page unavailable in the moment"@,
        ServerError::Unauthorized => "Unauthorized"@,
        _ => "Undefined error"@,
    }
}

/// The text of an error whose variant carries a text of its own: the prefix
/// and suffix that surround it. `None` for the variants that carry an outside
/// error or nothing.
pub open spec fn message_frame(e: ServerError) -> Option<(Seq<char>, Seq<char>, Seq<char>)> {
    match e {
        ServerError::InternalServer(s) => Some(("Internal Server Error: "@, s@, ""@)),
        ServerError::YamlConvertionError(s) => Some(("Error occur on metadata extraction of "@, s@, ""@)),
        ServerError::PageNotFound(s) => Some(("PageNotFound: "@, s@, " not found"@)),
        ServerError::PageUnavailable(s) => Some(("PageUnavailable: "@, s@, " has some error"@)),
        ServerError::ConfigurationError(s) => Some(("PageUnavailable: "@, s@, " has some error"@)),
        _ => None,
    }
}

/// A failure that is neither the server's own, nor a missing or unavailable
/// page, nor a refused key, is the client's: it is answered 400 with
/// "Undefined error".
pub proof fn law_other_errors_are_bad_requests(e: ServerError)
    requires
        !(e is InternalServer || e is PageNotFound || e is PageUnavailable || e is Unauthorized),
    ensures
        status_code(e) == 400,
        status_text(e) == "Undefined error"@,
{
}

/// The server's own failure is answered 500, a missing page 404, an
/// unavailable page 503 and a refused key 401, each with its own text.
pub proof fn law_named_errors_have_their_status(e: ServerError)
    ensures
        e is InternalServer ==> status_code(e) == 500 && status_text(e) == "internal server error"@,
        e is PageNotFound ==> status_code(e) == 404 && status_text(e) == "Page not found"@,
        e is PageUnavailable ==> status_code(e) == 503 && status_text(e) == "Page unavailable in the moment"@,
        e is Unauthorized ==> status_code(e) == 401 && status_text(e) == "Unauthorized"@,
{
}

impl ServerError {
    /// The HTTP status and body text that answer a request that failed with this error.
    pub fn status(&self) -> (r: (u16, &'static str))
        ensures
            r.0 == status_code(*self),
            r.1@ == status_text(*self),
    {
        match self {
            ServerError::InternalServer(_) => (500, "internal server error"),
            ServerError::PageNotFound(_) => (404, "Page not found"),
            ServerError::PageUnavailable(_) => (503, "Page unavailable in the moment"),
            ServerError::Unauthorized => (401, "Unauthorized"),
            _ => (400, "Undefined error"),
        }
    }
}

impl ServerError {
    /// The error's text, as its `Display` is meant to write it.
    pub fn message(&self) -> (r: String)
        ensures
            message_frame(*self) matches Some((p, x, q)) ==> r@ == p + x + q,
            *self is Unauthorized ==> r@ == "Unauthorized"@,
            *self matches ServerError::IOError(e) ==> exists|t: String|
                #[trigger] vstd::string::to_string_from_display_ensures::<std::io::Error>(&e, t) && r@ == "IOError: "@ + t@,
            *self matches ServerError::UuidError(e) ==> exists|t: String|
                #[trigger] vstd::string::to_string_from_display_ensures::<uuid::Error>(&e, t) && r@ == t@,
            *self matches ServerError::DBError(e) ==> exists|t: String|
                #[trigger] vstd::string::to_string_from_display_ensures::<rusqlite::Error>(&e, t) && r@ == "sqlite error: "@ + t@,
    {
        match self {
            ServerError::InternalServer(s) => framed("Internal Server Error: ", s, ""),
            ServerError::YamlConvertionError(s) => framed("Error occur on metadata extraction of ", s, ""),
            ServerError::Unauthorized => String::from_str("Unauthorized"),
            ServerError::PageNotFound(s) => framed("PageNotFound: ", s, " not found"),
            ServerError::PageUnavailable(s) => framed("PageUnavailable: ", s, " has some error"),
            ServerError::ConfigurationError(s) => framed("PageUnavailable: ", s, " has some error"),
            ServerError::IOError(e) => {
                let t = e.to_string();
                String::from_str("IOError: ").concat(t.as_str())
            },
            ServerError::UuidError(e) => e.to_string(),
            ServerError::DBError(e) => {
                let t = e.to_string();
                String::from_str("sqlite error: ").concat(t.as_str())
            },
        }
    }

    /// The error as its `Debug` is meant to write it: its text and a line break.
    pub fn debug_text(&self) -> (r: String)
        ensures
            message_frame(*self) matches Some((p, x, q)) ==> r@ == p + x + q + "\n"@,
            *self is Unauthorized ==> r@ == "Unauthorized\n"@,
            r@.len() >= 1 && r@.last() == '\n',
    {
        let m = self.message();
        proof { reveal_strlit("\n"); }
        let r = m.concat("\n");
        proof { reveal_strlit("Unauthorized"); reveal_strlit("Unauthorized\n"); }
        assert(*self is Unauthorized ==> r@ =~= "Unauthorized\n"@);
        r
    }
}

/// A value taken from a request's path; a path that does not hold one is
/// answered as a page that does not exist.
pub struct ResultPath<T>(pub T);

impl<T> ResultPath<T> {
    /// What an extraction of the path gives: the value when the path holds
    /// one, else `PageNotFound("page not found")`.
    pub fn from_extracted<E>(extracted: Result<T, E>) -> (r: Result<ResultPath<T>, ServerError>)
        ensures
            match extracted {
                Ok(v) => r == Ok::<ResultPath<T>, ServerError>(ResultPath(v)),
                Err(_) => r matches Err(ServerError::PageNotFound(m)) && m@ == "page not found"@,
            },
    {
        match extracted {
            Ok(v) => Ok(ResultPath(v)),
            Err(_) => Err(ServerError::PageNotFound(String::from_str("page not found"))),
        }
    }
}

/// `prefix`, then `s`, then `suffix`.
fn framed(prefix: &str, s: &String, suffix: &str) -> (r: String)
    ensures
        r@ == prefix@ + s@ + suffix@,
{
    String::from_str(prefix).concat(s.as_str()).concat(suffix)
}

} // verus!
