use vstd::prelude::*;

use crate::config::blog::Blog;
use crate::error::ServerError;
use crate::model::ids::{parse_uuid, uuid_parse, uuid_text, uuid_to_string};
use crate::model::markdown::Markdown;
use crate::model::sqlite::{user_lookup_for, user_lookup_outcome, OpenStep, SqliteOperations, User, UserLookup};
use crate::state::{ConfigState, EnvState};

verus! {

/// The blog of the user that a request was authorised as: the first blog of
/// the configuration whose user is the user's id in its hyphenated form;
/// `None` when no blog belongs to the user.
pub fn mw_extract_blog_from_config_state(state: &ConfigState, user: &User) -> (r: Option<Blog>)
    ensures
        match r {
            Some(b) => exists|k: int|
                0 <= k < state.blog_config.blog@.len() && state.blog_config.blog@[k].user@ == uuid_text(user.id)
                && b.path@ == state.blog_config.blog@[k].path@ && b.user@ == uuid_text(user.id)
                && forall|m: int| 0 <= m < k ==> (#[trigger] state.blog_config.blog@[m]).user@ != uuid_text(user.id),
            None => forall|m: int| 0 <= m < state.blog_config.blog@.len()
                ==> (#[trigger] state.blog_config.blog@[m]).user@ != uuid_text(user.id),
        },
{
    let id = uuid_to_string(user.id);
    state.blog_config.blog_for_user(id.as_str())
}

/// The user that a request's `api_key` header names. Without the header the
/// request is `Unauthorized` and nothing is opened or looked up. Else the
/// database at `state.sqlite_path` is opened (a failed open is its
/// `DBError`), the header is read as a UUID (a header that is not one is a
/// `UuidError`), and the user is looked up by exactly that key, as
/// `SqliteOperations::get_user_from_api_key` says. The open and the lookup
/// are given back as a ghost.
pub fn mw_extract_user_from_key(state: &EnvState, api_key: Option<String>) -> (r: (
    Result<User, ServerError>,
    Ghost<Option<(OpenStep, Option<UserLookup>)>>,
))
    ensures
        match api_key {
            None => r.0 matches Err(ServerError::Unauthorized) && r.1@ is None,
            Some(k) => r.1@ matches Some((open, found)) && open.path == state.sqlite_path@ && match open.answer {
                Err(e) => r.0 == Err::<User, ServerError>(ServerError::DBError(e)) && found is None,
                Ok(_) => match uuid_parse(k@) {
                    None => r.0 matches Err(ServerError::UuidError(_)) && found is None,
                    Some(key) => found matches Some(look) && look.key == key && user_lookup_for(key, look)
                        && user_lookup_outcome(look.found, r.0)
                        && (look.found matches Ok(Some(row)) && row.1@ == uuid_text(key)
                            ==> (r.0 matches Ok(u) ==> u.api_key == key)),
                },
            },
        },
{
    match api_key {
        Some(key_text) => {
            let (opened, open) = state.get_connection();
            let sqlite_conn = match opened {
                Ok(c) => c,
                Err(e) => return (Err(e), Ghost(Some((open@, None)))),
            };
            let api_key = match parse_uuid(key_text.as_str()) {
                Ok(k) => k,
                Err(e) => return (Err(ServerError::UuidError(e)), Ghost(Some((open@, None)))),
            };
            let (user, lookup) = Markdown::get_user_from_api_key(&sqlite_conn, api_key);
            (user, Ghost(Some((open@, Some(lookup@)))))
        },
        None => (Err(ServerError::Unauthorized), Ghost(None)),
    }
}

} // verus!
