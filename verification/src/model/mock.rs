use vstd::prelude::*;

use crate::error::ServerError;
use crate::model::sqlite::User;

verus! {

/// A user to stand in for a real one: both ids are the nil UUID.
pub trait MockUser {
    fn new_mock() -> (r: Result<User, ServerError>)
        ensures
            r == Ok::<User, ServerError>(User { id: 0, api_key: 0 }),
    {
        Ok(User { id: 0, api_key: 0 })
    }
}

impl MockUser for User {}

} // verus!
