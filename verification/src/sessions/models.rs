use vstd::prelude::*;

use crate::randoms::{is_uuid_v4_text, uuid_v4_string};
use crate::users::models::User;

verus! {

/// A login session: a random session identifier bound to an account.
pub struct Session {
    pub session_id: String,
    pub user_id: String,
}

/// What `Session::new` gives for `user`: a random UUID bound to the
/// account's identifier.
pub open spec fn is_new_session(user: User, session: Session) -> bool {
    &&& is_uuid_v4_text(session.session_id@)
    &&& session.user_id == user.identifier
}

impl Session {
    /// A new session for `user`, under a fresh random UUID.
    pub fn new(user: &User) -> (session: Session)
        ensures
            is_uuid_v4_text(session.session_id@),
            session.user_id == user.identifier,
    {
        Session { session_id: uuid_v4_string(), user_id: user.identifier.clone() }
    }
}

} // verus!
