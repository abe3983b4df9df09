use vstd::prelude::*;

use crate::configuration::AdminConfiguration;
use crate::protocol::{reply_status, respond_status, Command, Reply, Status};

verus! {

/// A request to remove an account.
pub struct UserDeletionRequest {
    pub identifier: String,
}

/// Removing an account at the administrator's request: check the key,
/// read the account, delete it.
pub enum UserDeleteFlow {
    AwaitUser,
    AwaitDelete,
    Finished,
}

impl UserDeleteFlow {
    /// At most how many store answers the request still waits for.
    pub open spec fn calls_left(self) -> nat {
        match self {
            UserDeleteFlow::AwaitUser => 2,
            UserDeleteFlow::AwaitDelete => 1,
            UserDeleteFlow::Finished => 0,
        }
    }

    /// The first state and command: `400 Bad Request` without an
    /// administrator key, `401 Unauthorized` with a wrong one, else a
    /// lookup of the account.
    pub open spec fn started(admin: AdminConfiguration, admin_key: Option<String>, identifier: String) -> (
        UserDeleteFlow,
        Command,
    ) {
        match admin_key {
            None => (UserDeleteFlow::Finished, reply_status(Status::BadRequest)),
            Some(key) => if admin.key@ == key@ {
                (UserDeleteFlow::AwaitUser, Command::SelectUser { identifier })
            } else {
                (UserDeleteFlow::Finished, reply_status(Status::Unauthorized))
            },
        }
    }

    /// Checks the administrator key and asks for the account.
    pub fn start(admin: &AdminConfiguration, admin_key: Option<String>, identifier: String) -> (res: (
        UserDeleteFlow,
        Command,
    ))
        ensures
            res == Self::started(*admin, admin_key, identifier),
    {
        let key = match admin_key {
            Some(key) => key,
            None => return (UserDeleteFlow::Finished, respond_status(Status::BadRequest)),
        };
        match admin.check(&key) {
            Ok(_) => (UserDeleteFlow::AwaitUser, Command::SelectUser { identifier }),
            Err(_) => (UserDeleteFlow::Finished, respond_status(Status::Unauthorized)),
        }
    }

    /// The next state and command after `reply`.
    pub open spec fn next(self, reply: Reply) -> (UserDeleteFlow, Command) {
        match self {
            UserDeleteFlow::AwaitUser => match reply.found_user() {
                Ok(user) => (UserDeleteFlow::AwaitDelete, Command::DeleteUser { user }),
                Err(_) => (UserDeleteFlow::Finished, reply_status(Status::BadRequest)),
            },
            UserDeleteFlow::AwaitDelete => match reply.done() {
                Ok(_) => (UserDeleteFlow::Finished, reply_status(Status::Success)),
                Err(_) => (UserDeleteFlow::Finished, reply_status(Status::InternalServerError)),
            },
            UserDeleteFlow::Finished => (UserDeleteFlow::Finished, reply_status(Status::InternalServerError)),
        }
    }

    /// Takes in what the database answered.
    pub fn step(self, reply: Reply) -> (res: (UserDeleteFlow, Command))
        requires
            !(self is Finished),
        ensures
            res == self.next(reply),
    {
        match self {
            UserDeleteFlow::AwaitUser => match reply.into_found_user() {
                Ok(user) => (UserDeleteFlow::AwaitDelete, Command::DeleteUser { user }),
                Err(_) => (UserDeleteFlow::Finished, respond_status(Status::BadRequest)),
            },
            UserDeleteFlow::AwaitDelete => match reply.into_done() {
                Ok(_) => (UserDeleteFlow::Finished, respond_status(Status::Success)),
                Err(_) => (UserDeleteFlow::Finished, respond_status(Status::InternalServerError)),
            },
            UserDeleteFlow::Finished => (UserDeleteFlow::Finished, respond_status(Status::InternalServerError)),
        }
    }
}

/// An account is deleted only when the request carried the administrator's
/// key, and the account deleted is the one the database found under the
/// requested identifier.
pub proof fn lemma_deletion_needs_admin_key(
    admin: AdminConfiguration,
    admin_key: Option<String>,
    identifier: String,
    reply: Reply,
)
    ensures
        ({
            let (flow, command) = UserDeleteFlow::started(admin, admin_key, identifier);
            flow.next(reply).1 matches Command::DeleteUser { user } ==> {
                &&& admin_key matches Some(key) && key@ == admin.key@
                &&& command == Command::SelectUser { identifier }
                &&& reply.found_user() == Ok::<_, ()>(user)
            }
        }),
{
}

/// Every store answer either ends the request with its reply or brings it
/// closer to the end: a request is answered after at most `calls_left` store
/// calls, and a reply is sent exactly when the request is over.
pub proof fn lemma_user_delete_flow_always_answers(flow: UserDeleteFlow, reply: Reply)
    requires
        !(flow is Finished),
    ensures
        ({
            let (after, command) = flow.next(reply);
            &&& command is Reply <==> after is Finished
            &&& after is Finished || after.calls_left() < flow.calls_left()
        }),
{
}

} // verus!
