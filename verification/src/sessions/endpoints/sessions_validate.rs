use vstd::prelude::*;

use crate::protocol::{reply_status, respond_status, Command, Reply, Response, Status};

verus! {

/// Looking up the account behind a session: one read of the session
/// cache, then the reply.
pub enum SessionValidateFlow {
    AwaitSession,
    Finished,
}

impl SessionValidateFlow {
    /// At most how many store answers the request still waits for.
    pub open spec fn calls_left(self) -> nat {
        match self {
            SessionValidateFlow::AwaitSession => 1,
            SessionValidateFlow::Finished => 0,
        }
    }

    /// The first state and command for a session identifier.
    pub open spec fn started(session_id: String) -> (SessionValidateFlow, Command) {
        (SessionValidateFlow::AwaitSession, Command::GetSession { session_id })
    }

    /// Asks the cache for the session's account.
    pub fn start(session_id: String) -> (res: (SessionValidateFlow, Command))
        ensures
            res == Self::started(session_id),
    {
        (SessionValidateFlow::AwaitSession, Command::GetSession { session_id })
    }

    /// The next state and command after `reply`: the account identifier,
    /// or `400 Bad Request` for an unknown session.
    pub open spec fn next(self, reply: Reply) -> (SessionValidateFlow, Command) {
        match reply.session() {
            Ok(user_id) => (
                SessionValidateFlow::Finished,
                Command::Reply { response: Response::UserId(user_id) },
            ),
            Err(_) => (SessionValidateFlow::Finished, reply_status(Status::BadRequest)),
        }
    }

    /// Takes in what the cache answered.
    pub fn step(self, reply: Reply) -> (res: (SessionValidateFlow, Command))
        requires
            !(self is Finished),
        ensures
            res == self.next(reply),
    {
        match reply.into_session() {
            Ok(user_id) => (
                SessionValidateFlow::Finished,
                Command::Reply { response: Response::UserId(user_id) },
            ),
            Err(_) => (SessionValidateFlow::Finished, respond_status(Status::BadRequest)),
        }
    }
}

/// Every store answer either ends the request with its reply or brings it
/// closer to the end: a request is answered after at most `calls_left` store
/// calls, and a reply is sent exactly when the request is over.
pub proof fn lemma_session_validate_flow_always_answers(flow: SessionValidateFlow, reply: Reply)
    requires
        !(flow is Finished),
    ensures
        ({
            let (after, command) = flow.next(reply);
            &&& command is Reply <==> after is Finished
            &&& after is Finished || after.calls_left() < flow.calls_left()
        }),
{
}

} // verus!
