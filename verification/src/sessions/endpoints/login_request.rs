use vstd::prelude::*;

use crate::protocol::{reply_status, respond_status, Command, Reply, Response, Status};
use crate::users::models::{is_challenge_outcome, User};

verus! {

/// Starting a login: read the account, then answer with its
/// authentication method and, for OpenPGP accounts, an encrypted challenge.
pub enum LoginRequestFlow {
    AwaitUser,
    Finished,
}

impl LoginRequestFlow {
    /// At most how many store answers the request still waits for.
    pub open spec fn calls_left(self) -> nat {
        match self {
            LoginRequestFlow::AwaitUser => 1,
            LoginRequestFlow::Finished => 0,
        }
    }

    /// The first state and command for an account identifier.
    pub open spec fn started(identifier: String) -> (LoginRequestFlow, Command) {
        (LoginRequestFlow::AwaitUser, Command::SelectUser { identifier })
    }

    /// Asks the database for the account.
    pub fn start(identifier: String) -> (res: (LoginRequestFlow, Command))
        ensures
            res == Self::started(identifier),
    {
        (LoginRequestFlow::AwaitUser, Command::SelectUser { identifier })
    }

    /// The reply for an account and the outcome of its challenge: the
    /// method and the challenge, or `500 Internal Server Error` where no
    /// challenge could be made.
    pub open spec fn challenge_reply(user: User, challenge: Result<Option<String>, ()>) -> Command {
        match challenge {
            Ok(proof) => Command::Reply {
                response: Response::LoginChallenge { method: user.method, proof },
            },
            Err(_) => reply_status(Status::InternalServerError),
        }
    }

    /// The reply once the challenge of `user` was made (or failed).
    pub fn reply_with_challenge(user: User, challenge: Result<Option<String>, ()>) -> (res: Command)
        ensures
            res == Self::challenge_reply(user, challenge),
    {
        match challenge {
            Ok(proof) => Command::Reply {
                response: Response::LoginChallenge { method: user.method, proof },
            },
            Err(_) => respond_status(Status::InternalServerError),
        }
    }

    /// The next state and command after `reply`, given the outcome of the
    /// challenge: `400 Bad Request` for an unknown account.
    pub open spec fn next_with(self, reply: Reply, challenge: Result<Option<String>, ()>) -> (
        LoginRequestFlow,
        Command,
    ) {
        match reply.found_user() {
            Ok(user) => (LoginRequestFlow::Finished, Self::challenge_reply(user, challenge)),
            Err(_) => (LoginRequestFlow::Finished, reply_status(Status::BadRequest)),
        }
    }

    /// Takes in the account the database answered with, and makes its
    /// challenge.
    pub fn step(self, reply: Reply) -> (res: (LoginRequestFlow, Command))
        requires
            !(self is Finished),
        ensures
            exists|challenge: Result<Option<String>, ()>|
                {
                    &&& reply.found_user() matches Ok(user) ==> is_challenge_outcome(user, challenge)
                    &&& res == #[trigger] self.next_with(reply, challenge)
                },
    {
        match reply.into_found_user() {
            Ok(user) => {
                let challenge = user.generate_pgp_challenge();
                let res = (LoginRequestFlow::Finished, Self::reply_with_challenge(user, challenge));
                assert(res == self.next_with(reply, challenge));
                res
            },
            Err(_) => {
                let res = (LoginRequestFlow::Finished, respond_status(Status::BadRequest));
                assert(res == self.next_with(reply, Err(())));
                res
            },
        }
    }
}

/// Every store answer either ends the request with its reply or brings it
/// closer to the end: a request is answered after at most `calls_left` store
/// calls, and a reply is sent exactly when the request is over.
pub proof fn lemma_login_request_flow_always_answers(flow: LoginRequestFlow, reply: Reply, outcome: Result<Option<String>, ()>)
    requires
        !(flow is Finished),
    ensures
        ({
            let (after, command) = flow.next_with(reply, outcome);
            &&& command is Reply <==> after is Finished
            &&& after is Finished || after.calls_left() < flow.calls_left()
        }),
{
}

} // verus!
