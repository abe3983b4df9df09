use vstd::prelude::*;

use crate::protocol::{reply_status, respond_status, Command, Reply, Response, Status};
use crate::tokens::models::{is_fresh_token, Token};

verus! {

/// Handing out a proof-of-work challenge: record it as issued (state `0`)
/// in the cache, then answer with it.
pub enum NewTokenFlow {
    AwaitPut { token: Token },
    Finished,
}

impl NewTokenFlow {
    /// At most how many store answers the request still waits for.
    pub open spec fn calls_left(self) -> nat {
        match self {
            NewTokenFlow::AwaitPut { .. } => 1,
            NewTokenFlow::Finished => 0,
        }
    }

    /// The first state and command for the challenge `token`.
    pub open spec fn started_with(token: Token) -> (NewTokenFlow, Command) {
        (NewTokenFlow::AwaitPut { token }, Command::PutTokenState { seed: token.seed, value: 0 })
    }

    /// Asks the cache to record the challenge `token` as issued.
    pub fn start_with(token: Token) -> (res: (NewTokenFlow, Command))
        ensures
            res == Self::started_with(token),
    {
        let seed = token.seed.clone();
        (NewTokenFlow::AwaitPut { token }, Command::PutTokenState { seed, value: 0 })
    }

    /// Makes a fresh challenge and asks the cache to record it as issued.
    pub fn start() -> (res: (NewTokenFlow, Command))
        ensures
            exists|token: Token| is_fresh_token(token) && res == #[trigger] Self::started_with(token),
    {
        let token = Token::new();
        let ghost fresh = token;
        let res = Self::start_with(token);
        assert(res == Self::started_with(fresh));
        res
    }

    /// The next state and command after `reply`: the challenge once it is
    /// recorded, `500 Internal Server Error` where the cache failed.
    pub open spec fn next(self, reply: Reply) -> (NewTokenFlow, Command) {
        match self {
            NewTokenFlow::AwaitPut { token } => match reply.done() {
                Ok(_) => (NewTokenFlow::Finished, Command::Reply { response: Response::NewToken(token) }),
                Err(_) => (NewTokenFlow::Finished, reply_status(Status::InternalServerError)),
            },
            NewTokenFlow::Finished => (NewTokenFlow::Finished, reply_status(Status::InternalServerError)),
        }
    }

    /// Takes in what the cache answered.
    pub fn step(self, reply: Reply) -> (res: (NewTokenFlow, Command))
        requires
            !(self is Finished),
        ensures
            res == self.next(reply),
    {
        match self {
            NewTokenFlow::AwaitPut { token } => match reply.into_done() {
                Ok(_) => (NewTokenFlow::Finished, Command::Reply { response: Response::NewToken(token) }),
                Err(_) => (NewTokenFlow::Finished, respond_status(Status::InternalServerError)),
            },
            NewTokenFlow::Finished => (NewTokenFlow::Finished, respond_status(Status::InternalServerError)),
        }
    }
}

/// A challenge is handed out only after the cache recorded it as issued,
/// and it is the very challenge that was recorded.
pub proof fn lemma_token_handed_out_only_once_recorded(token: Token, reply: Reply)
    ensures
        ({
            let (flow, command) = NewTokenFlow::started_with(token);
            &&& command == Command::PutTokenState { seed: token.seed, value: 0 }
            &&& flow.next(reply).1 matches Command::Reply { response: Response::NewToken(t) } ==> t == token
                && reply.done() is Ok
        }),
{
}

/// Every store answer either ends the request with its reply or brings it
/// closer to the end: a request is answered after at most `calls_left` store
/// calls, and a reply is sent exactly when the request is over.
pub proof fn lemma_new_token_flow_always_answers(flow: NewTokenFlow, reply: Reply)
    requires
        !(flow is Finished),
    ensures
        ({
            let (after, command) = flow.next(reply);
            &&& command is Reply <==> after is Finished
            &&& after is Finished || after.calls_left() < flow.calls_left()
        }),
{
}

} // verus!
