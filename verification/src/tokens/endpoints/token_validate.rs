use vstd::prelude::*;

use crate::protocol::{reply_status, respond_status, Command, Reply, Status};
use crate::tokens::models::{is_validation_outcome, Token};

verus! {

/// Redeeming a solved challenge: validate the stamp, check that the
/// database knows the challenge, mark it solved (state `1`) in the cache,
/// then store the solved challenge in the database.
pub enum TokenValidateFlow {
    AwaitSelect { token: Token },
    AwaitPut { token: Token },
    AwaitInsert,
    Finished,
}

impl TokenValidateFlow {
    /// At most how many store answers the request still waits for.
    pub open spec fn calls_left(self) -> nat {
        match self {
            TokenValidateFlow::AwaitSelect { .. } => 3,
            TokenValidateFlow::AwaitPut { .. } => 2,
            TokenValidateFlow::AwaitInsert => 1,
            TokenValidateFlow::Finished => 0,
        }
    }

    /// Every challenge the flow holds passed validation: its stamp matches
    /// it and carries the work it declares.
    pub open spec fn holds_checked_token(self) -> bool {
        match self {
            TokenValidateFlow::AwaitSelect { token } => token.stamp_matches() && token.work_done(),
            TokenValidateFlow::AwaitPut { token } => token.stamp_matches() && token.work_done(),
            _ => true,
        }
    }

    /// The first state and command for `token`, given the verdict of its
    /// validation: `406 Not Acceptable` for a refused stamp, else a lookup
    /// of the challenge in the database.
    pub open spec fn started_with(token: Token, verdict: Result<(), ()>) -> (TokenValidateFlow, Command) {
        match verdict {
            Ok(_) => (TokenValidateFlow::AwaitSelect { token }, Command::SelectToken { seed: token.seed }),
            Err(_) => (TokenValidateFlow::Finished, reply_status(Status::NotAcceptable)),
        }
    }

    /// The first state and command once the stamp of `token` was judged.
    pub fn start_with_verdict(token: Token, verdict: Result<(), ()>) -> (res: (TokenValidateFlow, Command))
        ensures
            res == Self::started_with(token, verdict),
    {
        match verdict {
            Ok(_) => {
                let seed = token.seed.clone();
                (TokenValidateFlow::AwaitSelect { token }, Command::SelectToken { seed })
            },
            Err(_) => (TokenValidateFlow::Finished, respond_status(Status::NotAcceptable)),
        }
    }

    /// Validates the stamp of `token` and starts redeeming it.
    pub fn start(token: Token) -> (res: (TokenValidateFlow, Command))
        ensures
            exists|verdict: Result<(), ()>|
                is_validation_outcome(token, verdict) && res == #[trigger] Self::started_with(token, verdict),
            res.0.holds_checked_token(),
    {
        let verdict = token.validate();
        Self::start_with_verdict(token, verdict)
    }

    /// The next state and command after `reply`.
    pub open spec fn next(self, reply: Reply) -> (TokenValidateFlow, Command) {
        match self {
            TokenValidateFlow::AwaitSelect { token } => match reply.found_token() {
                Ok(_) => (
                    TokenValidateFlow::AwaitPut { token },
                    Command::PutTokenState { seed: token.seed, value: 1 },
                ),
                Err(_) => (TokenValidateFlow::Finished, reply_status(Status::NotAcceptable)),
            },
            TokenValidateFlow::AwaitPut { token } => match reply.done() {
                Ok(_) => (TokenValidateFlow::AwaitInsert, Command::InsertToken { token }),
                Err(_) => (TokenValidateFlow::Finished, reply_status(Status::InternalServerError)),
            },
            TokenValidateFlow::AwaitInsert => match reply.done() {
                Ok(_) => (TokenValidateFlow::Finished, reply_status(Status::Success)),
                Err(_) => (TokenValidateFlow::Finished, reply_status(Status::InternalServerError)),
            },
            TokenValidateFlow::Finished => (TokenValidateFlow::Finished, reply_status(Status::InternalServerError)),
        }
    }

    /// Takes in what the store answered.
    pub fn step(self, reply: Reply) -> (res: (TokenValidateFlow, Command))
        requires
            !(self is Finished),
        ensures
            res == self.next(reply),
            self.holds_checked_token() ==> res.0.holds_checked_token(),
    {
        match self {
            TokenValidateFlow::AwaitSelect { token } => match reply.into_found_token() {
                Ok(_) => {
                    let seed = token.seed.clone();
                    (TokenValidateFlow::AwaitPut { token }, Command::PutTokenState { seed, value: 1 })
                },
                Err(_) => (TokenValidateFlow::Finished, respond_status(Status::NotAcceptable)),
            },
            TokenValidateFlow::AwaitPut { token } => match reply.into_done() {
                Ok(_) => (TokenValidateFlow::AwaitInsert, Command::InsertToken { token }),
                Err(_) => (TokenValidateFlow::Finished, respond_status(Status::InternalServerError)),
            },
            TokenValidateFlow::AwaitInsert => match reply.into_done() {
                Ok(_) => (TokenValidateFlow::Finished, respond_status(Status::Success)),
                Err(_) => (TokenValidateFlow::Finished, respond_status(Status::InternalServerError)),
            },
            TokenValidateFlow::Finished => (TokenValidateFlow::Finished, respond_status(Status::InternalServerError)),
        }
    }
}

/// A challenge is marked solved in the cache only once its stamp passed
/// validation (it matches the seed and carries the proof of work) and the
/// database answered that it knows the challenge; and only that challenge's
/// seed is marked.
pub proof fn lemma_marked_solved_only_after_checks(flow: TokenValidateFlow, reply: Reply)
    requires
        flow.holds_checked_token(),
    ensures
        flow.next(reply).1 matches Command::PutTokenState { seed, value } ==> {
            &&& value == 1
            &&& flow matches TokenValidateFlow::AwaitSelect { token }
            &&& token.seed == seed
            &&& token.stamp_matches()
            &&& token.work_done()
            &&& reply.found_token() is Ok
        },
{
}

/// A refused stamp ends the request at once with `406 Not Acceptable`,
/// without touching either store.
pub proof fn lemma_refused_stamp_is_not_acceptable(token: Token)
    requires
        !token.stamp_matches(),
    ensures
        forall|verdict: Result<(), ()>|
            is_validation_outcome(token, verdict) ==> #[trigger] TokenValidateFlow::started_with(token, verdict)
                == (TokenValidateFlow::Finished, reply_status(Status::NotAcceptable)),
{
}

/// Every store answer either ends the request with its reply or brings it
/// closer to the end: a request is answered after at most `calls_left` store
/// calls, and a reply is sent exactly when the request is over.
pub proof fn lemma_token_validate_flow_always_answers(flow: TokenValidateFlow, reply: Reply)
    requires
        !(flow is Finished),
    ensures
        ({
            let (after, command) = flow.next(reply);
            &&& command is Reply <==> after is Finished
            &&& after is Finished || after.calls_left() < flow.calls_left()
        }),
{
}

} // verus!
