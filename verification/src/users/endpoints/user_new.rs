use vstd::prelude::*;

use crate::protocol::{reply_status, token_state_answer, respond_status, Command, Reply, Response, Status};
use crate::users::models::{is_new_user_outcome, User};

verus! {

/// Creating a `totp` account against a solved challenge: read the
/// challenge's state from the cache, and only if it is solved (`1`) remove
/// it, create the account and store it.
pub enum UserNewFlow {
    AwaitState { seed: String },
    AwaitDelete,
    AwaitInsert { user: User },
    Finished,
}

impl UserNewFlow {
    /// At most how many store answers the request still waits for.
    pub open spec fn calls_left(self) -> nat {
        match self {
            UserNewFlow::AwaitState { .. } => 3,
            UserNewFlow::AwaitDelete => 2,
            UserNewFlow::AwaitInsert { .. } => 1,
            UserNewFlow::Finished => 0,
        }
    }

    /// The first state and command: `400 Bad Request` without a challenge
    /// seed, else a read of the challenge's state.
    pub open spec fn started(seed: Option<String>) -> (UserNewFlow, Command) {
        match seed {
            Some(seed) => (UserNewFlow::AwaitState { seed }, Command::GetTokenState { seed }),
            None => (UserNewFlow::Finished, reply_status(Status::BadRequest)),
        }
    }

    /// Asks the cache for the state of the challenge named in the request.
    pub fn start(seed: Option<String>) -> (res: (UserNewFlow, Command))
        ensures
            res == Self::started(seed),
    {
        match seed {
            Some(seed) => {
                let key = seed.clone();
                (UserNewFlow::AwaitState { seed }, Command::GetTokenState { seed: key })
            },
            None => (UserNewFlow::Finished, respond_status(Status::BadRequest)),
        }
    }

    /// The state and command once the account was made (or refused):
    /// `400 Bad Request` where no account could be made.
    pub open spec fn created(user: Result<User, ()>) -> (UserNewFlow, Command) {
        match user {
            Ok(user) => (UserNewFlow::AwaitInsert { user }, Command::InsertUser { user }),
            Err(_) => (UserNewFlow::Finished, reply_status(Status::BadRequest)),
        }
    }

    /// Asks the database to store the account that was made.
    pub fn store_created(user: Result<User, ()>) -> (res: (UserNewFlow, Command))
        ensures
            res == Self::created(user),
    {
        match user {
            Ok(user) => {
                let copy = user.clone();
                (UserNewFlow::AwaitInsert { user }, Command::InsertUser { user: copy })
            },
            Err(_) => (UserNewFlow::Finished, respond_status(Status::BadRequest)),
        }
    }

    /// The next state and command after `reply`, given the account that
    /// would be made.
    pub open spec fn next_with(self, reply: Reply, user: Result<User, ()>) -> (UserNewFlow, Command) {
        match self {
            UserNewFlow::AwaitState { seed } => match reply.token_state() {
                Ok(state) => if state == 1 {
                    (UserNewFlow::AwaitDelete, Command::DeleteTokenState { seed })
                } else {
                    (UserNewFlow::Finished, reply_status(Status::BadRequest))
                },
                Err(_) => (UserNewFlow::Finished, reply_status(Status::BadRequest)),
            },
            UserNewFlow::AwaitDelete => match reply.done() {
                Ok(_) => Self::created(user),
                Err(_) => (UserNewFlow::Finished, reply_status(Status::InternalServerError)),
            },
            UserNewFlow::AwaitInsert { user } => match reply.done() {
                Ok(_) => (UserNewFlow::Finished, Command::Reply { response: Response::NewUser(user) }),
                Err(_) => (UserNewFlow::Finished, reply_status(Status::InternalServerError)),
            },
            UserNewFlow::Finished => (UserNewFlow::Finished, reply_status(Status::InternalServerError)),
        }
    }

    /// Takes in what the store answered; once the challenge is removed, a
    /// `totp` account is made.
    pub fn step(self, reply: Reply) -> (res: (UserNewFlow, Command))
        requires
            !(self is Finished),
        ensures
            exists|user: Result<User, ()>|
                {
                    &&& self is AwaitDelete && reply.done() is Ok ==> is_new_user_outcome("totp"@, user)
                    &&& res == #[trigger] self.next_with(reply, user)
                },
    {
        match self {
            UserNewFlow::AwaitState { seed } => {
                let res = match reply.into_token_state() {
                    Ok(state) => if state == 1 {
                        (UserNewFlow::AwaitDelete, Command::DeleteTokenState { seed })
                    } else {
                        (UserNewFlow::Finished, respond_status(Status::BadRequest))
                    },
                    Err(_) => (UserNewFlow::Finished, respond_status(Status::BadRequest)),
                };
                assert(res == self.next_with(reply, Err(())));
                res
            },
            UserNewFlow::AwaitDelete => match reply.into_done() {
                Ok(_) => {
                    let method = "totp".to_owned();
                    let user = User::new(&method, &None);
                    let res = Self::store_created(user);
                    assert(res == self.next_with(reply, user));
                    res
                },
                Err(_) => {
                    let res = (UserNewFlow::Finished, respond_status(Status::InternalServerError));
                    assert(res == self.next_with(reply, Err(())));
                    res
                },
            },
            UserNewFlow::AwaitInsert { user } => {
                let res = match reply.into_done() {
                    Ok(_) => (UserNewFlow::Finished, Command::Reply { response: Response::NewUser(user) }),
                    Err(_) => (UserNewFlow::Finished, respond_status(Status::InternalServerError)),
                };
                assert(res == self.next_with(reply, Err(())));
                res
            },
            UserNewFlow::Finished => {
                let res = (UserNewFlow::Finished, respond_status(Status::InternalServerError));
                assert(res == self.next_with(reply, Err(())));
                res
            },
        }
    }
}

/// An account is stored only for a challenge that the cache reported
/// solved, and only after that very challenge was removed from the cache:
/// a solved challenge is spent on at most one account.
pub proof fn lemma_account_only_for_solved_token(
    seed: String,
    first: Reply,
    second: Reply,
    user: Result<User, ()>,
)
    ensures
        ({
            let (f0, c0) = UserNewFlow::started(Some(seed));
            let (f1, c1) = f0.next_with(first, user);
            let (f2, c2) = f1.next_with(second, user);
            c2 is InsertUser ==> {
                &&& c0 == Command::GetTokenState { seed }
                &&& first.token_state() == Ok::<i32, ()>(1)
                &&& c1 == Command::DeleteTokenState { seed }
                &&& second.done() is Ok
            }
        }),
{
}

/// Every store answer either ends the request with its reply or brings it
/// closer to the end: a request is answered after at most `calls_left` store
/// calls, and a reply is sent exactly when the request is over.
pub proof fn lemma_user_new_flow_always_answers(flow: UserNewFlow, reply: Reply, outcome: Result<User, ()>)
    requires
        !(flow is Finished),
    ensures
        ({
            let (after, command) = flow.next_with(reply, outcome);
            &&& command is Reply <==> after is Finished
            &&& after is Finished || after.calls_left() < flow.calls_left()
        }),
{
}

/// A solved challenge buys one account: the challenge is spent only when
/// the cache holds it as solved, spending it removes it, and a second
/// request with the same challenge against the cache that is left is
/// refused with `400 Bad Request`.
pub proof fn lemma_solved_token_buys_one_account(
    cache: Map<Seq<char>, i32>,
    seed: String,
    outcome: Result<User, ()>,
    other_outcome: Result<User, ()>,
)
    ensures
        ({
            let (first, _) = UserNewFlow::started(Some(seed));
            let (spent, command) = first.next_with(token_state_answer(cache, seed@), outcome);
            command == Command::DeleteTokenState { seed } ==> {
                &&& cache.contains_key(seed@)
                &&& cache[seed@] == 1
                &&& {
                    let (second, _) = UserNewFlow::started(Some(seed));
                    second.next_with(token_state_answer(cache.remove(seed@), seed@), other_outcome)
                        == (UserNewFlow::Finished, reply_status(Status::BadRequest))
                }
            }
        }),
{
}

} // verus!
