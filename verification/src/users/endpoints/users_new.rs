use vstd::prelude::*;

use crate::protocol::{reply_status, token_state_answer, respond_status, Command, Reply, Response, Status};
use crate::sessions::models::{is_new_session, Session};
use crate::tokens::endpoints::new::NewTokenFlow;
use crate::tokens::endpoints::token_validate::TokenValidateFlow;
use crate::tokens::models::Token;
use crate::users::models::{is_new_user_outcome, User};
use crate::wallets::models::{Wallet, DEFAULT_BALANCE};

verus! {

/// What making an account may give for `method`: the account with a
/// session for it, exactly as `User::new` and `Session::new` promise.
pub open spec fn is_account_outcome(method: Seq<char>, created: Result<(User, Session), ()>) -> bool {
    match created {
        Ok((user, session)) => is_new_user_outcome(method, Ok(user)) && is_new_session(user, session),
        Err(_) => is_new_user_outcome(method, Err(())),
    }
}

/// The wallet a new account starts with.
pub open spec fn starting_wallet(user: User) -> Wallet {
    Wallet { identifier: user.identifier, balance: DEFAULT_BALANCE }
}

/// Opening an account against a solved challenge: read the challenge's
/// state, and only if it is solved (`1`) remove it, make the account, and
/// store the account, its wallet and its first session.
pub enum UsersNewFlow {
    AwaitState { seed: String, method: String, secret: Option<String> },
    AwaitDelete { method: String, secret: Option<String> },
    AwaitUserInsert { user: User, wallet: Wallet, session: Session },
    AwaitWalletInsert { user: User, session: Session },
    AwaitSessionPut { user: User, session_id: String },
    Finished,
}

impl UsersNewFlow {
    /// At most how many store answers the request still waits for.
    pub open spec fn calls_left(self) -> nat {
        match self {
            UsersNewFlow::AwaitState { .. } => 5,
            UsersNewFlow::AwaitDelete { .. } => 4,
            UsersNewFlow::AwaitUserInsert { .. } => 3,
            UsersNewFlow::AwaitWalletInsert { .. } => 2,
            UsersNewFlow::AwaitSessionPut { .. } => 1,
            UsersNewFlow::Finished => 0,
        }
    }

    /// The account, wallet and session of a flow belong together.
    pub open spec fn consistent(self) -> bool {
        match self {
            UsersNewFlow::AwaitUserInsert { user, wallet, session } => wallet == starting_wallet(user)
                && session.user_id == user.identifier,
            UsersNewFlow::AwaitWalletInsert { user, session } => session.user_id == user.identifier,
            _ => true,
        }
    }

    /// The first state and command: a read of the challenge's state.
    pub open spec fn started(seed: String, method: String, secret: Option<String>) -> (UsersNewFlow, Command) {
        (UsersNewFlow::AwaitState { seed, method, secret }, Command::GetTokenState { seed })
    }

    /// Asks the cache for the state of the challenge named in the request.
    pub fn start(seed: String, method: String, secret: Option<String>) -> (res: (UsersNewFlow, Command))
        ensures
            res == Self::started(seed, method, secret),
    {
        let key = seed.clone();
        (UsersNewFlow::AwaitState { seed, method, secret }, Command::GetTokenState { seed: key })
    }

    /// The state and command once the account was made (or refused):
    /// `400 Bad Request` for a method that cannot make one.
    pub open spec fn created(created: Result<(User, Session), ()>) -> (UsersNewFlow, Command) {
        match created {
            Ok((user, session)) => (
                UsersNewFlow::AwaitUserInsert { user, wallet: starting_wallet(user), session },
                Command::InsertUser { user },
            ),
            Err(_) => (UsersNewFlow::Finished, reply_status(Status::BadRequest)),
        }
    }

    /// Asks the database to store the account that was made.
    pub fn store_created(created: Result<(User, Session), ()>) -> (res: (UsersNewFlow, Command))
        ensures
            res == Self::created(created),
    {
        match created {
            Ok((user, session)) => {
                let wallet = Wallet::new(&user);
                let copy = user.clone();
                (UsersNewFlow::AwaitUserInsert { user, wallet, session }, Command::InsertUser { user: copy })
            },
            Err(_) => (UsersNewFlow::Finished, respond_status(Status::BadRequest)),
        }
    }

    /// The next state and command after `reply`, given the account that
    /// would be made.
    pub open spec fn next_with(self, reply: Reply, created: Result<(User, Session), ()>) -> (UsersNewFlow, Command) {
        match self {
            UsersNewFlow::AwaitState { seed, method, secret } => match reply.token_state() {
                Ok(state) => if state == 1 {
                    (UsersNewFlow::AwaitDelete { method, secret }, Command::DeleteTokenState { seed })
                } else {
                    (UsersNewFlow::Finished, reply_status(Status::BadRequest))
                },
                Err(_) => (UsersNewFlow::Finished, reply_status(Status::BadRequest)),
            },
            UsersNewFlow::AwaitDelete { method, secret } => match reply.done() {
                Ok(_) => Self::created(created),
                Err(_) => (UsersNewFlow::Finished, reply_status(Status::InternalServerError)),
            },
            UsersNewFlow::AwaitUserInsert { user, wallet, session } => match reply.done() {
                Ok(_) => (UsersNewFlow::AwaitWalletInsert { user, session }, Command::InsertWallet { wallet }),
                Err(_) => (UsersNewFlow::Finished, reply_status(Status::InternalServerError)),
            },
            UsersNewFlow::AwaitWalletInsert { user, session } => match reply.done() {
                Ok(_) => (
                    UsersNewFlow::AwaitSessionPut { user, session_id: session.session_id },
                    Command::PutSession { session_id: session.session_id, user_id: session.user_id },
                ),
                Err(_) => (UsersNewFlow::Finished, reply_status(Status::InternalServerError)),
            },
            UsersNewFlow::AwaitSessionPut { user, session_id } => match reply.done() {
                Ok(_) => (
                    UsersNewFlow::Finished,
                    Command::Reply {
                        response: Response::NewAccount {
                            session_id,
                            identifier: user.identifier,
                            secret: user.secret,
                        },
                    },
                ),
                Err(_) => (UsersNewFlow::Finished, reply_status(Status::InternalServerError)),
            },
            UsersNewFlow::Finished => (UsersNewFlow::Finished, reply_status(Status::InternalServerError)),
        }
    }

    /// Takes in what the store answered; once the challenge is removed, the
    /// account and its session are made.
    pub fn step(self, reply: Reply) -> (res: (UsersNewFlow, Command))
        requires
            !(self is Finished),
        ensures
            exists|created: Result<(User, Session), ()>|
                {
                    &&& self matches UsersNewFlow::AwaitDelete { method, secret } ==> (reply.done() is Ok
                        ==> is_account_outcome(method@, created))
                    &&& res == #[trigger] self.next_with(reply, created)
                },
            self.consistent() ==> res.0.consistent(),
    {
        match self {
            UsersNewFlow::AwaitState { seed, method, secret } => {
                let res = match reply.into_token_state() {
                    Ok(state) => if state == 1 {
                        (UsersNewFlow::AwaitDelete { method, secret }, Command::DeleteTokenState { seed })
                    } else {
                        (UsersNewFlow::Finished, respond_status(Status::BadRequest))
                    },
                    Err(_) => (UsersNewFlow::Finished, respond_status(Status::BadRequest)),
                };
                assert(res == self.next_with(reply, Err(())));
                res
            },
            UsersNewFlow::AwaitDelete { method, secret } => match reply.into_done() {
                Ok(_) => {
                    let created = match User::new(&method, &secret) {
                        Ok(user) => {
                            let session = Session::new(&user);
                            Ok((user, session))
                        },
                        Err(_) => Err(()),
                    };
                    let res = Self::store_created(created);
                    assert(res == self.next_with(reply, created));
                    res
                },
                Err(_) => {
                    let res = (UsersNewFlow::Finished, respond_status(Status::InternalServerError));
                    assert(res == self.next_with(reply, Err(())));
                    res
                },
            },
            UsersNewFlow::AwaitUserInsert { user, wallet, session } => {
                let res = match reply.into_done() {
                    Ok(_) => (UsersNewFlow::AwaitWalletInsert { user, session }, Command::InsertWallet { wallet }),
                    Err(_) => (UsersNewFlow::Finished, respond_status(Status::InternalServerError)),
                };
                assert(res == self.next_with(reply, Err(())));
                res
            },
            UsersNewFlow::AwaitWalletInsert { user, session } => {
                let res = match reply.into_done() {
                    Ok(_) => {
                        let session_id = session.session_id.clone();
                        (
                            UsersNewFlow::AwaitSessionPut { user, session_id },
                            Command::PutSession { session_id: session.session_id, user_id: session.user_id },
                        )
                    },
                    Err(_) => (UsersNewFlow::Finished, respond_status(Status::InternalServerError)),
                };
                assert(res == self.next_with(reply, Err(())));
                res
            },
            UsersNewFlow::AwaitSessionPut { user, session_id } => {
                let res = match reply.into_done() {
                    Ok(_) => (
                        UsersNewFlow::Finished,
                        Command::Reply {
                            response: Response::NewAccount {
                                session_id,
                                identifier: user.identifier,
                                secret: user.secret,
                            },
                        },
                    ),
                    Err(_) => (UsersNewFlow::Finished, respond_status(Status::InternalServerError)),
                };
                assert(res == self.next_with(reply, Err(())));
                res
            },
            UsersNewFlow::Finished => {
                let res = (UsersNewFlow::Finished, respond_status(Status::InternalServerError));
                assert(res == self.next_with(reply, Err(())));
                res
            },
        }
    }
}

/// An account is stored only for a challenge that the cache reported
/// solved, and only after that very challenge was removed from the cache.
pub proof fn lemma_account_only_for_solved_token(
    seed: String,
    method: String,
    secret: Option<String>,
    first: Reply,
    second: Reply,
    created: Result<(User, Session), ()>,
)
    ensures
        ({
            let (f0, c0) = UsersNewFlow::started(seed, method, secret);
            let (f1, c1) = f0.next_with(first, created);
            let (f2, c2) = f1.next_with(second, created);
            c2 is InsertUser ==> {
                &&& c0 == Command::GetTokenState { seed }
                &&& first.token_state() == Ok::<i32, ()>(1)
                &&& c1 == Command::DeleteTokenState { seed }
                &&& second.done() is Ok
            }
        }),
{
}

/// The session that is stored belongs to the account that was stored, and
/// the new-account reply names that account, its secret and that session.
pub proof fn lemma_session_belongs_to_new_account(flow: UsersNewFlow, reply: Reply, created: Result<(User, Session), ()>)
    requires
        flow.consistent(),
    ensures
        flow.next_with(reply, created).1 matches Command::PutSession { session_id, user_id } ==> {
            &&& flow matches UsersNewFlow::AwaitWalletInsert { user, session }
            &&& user_id == user.identifier
            &&& session_id == session.session_id
            &&& flow.next_with(reply, created).0 == UsersNewFlow::AwaitSessionPut { user, session_id }
        },
        flow.next_with(reply, created).1 matches Command::Reply {
            response: Response::NewAccount { session_id, identifier, secret },
        } ==> {
            &&& flow matches UsersNewFlow::AwaitSessionPut { user, session_id: stored }
            &&& identifier == user.identifier
            &&& secret == user.secret
            &&& session_id == stored
            &&& reply.done() is Ok
        },
{
}

/// Every store answer either ends the request with its reply or brings it
/// closer to the end: a request is answered after at most `calls_left` store
/// calls, and a reply is sent exactly when the request is over.
pub proof fn lemma_users_new_flow_always_answers(flow: UsersNewFlow, reply: Reply, outcome: Result<(User, Session), ()>)
    requires
        !(flow is Finished),
    ensures
        ({
            let (after, command) = flow.next_with(reply, outcome);
            &&& command is Reply <==> after is Finished
            &&& after is Finished || after.calls_left() < flow.calls_left()
        }),
{
}

/// A solved challenge buys one account: the challenge is spent only when
/// the cache holds it as solved, spending it removes it, and a second
/// request with the same challenge against the cache that is left is
/// refused with `400 Bad Request`.
pub proof fn lemma_solved_token_buys_one_account(
    cache: Map<Seq<char>, i32>,
    seed: String,
    method: String,
    secret: Option<String>,
    other_method: String,
    other_secret: Option<String>,
    outcome: Result<(User, Session), ()>,
    other_outcome: Result<(User, Session), ()>,
)
    ensures
        ({
            let (first, _) = UsersNewFlow::started(seed, method, secret);
            let (spent, command) = first.next_with(token_state_answer(cache, seed@), outcome);
            command == Command::DeleteTokenState { seed } ==> {
                &&& cache.contains_key(seed@)
                &&& cache[seed@] == 1
                &&& {
                    let (second, _) = UsersNewFlow::started(seed, other_method, other_secret);
                    second.next_with(token_state_answer(cache.remove(seed@), seed@), other_outcome)
                        == (UsersNewFlow::Finished, reply_status(Status::BadRequest))
                }
            }
        }),
{
}

/// A challenge as it is handed out (recorded as issued) opens no account;
/// once it is solved (a stamp for its seed that carries the proof of work
/// was validated, and it is recorded as solved) it is spent on one.
pub proof fn lemma_only_validated_challenges_open_accounts(
    cache: Map<Seq<char>, i32>,
    token: Token,
    validation: TokenValidateFlow,
    reply: Reply,
    method: String,
    secret: Option<String>,
    outcome: Result<(User, Session), ()>,
)
    requires
        validation.holds_checked_token(),
    ensures
        NewTokenFlow::started_with(token).1 matches Command::PutTokenState { seed, value } ==> {
            let (flow, _) = UsersNewFlow::started(seed, method, secret);
            flow.next_with(token_state_answer(cache.insert(seed@, value), seed@), outcome) == (
                UsersNewFlow::Finished,
                reply_status(Status::BadRequest),
            )
        },
        validation.next(reply).1 matches Command::PutTokenState { seed, value } ==> {
            let (flow, _) = UsersNewFlow::started(seed, method, secret);
            &&& flow.next_with(token_state_answer(cache.insert(seed@, value), seed@), outcome).1
                == Command::DeleteTokenState { seed }
            &&& validation matches TokenValidateFlow::AwaitSelect { token: solved }
            &&& solved.stamp_matches()
            &&& solved.work_done()
        },
{
}

/// The account stored is the account that was made: once the challenge is
/// spent, the first write is the new account itself, with the method that
/// was asked for, its 20-character identifier and its TOTP secret; its
/// wallet and session are kept for the writes that follow. Where no account
/// could be made, nothing is written.
pub proof fn lemma_inserted_account_is_the_one_made(
    method: String,
    secret: Option<String>,
    reply: Reply,
    created: Result<(User, Session), ()>,
)
    requires
        reply.done() is Ok,
        is_account_outcome(method@, created),
    ensures
        ({
            let (flow, command) = UsersNewFlow::AwaitDelete { method, secret }.next_with(reply, created);
            &&& created is Ok <==> command is InsertUser
            &&& command matches Command::InsertUser { user } ==> {
                &&& created matches Ok((made, session))
                &&& user == made
                &&& user.method@ == method@
                &&& user.method@ == "totp"@
                &&& user.identifier@.len() == 20
                &&& flow == UsersNewFlow::AwaitUserInsert {
                    user: made,
                    wallet: Wallet { identifier: made.identifier, balance: DEFAULT_BALANCE },
                    session,
                }
                &&& session.user_id == user.identifier
            }
            &&& created is Err ==> command == reply_status(Status::BadRequest)
        }),
{
}

} // verus!
