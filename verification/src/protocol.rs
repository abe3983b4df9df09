use vstd::prelude::*;

use crate::tokens::models::Token;
use crate::users::models::User;
use crate::wallets::models::Wallet;

verus! {

/// The HTTP status of a reply.
pub enum Status {
    Success,
    BadRequest,
    Unauthorized,
    NotAcceptable,
    InternalServerError,
}

impl Status {
    /// The numeric HTTP status code.
    pub open spec fn numeric(self) -> u16 {
        match self {
            Status::Success => 200,
            Status::BadRequest => 400,
            Status::Unauthorized => 401,
            Status::NotAcceptable => 406,
            Status::InternalServerError => 500,
        }
    }

    /// The numeric HTTP status code.
    pub fn code(&self) -> (c: u16)
        ensures
            c == self.numeric(),
    {
        match self {
            Status::Success => 200,
            Status::BadRequest => 400,
            Status::Unauthorized => 401,
            Status::NotAcceptable => 406,
            Status::InternalServerError => 500,
        }
    }
}

/// What an endpoint answers. Every variant but `Status` is a `200 OK`
/// reply with a JSON body.
pub enum Response {
    /// A reply without a body.
    Status(Status),
    /// A new proof-of-work challenge.
    NewToken(Token),
    /// A new account.
    NewUser(User),
    /// The account a session belongs to.
    UserId(String),
    /// How the account authenticates, and its login challenge if any.
    LoginChallenge { method: String, proof: Option<String> },
    /// The balance of a wallet.
    Balance(i32),
    /// The identifier of the account that was removed.
    Identifier(String),
    /// A new account with its wallet and first session.
    NewAccount { session_id: String, identifier: String, secret: String },
}

/// The next thing an endpoint needs done: a call to one of the stores, or
/// the reply to send, which ends the request.
pub enum Command {
    /// Read the state of a challenge in the cache (0 issued, 1 solved).
    GetTokenState { seed: String },
    /// Remove a challenge from the cache.
    DeleteTokenState { seed: String },
    /// Store the state of a challenge in the cache.
    PutTokenState { seed: String, value: i32 },
    /// Read the account a session belongs to, from the cache.
    GetSession { session_id: String },
    /// Store a session in the cache.
    PutSession { session_id: String, user_id: String },
    /// Read an account from the database.
    SelectUser { identifier: String },
    /// Add an account to the database.
    InsertUser { user: User },
    /// Remove an account from the database.
    DeleteUser { user: User },
    /// Read a wallet from the database.
    SelectWallet { identifier: String },
    /// Add a wallet to the database.
    InsertWallet { wallet: Wallet },
    /// Store a changed wallet in the database.
    UpdateWallet { wallet: Wallet },
    /// Remove a wallet from the database.
    DeleteWallet { wallet: Wallet },
    /// Read a solved challenge from the database.
    SelectToken { seed: String },
    /// Add a solved challenge to the database.
    InsertToken { token: Token },
    /// Send this reply; the request is over.
    Reply { response: Response },
}

/// What a store call came back with. A reply of another kind than the
/// call asked for counts as a failed call.
pub enum Reply {
    TokenState(Result<i32, ()>),
    Session(Result<String, ()>),
    Done(Result<(), ()>),
    FoundUser(Result<User, ()>),
    FoundWallet(Result<Wallet, ()>),
    FoundToken(Result<Token, ()>),
}

impl Reply {
    /// The challenge state that came back, if this is such a reply.
    pub open spec fn token_state(self) -> Result<i32, ()> {
        match self {
            Reply::TokenState(r) => r,
            _ => Err(()),
        }
    }

    /// The session owner that came back, if this is such a reply.
    pub open spec fn session(self) -> Result<String, ()> {
        match self {
            Reply::Session(r) => r,
            _ => Err(()),
        }
    }

    /// Whether a write succeeded, if this is such a reply.
    pub open spec fn done(self) -> Result<(), ()> {
        match self {
            Reply::Done(r) => r,
            _ => Err(()),
        }
    }

    /// The account that came back, if this is such a reply.
    pub open spec fn found_user(self) -> Result<User, ()> {
        match self {
            Reply::FoundUser(r) => r,
            _ => Err(()),
        }
    }

    /// The wallet that came back, if this is such a reply.
    pub open spec fn found_wallet(self) -> Result<Wallet, ()> {
        match self {
            Reply::FoundWallet(r) => r,
            _ => Err(()),
        }
    }

    /// The solved challenge that came back, if this is such a reply.
    pub open spec fn found_token(self) -> Result<Token, ()> {
        match self {
            Reply::FoundToken(r) => r,
            _ => Err(()),
        }
    }

    /// The challenge state that came back.
    pub fn into_token_state(self) -> (r: Result<i32, ()>)
        ensures
            r == self.token_state(),
    {
        match self {
            Reply::TokenState(r) => r,
            _ => Err(()),
        }
    }

    /// The session owner that came back.
    pub fn into_session(self) -> (r: Result<String, ()>)
        ensures
            r == self.session(),
    {
        match self {
            Reply::Session(r) => r,
            _ => Err(()),
        }
    }

    /// Whether the write succeeded.
    pub fn into_done(self) -> (r: Result<(), ()>)
        ensures
            r == self.done(),
    {
        match self {
            Reply::Done(r) => r,
            _ => Err(()),
        }
    }

    /// The account that came back.
    pub fn into_found_user(self) -> (r: Result<User, ()>)
        ensures
            r == self.found_user(),
    {
        match self {
            Reply::FoundUser(r) => r,
            _ => Err(()),
        }
    }

    /// The wallet that came back.
    pub fn into_found_wallet(self) -> (r: Result<Wallet, ()>)
        ensures
            r == self.found_wallet(),
    {
        match self {
            Reply::FoundWallet(r) => r,
            _ => Err(()),
        }
    }

    /// The solved challenge that came back.
    pub fn into_found_token(self) -> (r: Result<Token, ()>)
        ensures
            r == self.found_token(),
    {
        match self {
            Reply::FoundToken(r) => r,
            _ => Err(()),
        }
    }
}

/// What a cache holding `cache` (challenge seed to state) answers when
/// asked for the state of `seed`.
pub open spec fn token_state_answer(cache: Map<Seq<char>, i32>, seed: Seq<char>) -> Reply {
    if cache.contains_key(seed) {
        Reply::TokenState(Ok(cache[seed]))
    } else {
        Reply::TokenState(Err(()))
    }
}

/// A reply without a body.
pub open spec fn reply_status(status: Status) -> Command {
    Command::Reply { response: Response::Status(status) }
}

/// A command that ends the request with a reply without a body.
pub fn respond_status(status: Status) -> (c: Command)
    ensures
        c == reply_status(status),
{
    Command::Reply { response: Response::Status(status) }
}

} // verus!
