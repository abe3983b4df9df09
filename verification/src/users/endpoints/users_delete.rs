use vstd::prelude::*;

use crate::configuration::AdminConfiguration;
use crate::protocol::{reply_status, respond_status, Command, Reply, Response, Status};
use crate::users::models::User;

verus! {

/// Removing an account and its wallet at the administrator's request:
/// check the key, read the account and the wallet, then delete both, the
/// account even where the wallet could not be deleted.
pub enum UsersDeleteFlow {
    AwaitUser { identifier: String },
    AwaitWallet { identifier: String, user: User },
    AwaitWalletDelete { identifier: String, user: User },
    AwaitUserDelete { identifier: String, wallet_failed: bool },
    Finished,
}

impl UsersDeleteFlow {
    /// At most how many store answers the request still waits for.
    pub open spec fn calls_left(self) -> nat {
        match self {
            UsersDeleteFlow::AwaitUser { .. } => 4,
            UsersDeleteFlow::AwaitWallet { .. } => 3,
            UsersDeleteFlow::AwaitWalletDelete { .. } => 2,
            UsersDeleteFlow::AwaitUserDelete { .. } => 1,
            UsersDeleteFlow::Finished => 0,
        }
    }

    /// The first state and command: `401 Unauthorized` with a wrong
    /// administrator key, else a lookup of the account.
    pub open spec fn started(admin: AdminConfiguration, admin_key: String, identifier: String) -> (
        UsersDeleteFlow,
        Command,
    ) {
        if admin.key@ == admin_key@ {
            (UsersDeleteFlow::AwaitUser { identifier }, Command::SelectUser { identifier })
        } else {
            (UsersDeleteFlow::Finished, reply_status(Status::Unauthorized))
        }
    }

    /// Checks the administrator key and asks for the account.
    pub fn start(admin: &AdminConfiguration, admin_key: String, identifier: String) -> (res: (
        UsersDeleteFlow,
        Command,
    ))
        ensures
            res == Self::started(*admin, admin_key, identifier),
    {
        match admin.check(&admin_key) {
            Ok(_) => {
                let key = identifier.clone();
                (UsersDeleteFlow::AwaitUser { identifier }, Command::SelectUser { identifier: key })
            },
            Err(_) => (UsersDeleteFlow::Finished, respond_status(Status::Unauthorized)),
        }
    }

    /// The next state and command after `reply`.
    pub open spec fn next(self, reply: Reply) -> (UsersDeleteFlow, Command) {
        match self {
            UsersDeleteFlow::AwaitUser { identifier } => match reply.found_user() {
                Ok(user) => (
                    UsersDeleteFlow::AwaitWallet { identifier, user },
                    Command::SelectWallet { identifier },
                ),
                Err(_) => (UsersDeleteFlow::Finished, reply_status(Status::BadRequest)),
            },
            UsersDeleteFlow::AwaitWallet { identifier, user } => match reply.found_wallet() {
                Ok(wallet) => (
                    UsersDeleteFlow::AwaitWalletDelete { identifier, user },
                    Command::DeleteWallet { wallet },
                ),
                Err(_) => (UsersDeleteFlow::Finished, reply_status(Status::BadRequest)),
            },
            UsersDeleteFlow::AwaitWalletDelete { identifier, user } => (
                UsersDeleteFlow::AwaitUserDelete { identifier, wallet_failed: reply.done() is Err },
                Command::DeleteUser { user },
            ),
            UsersDeleteFlow::AwaitUserDelete { identifier, wallet_failed } => if wallet_failed
                || reply.done() is Err {
                (UsersDeleteFlow::Finished, reply_status(Status::InternalServerError))
            } else {
                (UsersDeleteFlow::Finished, Command::Reply { response: Response::Identifier(identifier) })
            },
            UsersDeleteFlow::Finished => (UsersDeleteFlow::Finished, reply_status(Status::InternalServerError)),
        }
    }

    /// Takes in what the database answered.
    pub fn step(self, reply: Reply) -> (res: (UsersDeleteFlow, Command))
        requires
            !(self is Finished),
        ensures
            res == self.next(reply),
    {
        match self {
            UsersDeleteFlow::AwaitUser { identifier } => match reply.into_found_user() {
                Ok(user) => {
                    let key = identifier.clone();
                    (UsersDeleteFlow::AwaitWallet { identifier, user }, Command::SelectWallet { identifier: key })
                },
                Err(_) => (UsersDeleteFlow::Finished, respond_status(Status::BadRequest)),
            },
            UsersDeleteFlow::AwaitWallet { identifier, user } => match reply.into_found_wallet() {
                Ok(wallet) => (
                    UsersDeleteFlow::AwaitWalletDelete { identifier, user },
                    Command::DeleteWallet { wallet },
                ),
                Err(_) => (UsersDeleteFlow::Finished, respond_status(Status::BadRequest)),
            },
            UsersDeleteFlow::AwaitWalletDelete { identifier, user } => {
                let wallet_failed = reply.into_done().is_err();
                (UsersDeleteFlow::AwaitUserDelete { identifier, wallet_failed }, Command::DeleteUser { user })
            },
            UsersDeleteFlow::AwaitUserDelete { identifier, wallet_failed } => {
                let user_failed = reply.into_done().is_err();
                if wallet_failed || user_failed {
                    (UsersDeleteFlow::Finished, respond_status(Status::InternalServerError))
                } else {
                    (UsersDeleteFlow::Finished, Command::Reply { response: Response::Identifier(identifier) })
                }
            },
            UsersDeleteFlow::Finished => (UsersDeleteFlow::Finished, respond_status(Status::InternalServerError)),
        }
    }
}

/// Nothing is read or deleted without the administrator's key.
pub proof fn lemma_wrong_key_touches_nothing(admin: AdminConfiguration, admin_key: String, identifier: String)
    requires
        admin.key@ != admin_key@,
    ensures
        UsersDeleteFlow::started(admin, admin_key, identifier) == (
            UsersDeleteFlow::Finished,
            reply_status(Status::Unauthorized),
        ),
{
}

/// Once the wallet is found, both deletions are attempted: the account
/// is deleted whatever became of the wallet, and the removal is reported
/// only when both succeeded.
pub proof fn lemma_both_deletions_attempted(
    identifier: String,
    user: User,
    wallet_reply: Reply,
    user_reply: Reply,
)
    ensures
        ({
            let (f1, c1) = UsersDeleteFlow::AwaitWalletDelete { identifier, user }.next(wallet_reply);
            let (f2, c2) = f1.next(user_reply);
            &&& c1 == Command::DeleteUser { user }
            &&& c2 == Command::Reply { response: Response::Identifier(identifier) } <==> wallet_reply.done() is Ok
                && user_reply.done() is Ok
            &&& f2 is Finished
        }),
{
}

/// Every store answer either ends the request with its reply or brings it
/// closer to the end: a request is answered after at most `calls_left` store
/// calls, and a reply is sent exactly when the request is over.
pub proof fn lemma_users_delete_flow_always_answers(flow: UsersDeleteFlow, reply: Reply)
    requires
        !(flow is Finished),
    ensures
        ({
            let (after, command) = flow.next(reply);
            &&& command is Reply <==> after is Finished
            &&& after is Finished || after.calls_left() < flow.calls_left()
        }),
{
}

/// With the administrator's key, an account and a wallet that are found are
/// both deleted, the wallet first and then the account, whatever the wallet
/// holds; the removal is reported exactly when both deletions succeeded.
pub proof fn lemma_found_account_and_wallet_are_deleted(
    admin: AdminConfiguration,
    admin_key: String,
    identifier: String,
    found_user: Reply,
    found_wallet: Reply,
    wallet_deleted: Reply,
    user_deleted: Reply,
)
    requires
        admin.key@ == admin_key@,
    ensures
        ({
            let (f0, c0) = UsersDeleteFlow::started(admin, admin_key, identifier);
            let (f1, c1) = f0.next(found_user);
            let (f2, c2) = f1.next(found_wallet);
            let (f3, c3) = f2.next(wallet_deleted);
            let (f4, c4) = f3.next(user_deleted);
            &&& c0 == Command::SelectUser { identifier }
            &&& found_user.found_user() matches Ok(user) ==> {
                &&& c1 == Command::SelectWallet { identifier }
                &&& found_wallet.found_wallet() matches Ok(wallet) ==> {
                    &&& c2 == Command::DeleteWallet { wallet }
                    &&& c3 == Command::DeleteUser { user }
                    &&& (c4 == Command::Reply { response: Response::Identifier(identifier) } <==> wallet_deleted.done() is Ok
                        && user_deleted.done() is Ok)
                    &&& f4 is Finished
                }
            }
        }),
{
}

} // verus!
