use vstd::prelude::*;

use crate::configuration::AdminConfiguration;
use crate::protocol::{reply_status, respond_status, Command, Reply, Status};
use crate::wallets::models::{change_allowed, change_delta, change_fits, Wallet};

verus! {

/// A request to move `amount` into (`multiplier == 1`) or out of
/// (`multiplier == -1`) an account's balance.
pub struct BalanceChangeRequest {
    pub amount: u32,
    pub multiplier: i32,
}

/// Changing the balance of an account named in the request headers: check
/// the headers and the key, read the account and its wallet, change the
/// balance, store the wallet.
pub enum UserBalanceChangeFlow {
    AwaitUser { amount: u32, multiplier: i32 },
    AwaitWallet { amount: u32, multiplier: i32 },
    AwaitUpdate,
    Finished,
}

impl UserBalanceChangeFlow {
    /// At most how many store answers the request still waits for.
    pub open spec fn calls_left(self) -> nat {
        match self {
            UserBalanceChangeFlow::AwaitUser { .. } => 3,
            UserBalanceChangeFlow::AwaitWallet { .. } => 2,
            UserBalanceChangeFlow::AwaitUpdate => 1,
            UserBalanceChangeFlow::Finished => 0,
        }
    }

    /// The first state and command: `400 Bad Request` when a header is
    /// missing, `401 Unauthorized` when the key given *is* the
    /// administrator's key (the check is written that way round), else a
    /// lookup of the account.
    pub open spec fn started(
        admin: AdminConfiguration,
        admin_key: Option<String>,
        user_id: Option<String>,
        request: BalanceChangeRequest,
    ) -> (UserBalanceChangeFlow, Command) {
        match (admin_key, user_id) {
            (Some(key), Some(user_id)) => if admin.key@ == key@ {
                (UserBalanceChangeFlow::Finished, reply_status(Status::Unauthorized))
            } else {
                (
                    UserBalanceChangeFlow::AwaitUser { amount: request.amount, multiplier: request.multiplier },
                    Command::SelectUser { identifier: user_id },
                )
            },
            _ => (UserBalanceChangeFlow::Finished, reply_status(Status::BadRequest)),
        }
    }

    /// Checks the headers and the key, and asks for the account.
    pub fn start(
        admin: &AdminConfiguration,
        admin_key: Option<String>,
        user_id: Option<String>,
        request: BalanceChangeRequest,
    ) -> (res: (UserBalanceChangeFlow, Command))
        ensures
            res == Self::started(*admin, admin_key, user_id, request),
    {
        let key = match admin_key {
            Some(key) => key,
            None => return (UserBalanceChangeFlow::Finished, respond_status(Status::BadRequest)),
        };
        let user_id = match user_id {
            Some(user_id) => user_id,
            None => return (UserBalanceChangeFlow::Finished, respond_status(Status::BadRequest)),
        };
        if admin.key.eq(&key) {
            return (UserBalanceChangeFlow::Finished, respond_status(Status::Unauthorized));
        }
        (
            UserBalanceChangeFlow::AwaitUser { amount: request.amount, multiplier: request.multiplier },
            Command::SelectUser { identifier: user_id },
        )
    }

    /// The store answer can be taken in: a wallet read for a change must
    /// leave the change computable without overflow.
    pub open spec fn takes(self, reply: Reply) -> bool {
        self matches UserBalanceChangeFlow::AwaitWallet { amount, multiplier } ==> (reply.found_wallet() matches Ok(
            wallet,
        ) ==> change_fits(wallet.balance, amount, multiplier))
    }

    /// The next state and command after `reply`.
    pub open spec fn next(self, reply: Reply) -> (UserBalanceChangeFlow, Command) {
        match self {
            UserBalanceChangeFlow::AwaitUser { amount, multiplier } => match reply.found_user() {
                Ok(user) => (
                    UserBalanceChangeFlow::AwaitWallet { amount, multiplier },
                    Command::SelectWallet { identifier: user.identifier },
                ),
                Err(_) => (UserBalanceChangeFlow::Finished, reply_status(Status::BadRequest)),
            },
            UserBalanceChangeFlow::AwaitWallet { amount, multiplier } => match reply.found_wallet() {
                Ok(wallet) => match wallet.change_result(amount, multiplier) {
                    Some(changed) => (UserBalanceChangeFlow::AwaitUpdate, Command::UpdateWallet { wallet: changed }),
                    None => (UserBalanceChangeFlow::Finished, reply_status(Status::InternalServerError)),
                },
                Err(_) => (UserBalanceChangeFlow::Finished, reply_status(Status::BadRequest)),
            },
            UserBalanceChangeFlow::AwaitUpdate => match reply.done() {
                Ok(_) => (UserBalanceChangeFlow::Finished, reply_status(Status::Success)),
                Err(_) => (UserBalanceChangeFlow::Finished, reply_status(Status::InternalServerError)),
            },
            UserBalanceChangeFlow::Finished => (
                UserBalanceChangeFlow::Finished,
                reply_status(Status::InternalServerError),
            ),
        }
    }

    /// Takes in what the database answered.
    pub fn step(self, reply: Reply) -> (res: (UserBalanceChangeFlow, Command))
        requires
            !(self is Finished),
            self.takes(reply),
        ensures
            res == self.next(reply),
    {
        match self {
            UserBalanceChangeFlow::AwaitUser { amount, multiplier } => match reply.into_found_user() {
                Ok(user) => (
                    UserBalanceChangeFlow::AwaitWallet { amount, multiplier },
                    Command::SelectWallet { identifier: user.identifier },
                ),
                Err(_) => (UserBalanceChangeFlow::Finished, respond_status(Status::BadRequest)),
            },
            UserBalanceChangeFlow::AwaitWallet { amount, multiplier } => match reply.into_found_wallet() {
                Ok(wallet) => {
                    let mut wallet = wallet;
                    match wallet.balance_change(amount, multiplier) {
                        Ok(_) => (UserBalanceChangeFlow::AwaitUpdate, Command::UpdateWallet { wallet }),
                        Err(_) => (UserBalanceChangeFlow::Finished, respond_status(Status::InternalServerError)),
                    }
                },
                Err(_) => (UserBalanceChangeFlow::Finished, respond_status(Status::BadRequest)),
            },
            UserBalanceChangeFlow::AwaitUpdate => match reply.into_done() {
                Ok(_) => (UserBalanceChangeFlow::Finished, respond_status(Status::Success)),
                Err(_) => (UserBalanceChangeFlow::Finished, respond_status(Status::InternalServerError)),
            },
            UserBalanceChangeFlow::Finished => (
                UserBalanceChangeFlow::Finished,
                respond_status(Status::InternalServerError),
            ),
        }
    }
}

/// A wallet is written back only as the accepted change of the wallet that
/// was read, so it is never overdrawn by this request.
pub proof fn lemma_stored_wallet_is_accepted_change(flow: UserBalanceChangeFlow, reply: Reply)
    requires
        flow.takes(reply),
    ensures
        flow.next(reply).1 matches Command::UpdateWallet { wallet } ==> {
            &&& flow matches UserBalanceChangeFlow::AwaitWallet { amount, multiplier }
            &&& reply.found_wallet() matches Ok(read)
            &&& read.change_result(amount, multiplier) == Some(wallet)
            &&& wallet.balance >= 0
            &&& wallet.identifier == read.identifier
        },
{
}

/// Every store answer either ends the request with its reply or brings it
/// closer to the end: a request is answered after at most `calls_left` store
/// calls, and a reply is sent exactly when the request is over.
pub proof fn lemma_user_balance_change_flow_always_answers(flow: UserBalanceChangeFlow, reply: Reply)
    requires
        !(flow is Finished),
    ensures
        ({
            let (after, command) = flow.next(reply);
            &&& command is Reply <==> after is Finished
            &&& after is Finished || after.calls_left() < flow.calls_left()
        }),
{
}

/// The change requested is the change made: for an account and a wallet
/// that are found, the wallet written back is the one read with its balance
/// moved by the requested amount times the requested multiplier, and it is
/// written exactly when that change is allowed (else `500`); a written
/// change ends in `200`.
pub proof fn lemma_requested_change_is_applied(
    admin: AdminConfiguration,
    admin_key: String,
    user_id: String,
    request: BalanceChangeRequest,
    found_user: Reply,
    found_wallet: Reply,
    stored: Reply,
)
    requires
        admin.key@ != admin_key@,
        found_user.found_user() is Ok,
        found_wallet.found_wallet() matches Ok(read) ==> change_fits(read.balance, request.amount, request.multiplier),
    ensures
        ({
            let (f0, c0) = UserBalanceChangeFlow::started(admin, Some(admin_key), Some(user_id), request);
            let (f1, c1) = f0.next(found_user);
            let (f2, c2) = f1.next(found_wallet);
            let (f3, c3) = f2.next(stored);
            &&& c0 == Command::SelectUser { identifier: user_id }
            &&& found_user.found_user() matches Ok(user) && c1 == Command::SelectWallet {
                identifier: user.identifier,
            }
            &&& found_wallet.found_wallet() matches Ok(read) ==> {
                &&& change_allowed(read.balance, request.amount, request.multiplier) ==> {
                    &&& c2 == Command::UpdateWallet {
                        wallet: Wallet {
                            identifier: read.identifier,
                            balance: (read.balance + change_delta(request.amount, request.multiplier)) as i32,
                        },
                    }
                    &&& read.balance + change_delta(request.amount, request.multiplier) >= 0
                    &&& stored.done() is Ok ==> c3 == reply_status(Status::Success)
                }
                &&& !change_allowed(read.balance, request.amount, request.multiplier) ==> c2 == reply_status(
                    Status::InternalServerError,
                )
            }
        }),
{
}

} // verus!
