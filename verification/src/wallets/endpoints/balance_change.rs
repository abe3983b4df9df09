use vstd::prelude::*;

use crate::configuration::AdminConfiguration;
use crate::protocol::{reply_status, respond_status, Command, Reply, Response, Status};
use crate::wallets::models::{change_fits, Wallet};

verus! {

/// Changing the balance of a wallet: check the key, read the wallet,
/// change its balance, store it, and answer with the new balance.
pub enum WalletBalanceChangeFlow {
    AwaitWallet { amount: u32, multiplier: i32 },
    AwaitUpdate { balance: i32 },
    Finished,
}

impl WalletBalanceChangeFlow {
    /// At most how many store answers the request still waits for.
    pub open spec fn calls_left(self) -> nat {
        match self {
            WalletBalanceChangeFlow::AwaitWallet { .. } => 2,
            WalletBalanceChangeFlow::AwaitUpdate { .. } => 1,
            WalletBalanceChangeFlow::Finished => 0,
        }
    }

    /// The first state and command: `401 Unauthorized` when the key given
    /// *is* the administrator's key (the check is written that way round),
    /// else a lookup of the wallet.
    pub open spec fn started(
        admin: AdminConfiguration,
        admin_key: String,
        identifier: String,
        amount: u32,
        multiplier: i32,
    ) -> (WalletBalanceChangeFlow, Command) {
        if admin.key@ == admin_key@ {
            (WalletBalanceChangeFlow::Finished, reply_status(Status::Unauthorized))
        } else {
            (WalletBalanceChangeFlow::AwaitWallet { amount, multiplier }, Command::SelectWallet { identifier })
        }
    }

    /// Checks the key and asks for the wallet.
    pub fn start(
        admin: &AdminConfiguration,
        admin_key: String,
        identifier: String,
        amount: u32,
        multiplier: i32,
    ) -> (res: (WalletBalanceChangeFlow, Command))
        ensures
            res == Self::started(*admin, admin_key, identifier, amount, multiplier),
    {
        if admin.key.eq(&admin_key) {
            return (WalletBalanceChangeFlow::Finished, respond_status(Status::Unauthorized));
        }
        (WalletBalanceChangeFlow::AwaitWallet { amount, multiplier }, Command::SelectWallet { identifier })
    }

    /// The store answer can be taken in: a wallet read for a change must
    /// leave the change computable without overflow.
    pub open spec fn takes(self, reply: Reply) -> bool {
        self matches WalletBalanceChangeFlow::AwaitWallet { amount, multiplier } ==> (reply.found_wallet() matches Ok(
            wallet,
        ) ==> change_fits(wallet.balance, amount, multiplier))
    }

    /// The next state and command after `reply`: `400 Bad Request` for an
    /// unknown wallet, `500 Internal Server Error` for a refused change or
    /// a failed write, else the new balance.
    pub open spec fn next(self, reply: Reply) -> (WalletBalanceChangeFlow, Command) {
        match self {
            WalletBalanceChangeFlow::AwaitWallet { amount, multiplier } => match reply.found_wallet() {
                Ok(wallet) => match wallet.change_result(amount, multiplier) {
                    Some(changed) => (
                        WalletBalanceChangeFlow::AwaitUpdate { balance: changed.balance },
                        Command::UpdateWallet { wallet: changed },
                    ),
                    None => (WalletBalanceChangeFlow::Finished, reply_status(Status::InternalServerError)),
                },
                Err(_) => (WalletBalanceChangeFlow::Finished, reply_status(Status::BadRequest)),
            },
            WalletBalanceChangeFlow::AwaitUpdate { balance } => match reply.done() {
                Ok(_) => (WalletBalanceChangeFlow::Finished, Command::Reply { response: Response::Balance(balance) }),
                Err(_) => (WalletBalanceChangeFlow::Finished, reply_status(Status::InternalServerError)),
            },
            WalletBalanceChangeFlow::Finished => (
                WalletBalanceChangeFlow::Finished,
                reply_status(Status::InternalServerError),
            ),
        }
    }

    /// Takes in what the database answered.
    pub fn step(self, reply: Reply) -> (res: (WalletBalanceChangeFlow, Command))
        requires
            !(self is Finished),
            self.takes(reply),
        ensures
            res == self.next(reply),
    {
        match self {
            WalletBalanceChangeFlow::AwaitWallet { amount, multiplier } => match reply.into_found_wallet() {
                Ok(wallet) => {
                    let mut wallet = wallet;
                    match wallet.balance_change(amount, multiplier) {
                        Ok(_) => {
                            let balance = wallet.balance;
                            (WalletBalanceChangeFlow::AwaitUpdate { balance }, Command::UpdateWallet { wallet })
                        },
                        Err(_) => (WalletBalanceChangeFlow::Finished, respond_status(Status::InternalServerError)),
                    }
                },
                Err(_) => (WalletBalanceChangeFlow::Finished, respond_status(Status::BadRequest)),
            },
            WalletBalanceChangeFlow::AwaitUpdate { balance } => match reply.into_done() {
                Ok(_) => (WalletBalanceChangeFlow::Finished, Command::Reply { response: Response::Balance(balance) }),
                Err(_) => (WalletBalanceChangeFlow::Finished, respond_status(Status::InternalServerError)),
            },
            WalletBalanceChangeFlow::Finished => (
                WalletBalanceChangeFlow::Finished,
                respond_status(Status::InternalServerError),
            ),
        }
    }
}

/// The balance reported is the balance of the wallet that was stored, it
/// is the accepted change of the wallet that was read, it is never
/// negative, and it is reported only once the database took the write.
pub proof fn lemma_reported_balance_was_stored(
    admin: AdminConfiguration,
    admin_key: String,
    identifier: String,
    amount: u32,
    multiplier: i32,
    first: Reply,
    second: Reply,
)
    requires
        WalletBalanceChangeFlow::started(admin, admin_key, identifier, amount, multiplier).0.takes(first),
    ensures
        ({
            let (f0, c0) = WalletBalanceChangeFlow::started(admin, admin_key, identifier, amount, multiplier);
            let (f1, c1) = f0.next(first);
            let (f2, c2) = f1.next(second);
            c2 matches Command::Reply { response: Response::Balance(balance) } ==> {
                &&& admin.key@ != admin_key@
                &&& c0 == Command::SelectWallet { identifier }
                &&& first.found_wallet() matches Ok(read)
                &&& read.change_result(amount, multiplier) matches Some(changed)
                &&& c1 == Command::UpdateWallet { wallet: changed }
                &&& changed.balance == balance
                &&& balance >= 0
                &&& second.done() is Ok
            }
        }),
{
}

/// Every store answer either ends the request with its reply or brings it
/// closer to the end: a request is answered after at most `calls_left` store
/// calls, and a reply is sent exactly when the request is over.
pub proof fn lemma_wallet_balance_change_flow_always_answers(flow: WalletBalanceChangeFlow, reply: Reply)
    requires
        !(flow is Finished),
    ensures
        ({
            let (after, command) = flow.next(reply);
            &&& command is Reply <==> after is Finished
            &&& after is Finished || after.calls_left() < flow.calls_left()
        }),
{
}

} // verus!
