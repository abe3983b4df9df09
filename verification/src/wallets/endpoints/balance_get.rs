use vstd::prelude::*;

use crate::protocol::{reply_status, respond_status, Command, Reply, Response, Status};

verus! {

/// Reading the balance of the account behind a session: look up the
/// session, read the account's wallet, answer with its balance.
pub enum BalanceGetFlow {
    AwaitSession,
    AwaitWallet,
    Finished,
}

impl BalanceGetFlow {
    /// At most how many store answers the request still waits for.
    pub open spec fn calls_left(self) -> nat {
        match self {
            BalanceGetFlow::AwaitSession => 2,
            BalanceGetFlow::AwaitWallet => 1,
            BalanceGetFlow::Finished => 0,
        }
    }

    /// The first state and command: a lookup of the session.
    pub open spec fn started(session_id: String) -> (BalanceGetFlow, Command) {
        (BalanceGetFlow::AwaitSession, Command::GetSession { session_id })
    }

    /// Asks the cache for the session's account.
    pub fn start(session_id: String) -> (res: (BalanceGetFlow, Command))
        ensures
            res == Self::started(session_id),
    {
        (BalanceGetFlow::AwaitSession, Command::GetSession { session_id })
    }

    /// The next state and command after `reply`: `401 Unauthorized` for an
    /// unknown session, `500 Internal Server Error` when its account has no
    /// wallet.
    pub open spec fn next(self, reply: Reply) -> (BalanceGetFlow, Command) {
        match self {
            BalanceGetFlow::AwaitSession => match reply.session() {
                Ok(identifier) => (BalanceGetFlow::AwaitWallet, Command::SelectWallet { identifier }),
                Err(_) => (BalanceGetFlow::Finished, reply_status(Status::Unauthorized)),
            },
            BalanceGetFlow::AwaitWallet => match reply.found_wallet() {
                Ok(wallet) => (BalanceGetFlow::Finished, Command::Reply { response: Response::Balance(wallet.balance) }),
                Err(_) => (BalanceGetFlow::Finished, reply_status(Status::InternalServerError)),
            },
            BalanceGetFlow::Finished => (BalanceGetFlow::Finished, reply_status(Status::InternalServerError)),
        }
    }

    /// Takes in what the store answered.
    pub fn step(self, reply: Reply) -> (res: (BalanceGetFlow, Command))
        requires
            !(self is Finished),
        ensures
            res == self.next(reply),
    {
        match self {
            BalanceGetFlow::AwaitSession => match reply.into_session() {
                Ok(identifier) => (BalanceGetFlow::AwaitWallet, Command::SelectWallet { identifier }),
                Err(_) => (BalanceGetFlow::Finished, respond_status(Status::Unauthorized)),
            },
            BalanceGetFlow::AwaitWallet => match reply.into_found_wallet() {
                Ok(wallet) => (BalanceGetFlow::Finished, Command::Reply { response: Response::Balance(wallet.balance) }),
                Err(_) => (BalanceGetFlow::Finished, respond_status(Status::InternalServerError)),
            },
            BalanceGetFlow::Finished => (BalanceGetFlow::Finished, respond_status(Status::InternalServerError)),
        }
    }
}

/// A balance is shown only for a known session, and it is the balance of
/// the wallet of that session's account.
pub proof fn lemma_balance_only_for_known_session(session_id: String, first: Reply, second: Reply)
    ensures
        ({
            let (f0, c0) = BalanceGetFlow::started(session_id);
            let (f1, c1) = f0.next(first);
            let (f2, c2) = f1.next(second);
            c2 matches Command::Reply { response: Response::Balance(balance) } ==> {
                &&& first.session() matches Ok(identifier)
                &&& c1 == Command::SelectWallet { identifier }
                &&& second.found_wallet() matches Ok(wallet)
                &&& wallet.balance == balance
            }
        }),
{
}

/// Every store answer either ends the request with its reply or brings it
/// closer to the end: a request is answered after at most `calls_left` store
/// calls, and a reply is sent exactly when the request is over.
pub proof fn lemma_balance_get_flow_always_answers(flow: BalanceGetFlow, reply: Reply)
    requires
        !(flow is Finished),
    ensures
        ({
            let (after, command) = flow.next(reply);
            &&& command is Reply <==> after is Finished
            &&& after is Finished || after.calls_left() < flow.calls_left()
        }),
{
}

/// For a known session whose account has a wallet, the request reads that
/// account's wallet and answers with its balance, whatever the balance is.
pub proof fn lemma_known_session_gets_its_balance(session_id: String, first: Reply, second: Reply)
    ensures
        ({
            let (f0, c0) = BalanceGetFlow::started(session_id);
            let (f1, c1) = f0.next(first);
            let (f2, c2) = f1.next(second);
            &&& c0 == Command::GetSession { session_id }
            &&& first.session() matches Ok(identifier) ==> {
                &&& c1 == Command::SelectWallet { identifier }
                &&& second.found_wallet() matches Ok(wallet) ==> c2 == Command::Reply {
                    response: Response::Balance(wallet.balance),
                }
            }
            &&& first.session() is Err ==> c1 == reply_status(Status::Unauthorized)
        }),
{
}

} // verus!
