use vstd::prelude::*;

pub mod balance_change;
pub mod user_delete;
pub mod user_new;
pub mod users_delete;
pub mod users_new;

verus! {

/// Which way a balance change goes.
pub enum BalanceOperation {
    Deposit,
    Withdrawal,
}

impl BalanceOperation {
    /// The multiplier of the operation: `1` for a deposit, `-1` for a
    /// withdrawal.
    pub open spec fn sign(self) -> i32 {
        match self {
            BalanceOperation::Deposit => 1i32,
            BalanceOperation::Withdrawal => -1i32,
        }
    }

    /// The multiplier of the operation.
    pub fn multiplier(&self) -> (m: i32)
        ensures
            m == self.sign(),
    {
        match self {
            BalanceOperation::Deposit => 1,
            BalanceOperation::Withdrawal => -1,
        }
    }
}

/// A request to move an amount into or out of an account's balance.
pub struct BalanceChangeRequest {
    pub amount: u32,
    pub operation: BalanceOperation,
}

/// A request to remove an account.
pub struct UserDeletionRequest {
    pub identifier: String,
}

} // verus!
