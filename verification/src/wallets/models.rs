use vstd::prelude::*;

use crate::users::models::User;

verus! {

/// The balance every new wallet starts with.
pub const DEFAULT_BALANCE: i32 = 0;

/// The balance of one account, found by the account's identifier.
pub struct Wallet {
    pub identifier: String,
    pub balance: i32,
}

impl Clone for Wallet {
    fn clone(&self) -> (copy: Wallet)
        ensures
            copy == *self,
    {
        Wallet { identifier: self.identifier.clone(), balance: self.balance }
    }
}

/// The signed amount that a change moves: the amount taken as an `i32`
/// (as Rust's `as` does it) times the multiplier.
pub open spec fn change_delta(amount: u32, multiplier: i32) -> int {
    (amount as i32) * multiplier
}

/// The change can be computed in `i32` arithmetic without overflow.
pub open spec fn change_fits(balance: i32, amount: u32, multiplier: i32) -> bool {
    &&& i32::MIN <= change_delta(amount, multiplier) <= i32::MAX
    &&& i32::MIN <= balance + change_delta(amount, multiplier) <= i32::MAX
}

/// A change is accepted when the amount is positive, the multiplier is
/// `1` (deposit) or `-1` (withdrawal), and the balance stays non-negative.
pub open spec fn change_allowed(balance: i32, amount: u32, multiplier: i32) -> bool {
    &&& amount > 0
    &&& (multiplier == 1 || multiplier == -1)
    &&& balance + change_delta(amount, multiplier) >= 0
}

impl Wallet {
    /// The wallet of a new account: same identifier, default balance.
    pub fn new(user: &User) -> (wallet: Wallet)
        ensures
            wallet.identifier == user.identifier,
            wallet.balance == DEFAULT_BALANCE,
    {
        Wallet { identifier: user.identifier.clone(), balance: DEFAULT_BALANCE }
    }

    /// The wallet after a change, or `None` where the change is refused.
    pub open spec fn change_result(self, amount: u32, multiplier: i32) -> Option<Wallet> {
        if change_allowed(self.balance, amount, multiplier) {
            Some(
                Wallet {
                    identifier: self.identifier,
                    balance: (self.balance + change_delta(amount, multiplier)) as i32,
                },
            )
        } else {
            None
        }
    }

    /// Moves `amount` into (`multiplier == 1`) or out of
    /// (`multiplier == -1`) the wallet. Refused, leaving the wallet as it
    /// was, when the amount is zero, the multiplier is anything else, or the
    /// balance would become negative.
    pub fn balance_change(&mut self, amount: u32, multiplier: i32) -> (res: Result<(), ()>)
        requires
            change_fits(old(self).balance, amount, multiplier),
        ensures
            res is Ok <==> change_allowed(old(self).balance, amount, multiplier),
            res is Ok ==> Some(*final(self)) == old(self).change_result(amount, multiplier),
            res is Ok ==> final(self).balance >= 0,
            res is Err ==> *final(self) == *old(self),
            old(self).balance >= 0 ==> final(self).balance >= 0,
    {
        let amount_checks = amount > 0;
        let multiplier_checks = multiplier == -1 || multiplier == 1;
        let balance_checks = (self.balance + (amount as i32 * multiplier)) >= 0;

        if amount_checks && multiplier_checks && balance_checks {
            self.balance = self.balance + amount as i32 * multiplier;
            return Ok(());
        }
        Err(())
    }
}

/// A withdrawal of what was just deposited gives the wallet back as it
/// was, for every accepted deposit into a wallet that was not overdrawn;
/// the withdrawal can be computed without overflow.
pub proof fn lemma_withdrawal_undoes_deposit(wallet: Wallet, amount: u32)
    requires
        wallet.balance >= 0,
        change_fits(wallet.balance, amount, 1i32),
        wallet.change_result(amount, 1i32) is Some,
    ensures
        change_fits(wallet.change_result(amount, 1i32).unwrap().balance, amount, -1i32),
        wallet.change_result(amount, 1i32).unwrap().change_result(amount, -1i32) == Some(wallet),
{
}

/// A deposit of what was just withdrawn gives the wallet back as it was,
/// for every accepted withdrawal from a wallet that was not overdrawn; the
/// deposit can be computed without overflow.
pub proof fn lemma_deposit_undoes_withdrawal(wallet: Wallet, amount: u32)
    requires
        wallet.balance >= 0,
        change_fits(wallet.balance, amount, -1i32),
        wallet.change_result(amount, -1i32) is Some,
    ensures
        change_fits(wallet.change_result(amount, -1i32).unwrap().balance, amount, 1i32),
        wallet.change_result(amount, -1i32).unwrap().change_result(amount, 1i32) == Some(wallet),
{
}

/// Every accepted change leaves a non-negative balance and the same
/// identifier: no sequence of changes can overdraw a wallet.
pub proof fn lemma_change_keeps_wallet_solvent(wallet: Wallet, amount: u32, multiplier: i32)
    requires
        change_fits(wallet.balance, amount, multiplier),
    ensures
        wallet.change_result(amount, multiplier) matches Some(w) ==> w.balance >= 0
            && w.identifier == wallet.identifier,
{
}

} // verus!
