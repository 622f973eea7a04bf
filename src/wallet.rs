//! A single-owner custodial wallet whose withdrawals hold a re-entrancy guard
//! from the checks until the transfer has been made.
//!
//! A withdrawal runs in two steps around the token transfer: `withdraw`
//! checks the request and takes the guard, the caller transfers the returned
//! amount, and `finish_withdraw` releases the guard. A nested `withdraw` made
//! while the transfer runs finds the guard taken.
use vstd::prelude::*;
use crate::address::Address;

verus! {

/// Why a wallet operation was refused; a refused operation leaves the
/// wallet as it was. `InvalidToken` is kept for callers and never returned.
#[derive(Clone, Copy, Debug, PartialEq, Eq, Structural)]
pub enum Error {
    InvalidToken,
    InsufficientBalance,
    InvalidAmount,
    Unauthorized,
    AlreadyInitialized,
    NotInitialized,
    Reentrancy,
}

pub struct SmartWallet {
    owner: Option<Address>,
    locked: bool,
}

pub struct WalletView {
    pub owner: Option<(bool, Seq<u8>)>,
    pub locked: bool,
}

impl View for SmartWallet {
    type V = WalletView;

    closed spec fn view(&self) -> WalletView {
        WalletView {
            owner: match self.owner {
                Some(a) => Some(a@),
                None => None,
            },
            locked: self.locked,
        }
    }
}

pub open spec fn initialize_spec(w: WalletView, owner: (bool, Seq<u8>)) -> (WalletView, Result<(), Error>) {
    if w.owner is Some {
        (w, Err(Error::AlreadyInitialized))
    } else {
        (WalletView { owner: Some(owner), ..w }, Ok(()))
    }
}

/// A withdrawal by `user` of `amount` while the wallet holds `balance`: on
/// success the guard is taken and `amount` is to be transferred.
pub open spec fn withdraw_spec(w: WalletView, user: (bool, Seq<u8>), amount: i128, balance: i128) -> (
    WalletView,
    Result<i128, Error>,
) {
    if w.owner is None {
        (w, Err(Error::NotInitialized))
    } else if w.owner != Some(user) {
        (w, Err(Error::Unauthorized))
    } else if w.locked {
        (w, Err(Error::Reentrancy))
    } else if amount <= 0 {
        (w, Err(Error::InvalidAmount))
    } else if balance < amount {
        (w, Err(Error::InsufficientBalance))
    } else {
        (WalletView { locked: true, ..w }, Ok(amount))
    }
}

impl SmartWallet {
    /// A wallet with no owner and the guard free.
    pub fn new() -> (r: SmartWallet)
        ensures
            r@ == (WalletView { owner: None, locked: false }),
    {
        SmartWallet { owner: None, locked: false }
    }

    /// Rebuilds a wallet from its stored owner and guard.
    pub fn from_parts(owner: Option<Address>, locked: bool) -> (r: SmartWallet)
        ensures
            r@ == (WalletView {
                owner: match owner {
                    Some(a) => Some(a@),
                    None => None,
                },
                locked,
            }),
    {
        SmartWallet { owner, locked }
    }

    /// Sets the owner, once.
    pub fn initialize(&mut self, owner: Address) -> (r: Result<(), Error>)
        ensures
            (final(self)@, r) == initialize_spec(old(self)@, owner@),
    {
        if self.owner.is_some() {
            return Err(Error::AlreadyInitialized);
        }
        self.owner = Some(owner);
        Ok(())
    }

    pub fn get_owner(&self) -> (r: Option<Address>)
        ensures
            match r {
                Some(a) => self@.owner == Some(a@),
                None => self@.owner is None,
            },
    {
        self.owner
    }

    /// Whether a withdrawal is in flight.
    pub fn is_locked(&self) -> (r: bool)
        ensures
            r == self@.locked,
    {
        self.locked
    }

    /// Checks a withdrawal of `amount` by `user` against the wallet's
    /// `balance` and, on success, takes the guard and returns the amount to
    /// transfer. The guard is released again on every failed check.
    pub fn withdraw(&mut self, user: &Address, amount: i128, balance: i128) -> (r: Result<i128, Error>)
        ensures
            (final(self)@, r) == withdraw_spec(old(self)@, user@, amount, balance),
    {
        let owner = match self.owner {
            Some(o) => o,
            None => return Err(Error::NotInitialized),
        };
        if !owner.same(user) {
            return Err(Error::Unauthorized);
        }
        if self.locked {
            return Err(Error::Reentrancy);
        }
        self.locked = true;
        if amount <= 0 {
            self.locked = false;
            return Err(Error::InvalidAmount);
        }
        if balance < amount {
            self.locked = false;
            return Err(Error::InsufficientBalance);
        }
        Ok(amount)
    }

    /// Releases the guard once the transfer of a withdrawal has been made.
    pub fn finish_withdraw(&mut self)
        ensures
            final(self)@ == (WalletView { locked: false, ..old(self)@ }),
    {
        self.locked = false;
    }
}

/// A withdrawal by the owner that fails its checks, for a non-positive
/// amount or a balance short of it, leaves the wallet as it was with the
/// guard free, so a following valid withdrawal by the owner succeeds.
pub proof fn lemma_failed_withdraw_releases(
    w: WalletView,
    user: (bool, Seq<u8>),
    amount: i128,
    balance: i128,
    amount2: i128,
    balance2: i128,
)
    requires
        w.owner == Some(user),
        !w.locked,
        amount <= 0 || balance < amount,
        amount2 > 0,
        balance2 >= amount2,
    ensures
        withdraw_spec(w, user, amount, balance).1 is Err,
        withdraw_spec(w, user, amount, balance).0 == w,
        !withdraw_spec(w, user, amount, balance).0.locked,
        withdraw_spec(withdraw_spec(w, user, amount, balance).0, user, amount2, balance2).1 == Ok::<
            i128,
            Error,
        >(amount2),
{
}

} // verus!
