//! The escrow bridge: one admin, a nonce per depositor, and escrow records
//! keyed by identifiers derived from the depositor and its nonce.
//!
//! Token movements are not made here: a transition that moves funds returns
//! the amount, and the caller performs the transfer in the same call.
use vstd::prelude::*;
use crate::address::{Address, be32, xdr_of, copy_bytes, push_be32, lemma_be32_injective};
use crate::assoc::{to_map, position, last_at, lemma_push, lemma_update};
use crate::digest::{sha256, sha256_digest};

verus! {

/// Where an escrow stands in its lifecycle.
#[derive(Clone, Copy, Debug, PartialEq, Eq, Structural)]
pub enum Status {
    Pending,
    Processing,
    Claimed,
    Refunded,
}

/// Why a bridge operation was refused; a refused operation changes nothing.
#[derive(Clone, Copy, Debug, PartialEq, Eq, Structural)]
pub enum Error {
    AlreadyInitialized,
    AdminNotInitialized,
    EscrowNotFound,
    EscrowNotPending,
    EscrowNotProcessing,
    UnauthorizedRefund,
    InvalidAddressLength,
    InvalidAmount,
}

/// Funds locked by `user` for delivery to `target_address` on the foreign chain.
#[derive(Debug)]
pub struct Escrow {
    pub user: Address,
    pub amount: i128,
    pub status: Status,
    pub target_address: Vec<u8>,
    pub evm_tx: String,
    pub node: String,
}

pub struct EscrowView {
    pub user: (bool, Seq<u8>),
    pub amount: i128,
    pub status: Status,
    pub target_address: Seq<u8>,
    pub evm_tx: Seq<char>,
    pub node: Seq<char>,
}

impl View for Escrow {
    type V = EscrowView;

    open spec fn view(&self) -> EscrowView {
        EscrowView {
            user: self.user@,
            amount: self.amount,
            status: self.status,
            target_address: self.target_address@,
            evm_tx: self.evm_tx@,
            node: self.node@,
        }
    }
}

impl Escrow {
    /// A copy of this record.
    pub fn copied(&self) -> (r: Escrow)
        ensures
            r@ == self@,
    {
        Escrow {
            user: self.user,
            amount: self.amount,
            status: self.status,
            target_address: copy_bytes(&self.target_address),
            evm_tx: self.evm_tx.clone(),
            node: self.node.clone(),
        }
    }
}

/// The bridge's state: the admin once set, the nonce of each depositor seen,
/// and the escrows by identifier.
pub struct EVMBridge {
    admin: Option<Address>,
    nonces: Vec<(Address, u32)>,
    escrows: Vec<(Vec<u8>, Escrow)>,
}

pub struct BridgeView {
    pub admin: Option<(bool, Seq<u8>)>,
    pub nonces: Map<(bool, Seq<u8>), u32>,
    pub escrows: Map<Seq<u8>, EscrowView>,
}

impl View for EVMBridge {
    type V = BridgeView;

    closed spec fn view(&self) -> BridgeView {
        BridgeView {
            admin: match self.admin {
                Some(a) => Some(a@),
                None => None,
            },
            nonces: to_map(self.nonces@),
            escrows: to_map(self.escrows@),
        }
    }
}

/// The state that stored parts stand for.
pub open spec fn parts_view(
    admin: Option<Address>,
    nonces: Seq<(Address, u32)>,
    escrows: Seq<(Vec<u8>, Escrow)>,
) -> BridgeView {
    BridgeView {
        admin: match admin {
            Some(a) => Some(a@),
            None => None,
        },
        nonces: to_map(nonces),
        escrows: to_map(escrows),
    }
}

/// The nonce of `user`: 0 until its first lock.
pub open spec fn nonce_of(v: BridgeView, user: (bool, Seq<u8>)) -> u32 {
    if v.nonces.contains_key(user) {
        v.nonces[user]
    } else {
        0
    }
}

/// The bytes hashed into an escrow identifier.
pub open spec fn preimage(user: (bool, Seq<u8>), nonce: u32) -> Seq<u8> {
    xdr_of(user) + be32(nonce)
}

/// The identifier of the escrow that `user` opens with `nonce`.
pub open spec fn escrow_id(user: (bool, Seq<u8>), nonce: u32) -> Seq<u8> {
    sha256_digest(preimage(user, nonce))
}

/// A freshly opened escrow.
pub open spec fn opened(user: (bool, Seq<u8>), amount: i128, target: Seq<u8>) -> EscrowView {
    EscrowView {
        user,
        amount,
        status: Status::Pending,
        target_address: target,
        evm_tx: Seq::empty(),
        node: Seq::empty(),
    }
}

pub open spec fn init_spec(v: BridgeView, admin: (bool, Seq<u8>)) -> (BridgeView, Result<(), Error>) {
    if v.admin is Some {
        (v, Err(Error::AlreadyInitialized))
    } else {
        (BridgeView { admin: Some(admin), ..v }, Ok(()))
    }
}

/// The state after `user` opens an escrow under `id`: its nonce is one more.
pub open spec fn record_spec(
    v: BridgeView,
    id: Seq<u8>,
    user: (bool, Seq<u8>),
    amount: i128,
    target: Seq<u8>,
) -> BridgeView {
    BridgeView {
        nonces: v.nonces.insert(user, (nonce_of(v, user) + 1) as u32),
        escrows: v.escrows.insert(id, opened(user, amount, target)),
        ..v
    }
}

pub open spec fn lock_spec(
    v: BridgeView,
    user: (bool, Seq<u8>),
    amount: i128,
    target: Seq<u8>,
    allowance: i128,
) -> (BridgeView, Result<Seq<u8>, Error>) {
    if target.len() != 32 {
        (v, Err(Error::InvalidAddressLength))
    } else if amount <= 0 || allowance < amount {
        (v, Err(Error::InvalidAmount))
    } else {
        let id = escrow_id(user, nonce_of(v, user));
        (record_spec(v, id, user, amount, target), Ok(id))
    }
}

pub open spec fn process_spec(v: BridgeView, id: Seq<u8>, node: Seq<char>) -> (
    BridgeView,
    Result<(), Error>,
) {
    if v.admin is None {
        (v, Err(Error::AdminNotInitialized))
    } else if !v.escrows.contains_key(id) {
        (v, Err(Error::EscrowNotFound))
    } else if v.escrows[id].status != Status::Pending {
        (v, Err(Error::EscrowNotPending))
    } else {
        let e = v.escrows[id];
        (
            BridgeView {
                escrows: v.escrows.insert(
                    id,
                    EscrowView { status: Status::Processing, node, evm_tx: Seq::empty(), ..e },
                ),
                ..v
            },
            Ok(()),
        )
    }
}

/// Claiming pays the escrow's amount out of custody to the claimer.
pub open spec fn claim_spec(v: BridgeView, id: Seq<u8>, evm_tx: Seq<char>) -> (
    BridgeView,
    Result<i128, Error>,
) {
    if v.admin is None {
        (v, Err(Error::AdminNotInitialized))
    } else if !v.escrows.contains_key(id) {
        (v, Err(Error::EscrowNotFound))
    } else if v.escrows[id].status != Status::Processing {
        (v, Err(Error::EscrowNotProcessing))
    } else {
        let e = v.escrows[id];
        (
            BridgeView {
                escrows: v.escrows.insert(id, EscrowView { status: Status::Claimed, evm_tx, ..e }),
                ..v
            },
            Ok(e.amount),
        )
    }
}

/// Refunding pays the escrow's amount out of custody back to its depositor.
pub open spec fn refund_spec(v: BridgeView, id: Seq<u8>, user: (bool, Seq<u8>)) -> (
    BridgeView,
    Result<i128, Error>,
) {
    if !v.escrows.contains_key(id) {
        (v, Err(Error::EscrowNotFound))
    } else if v.escrows[id].status != Status::Pending {
        (v, Err(Error::EscrowNotPending))
    } else if v.escrows[id].user != user {
        (v, Err(Error::UnauthorizedRefund))
    } else {
        let e = v.escrows[id];
        (
            BridgeView {
                escrows: v.escrows.insert(id, EscrowView { status: Status::Refunded, ..e }),
                ..v
            },
            Ok(e.amount),
        )
    }
}


impl EVMBridge {
    /// A bridge with no admin, no nonces and no escrows.
    pub fn new() -> (r: EVMBridge)
        ensures
            r@ == (BridgeView { admin: None, nonces: Map::empty(), escrows: Map::empty() }),
    {
        let r = EVMBridge { admin: None, nonces: Vec::new(), escrows: Vec::new() };
        assert(r@.nonces =~= Map::empty());
        assert(r@.escrows =~= Map::empty());
        r
    }

    /// Rebuilds a bridge from stored parts; a later pair overrides an
    /// earlier one under the same key.
    pub fn from_parts(
        admin: Option<Address>,
        nonces: Vec<(Address, u32)>,
        escrows: Vec<(Vec<u8>, Escrow)>,
    ) -> (r: EVMBridge)
        ensures
            r@ == parts_view(admin, nonces@, escrows@),
    {
        EVMBridge { admin, nonces, escrows }
    }

    /// The parts to store, from which `from_parts` rebuilds this bridge.
    pub fn into_parts(self) -> (r: (Option<Address>, Vec<(Address, u32)>, Vec<(Vec<u8>, Escrow)>))
        ensures
            parts_view(r.0, r.1@, r.2@) == self@,
    {
        (self.admin, self.nonces, self.escrows)
    }

    /// The nonce that `user`'s next lock will use.
    pub fn get_user_nonce(&self, user: &Address) -> (r: u32)
        ensures
            r == nonce_of(self@, user@),
    {
        match position(&self.nonces, user) {
            Some(i) => self.nonces[i].1,
            None => 0,
        }
    }

    /// The bytes whose digest identifies the escrow that `user` opens with
    /// `nonce`: the address's XDR encoding, then the nonce in big-endian order.
    pub fn escrow_preimage(user: &Address, nonce: u32) -> (r: Vec<u8>)
        ensures
            r@ == preimage(user@, nonce),
    {
        let mut r = user.to_xdr();
        push_be32(&mut r, nonce);
        r
    }

    /// Records a pending escrow of `user` under `id` and advances the
    /// depositor's nonce.
    pub fn record_lock(&mut self, id: Vec<u8>, user: Address, amount: i128, target_address: Vec<u8>)
        requires
            nonce_of(old(self)@, user@) < u32::MAX,
        ensures
            final(self)@ == record_spec(old(self)@, id@, user@, amount, target_address@),
    {
        let ghost v0 = self@;
        let nonce = self.get_user_nonce(&user);
        match position(&self.nonces, &user) {
            Some(i) => {
                proof {
                    lemma_update(self.nonces@, i as int, (user, (nonce + 1) as u32));
                }
                self.nonces.set(i, (user, nonce + 1));
            },
            None => {
                proof {
                    lemma_push(self.nonces@, (user, (nonce + 1) as u32));
                }
                self.nonces.push((user, nonce + 1));
            },
        }
        let escrow = Escrow {
            user,
            amount,
            status: Status::Pending,
            target_address,
            evm_tx: String::new(),
            node: String::new(),
        };
        match position(&self.escrows, &id) {
            Some(i) => {
                proof {
                    lemma_update(self.escrows@, i as int, (id, escrow));
                }
                self.escrows.set(i, (id, escrow));
            },
            None => {
                proof {
                    lemma_push(self.escrows@, (id, escrow));
                }
                self.escrows.push((id, escrow));
            },
        }
        assert(self@.escrows == v0.escrows.insert(id@, opened(user@, amount, target_address@)));
    }

    /// Opens an escrow of `amount` from `user` toward `target_address`, given
    /// the allowance that `user` has granted the bridge. On success the caller
    /// pulls `amount` from `user` into custody and the identifier is returned.
    pub fn lock(&mut self, user: Address, amount: i128, target_address: Vec<u8>, allowance: i128) -> (r:
        Result<Vec<u8>, Error>)
        requires
            nonce_of(old(self)@, user@) < u32::MAX,
        ensures
            (final(self)@, bytes_result(r)) == lock_spec(old(self)@, user@, amount, target_address@, allowance),
    {
        if target_address.len() != 32 {
            return Err(Error::InvalidAddressLength);
        }
        if amount <= 0 || allowance < amount {
            return Err(Error::InvalidAmount);
        }
        let nonce = self.get_user_nonce(&user);
        let pre = Self::escrow_preimage(&user, nonce);
        let id = sha256(&pre);
        let key = copy_bytes(&id);
        self.record_lock(key, user, amount, target_address);
        Ok(id)
    }

    /// Sets the admin, once.
    pub fn init(&mut self, admin: Address) -> (r: Result<(), Error>)
        ensures
            (final(self)@, r) == init_spec(old(self)@, admin@),
    {
        if self.admin.is_some() {
            return Err(Error::AlreadyInitialized);
        }
        self.admin = Some(admin);
        Ok(())
    }

    pub fn get_admin(&self) -> (r: Result<Address, Error>)
        ensures
            match r {
                Ok(a) => self@.admin == Some(a@),
                Err(e) => self@.admin is None && e == Error::AdminNotInitialized,
            },
    {
        match self.admin {
            Some(a) => Ok(a),
            None => Err(Error::AdminNotInitialized),
        }
    }

    /// A copy of the escrow under `id`.
    pub fn get_escrow(&self, id: &Vec<u8>) -> (r: Result<Escrow, Error>)
        ensures
            match r {
                Ok(e) => self@.escrows.contains_key(id@) && e@ == self@.escrows[id@],
                Err(e) => !self@.escrows.contains_key(id@) && e == Error::EscrowNotFound,
            },
    {
        match position(&self.escrows, id) {
            Some(i) => Ok(self.escrows[i].1.copied()),
            None => Err(Error::EscrowNotFound),
        }
    }

    pub fn get_escrow_status(&self, id: &Vec<u8>) -> (r: Result<Status, Error>)
        ensures
            match r {
                Ok(s) => self@.escrows.contains_key(id@) && s == self@.escrows[id@].status,
                Err(e) => !self@.escrows.contains_key(id@) && e == Error::EscrowNotFound,
            },
    {
        match position(&self.escrows, id) {
            Some(i) => Ok(self.escrows[i].1.status),
            None => Err(Error::EscrowNotFound),
        }
    }

    /// Puts `e` in place of the record at position `i`, under the same key.
    fn replace_at(&mut self, i: usize, e: Escrow)
        requires
            last_at(old(self).escrows@, i as int, old(self).escrows@[i as int].0@),
        ensures
            final(self)@ == (BridgeView {
                escrows: old(self)@.escrows.insert(old(self).escrows@[i as int].0@, e@),
                ..old(self)@
            }),
    {
        let key = copy_bytes(&self.escrows[i].0);
        proof {
            lemma_update(self.escrows@, i as int, (key, e));
        }
        self.escrows.set(i, (key, e));
    }

    /// The admin hands a pending escrow to the relayer `node`.
    pub fn process_escrow(&mut self, id: &Vec<u8>, node: String) -> (r: Result<(), Error>)
        ensures
            (final(self)@, r) == process_spec(old(self)@, id@, node@),
    {
        if self.admin.is_none() {
            return Err(Error::AdminNotInitialized);
        }
        let i = match position(&self.escrows, id) {
            Some(i) => i,
            None => return Err(Error::EscrowNotFound),
        };
        let cur = &self.escrows[i].1;
        if cur.status != Status::Pending {
            return Err(Error::EscrowNotPending);
        }
        let e = Escrow {
            user: cur.user,
            amount: cur.amount,
            status: Status::Processing,
            target_address: copy_bytes(&cur.target_address),
            evm_tx: String::new(),
            node,
        };
        self.replace_at(i, e);
        Ok(())
    }

    /// The admin records the foreign-chain transaction `evm_tx` for an escrow
    /// in processing. On success the caller pays the returned amount out of
    /// custody to the claimer.
    pub fn claim(&mut self, id: &Vec<u8>, evm_tx: String) -> (r: Result<i128, Error>)
        ensures
            (final(self)@, r) == claim_spec(old(self)@, id@, evm_tx@),
    {
        if self.admin.is_none() {
            return Err(Error::AdminNotInitialized);
        }
        let i = match position(&self.escrows, id) {
            Some(i) => i,
            None => return Err(Error::EscrowNotFound),
        };
        let cur = &self.escrows[i].1;
        if cur.status != Status::Processing {
            return Err(Error::EscrowNotProcessing);
        }
        let amount = cur.amount;
        let e = Escrow {
            user: cur.user,
            amount,
            status: Status::Claimed,
            target_address: copy_bytes(&cur.target_address),
            evm_tx,
            node: cur.node.clone(),
        };
        self.replace_at(i, e);
        Ok(amount)
    }

    /// The depositor `user` takes back a pending escrow. On success the caller
    /// pays the returned amount out of custody back to `user`.
    pub fn refund(&mut self, id: &Vec<u8>, user: &Address) -> (r: Result<i128, Error>)
        ensures
            (final(self)@, r) == refund_spec(old(self)@, id@, user@),
    {
        let i = match position(&self.escrows, id) {
            Some(i) => i,
            None => return Err(Error::EscrowNotFound),
        };
        let cur = &self.escrows[i].1;
        if cur.status != Status::Pending {
            return Err(Error::EscrowNotPending);
        }
        if !cur.user.same(user) {
            return Err(Error::UnauthorizedRefund);
        }
        let amount = cur.amount;
        let e = Escrow {
            user: cur.user,
            amount,
            status: Status::Refunded,
            target_address: copy_bytes(&cur.target_address),
            evm_tx: cur.evm_tx.clone(),
            node: cur.node.clone(),
        };
        self.replace_at(i, e);
        Ok(amount)
    }
}

/// With a target address of 32 bytes, a positive amount and enough
/// allowance, a lock opens a pending escrow that holds exactly the given
/// depositor, amount and target address, under the identifier of the
/// depositor's current nonce. A second such lock by the same depositor uses
/// the next nonce, whose preimage differs from the first: the two
/// identifiers differ unless SHA-256 collides.
pub proof fn lemma_lock_opens_pending(
    v: BridgeView,
    user: (bool, Seq<u8>),
    amount: i128,
    target: Seq<u8>,
    allowance: i128,
    amount2: i128,
    target2: Seq<u8>,
    allowance2: i128,
)
    requires
        target.len() == 32,
        amount > 0,
        allowance >= amount,
        target2.len() == 32,
        amount2 > 0,
        allowance2 >= amount2,
        nonce_of(v, user) < u32::MAX - 1,
    ensures
        ({
            let n = nonce_of(v, user);
            let first = lock_spec(v, user, amount, target, allowance);
            let second = lock_spec(first.0, user, amount2, target2, allowance2);
            &&& first.1 == Ok::<Seq<u8>, Error>(escrow_id(user, n))
            &&& first.0.escrows.contains_key(escrow_id(user, n))
            &&& first.0.escrows[escrow_id(user, n)] == opened(user, amount, target)
            &&& second.1 == Ok::<Seq<u8>, Error>(escrow_id(user, (n + 1) as u32))
            &&& preimage(user, n) != preimage(user, (n + 1) as u32)
        }),
{
    let n = nonce_of(v, user);
    let m = (n + 1) as u32;
    let first = lock_spec(v, user, amount, target, allowance);
    assert(nonce_of(first.0, user) == m);
    if preimage(user, n) == preimage(user, m) {
        let k = xdr_of(user).len() as int;
        assert(preimage(user, n).subrange(k, k + 4) =~= be32(n));
        assert(preimage(user, m).subrange(k, k + 4) =~= be32(m));
        lemma_be32_injective(n, m);
    }
}

/// A successful lock by `user` raises `user`'s nonce by exactly one; a failed
/// one changes nothing; no lock changes the nonce of another depositor.
pub proof fn lemma_lock_nonce(
    v: BridgeView,
    user: (bool, Seq<u8>),
    amount: i128,
    target: Seq<u8>,
    allowance: i128,
    other: (bool, Seq<u8>),
)
    requires
        nonce_of(v, user) < u32::MAX,
    ensures
        ({
            let (w, r) = lock_spec(v, user, amount, target, allowance);
            &&& r is Ok ==> nonce_of(w, user) == nonce_of(v, user) + 1
            &&& r is Err ==> w == v
            &&& other != user ==> nonce_of(w, other) == nonce_of(v, other)
        }),
{
}

/// Processing succeeds only on a pending escrow, claiming only on one in
/// processing, refunding only on a pending one; none succeeds on a missing
/// identifier, and a failed transition changes nothing.
pub proof fn lemma_transition_legality(
    v: BridgeView,
    id: Seq<u8>,
    node: Seq<char>,
    evm_tx: Seq<char>,
    user: (bool, Seq<u8>),
)
    ensures
        process_spec(v, id, node).1 is Ok ==> v.escrows.contains_key(id) && v.escrows[id].status
            == Status::Pending,
        claim_spec(v, id, evm_tx).1 is Ok ==> v.escrows.contains_key(id) && v.escrows[id].status
            == Status::Processing,
        refund_spec(v, id, user).1 is Ok ==> v.escrows.contains_key(id) && v.escrows[id].status
            == Status::Pending,
        process_spec(v, id, node).1 is Err ==> process_spec(v, id, node).0 == v,
        claim_spec(v, id, evm_tx).1 is Err ==> claim_spec(v, id, evm_tx).0 == v,
        refund_spec(v, id, user).1 is Err ==> refund_spec(v, id, user).0 == v,
{
}

/// A refund of a pending escrow named by anyone but its depositor fails with
/// `UnauthorizedRefund` and changes nothing.
pub proof fn lemma_refund_needs_depositor(v: BridgeView, id: Seq<u8>, user: (bool, Seq<u8>))
    requires
        v.escrows.contains_key(id),
        v.escrows[id].status == Status::Pending,
        v.escrows[id].user != user,
    ensures
        refund_spec(v, id, user) == (v, Err::<i128, Error>(Error::UnauthorizedRefund)),
{
}

/// Once an escrow is claimed or refunded, processing, claiming and refunding
/// it all fail and change nothing, and a lock that does not return its
/// identifier leaves its record as it was.
pub proof fn lemma_settled_is_final(
    v: BridgeView,
    id: Seq<u8>,
    node: Seq<char>,
    evm_tx: Seq<char>,
    user: (bool, Seq<u8>),
    depositor: (bool, Seq<u8>),
    amount: i128,
    target: Seq<u8>,
    allowance: i128,
)
    requires
        v.escrows.contains_key(id),
        v.escrows[id].status == Status::Claimed || v.escrows[id].status == Status::Refunded,
    ensures
        process_spec(v, id, node).1 is Err && process_spec(v, id, node).0 == v,
        claim_spec(v, id, evm_tx).1 is Err && claim_spec(v, id, evm_tx).0 == v,
        refund_spec(v, id, user).1 is Err && refund_spec(v, id, user).0 == v,
        lock_spec(v, depositor, amount, target, allowance).1 != Ok::<Seq<u8>, Error>(id) ==> {
            let w = lock_spec(v, depositor, amount, target, allowance).0;
            w.escrows.contains_key(id) && w.escrows[id] == v.escrows[id]
        },
{
}

/// A result whose identifier is seen as its bytes.
pub open spec fn bytes_result(r: Result<Vec<u8>, Error>) -> Result<Seq<u8>, Error> {
    match r {
        Ok(b) => Ok(b@),
        Err(e) => Err(e),
    }
}

} // verus!
