//! Replay of a transaction that the EVM executed before.
//!
//! The payer is funded for the whole gas limit before the transaction is
//! applied, and the surplus is withdrawn afterwards, so that the payer ends
//! with the balance that the first execution left. This module computes the
//! amounts and says in which order the ledger and the EVM are called; the
//! caller performs the calls.

use vstd::prelude::*;
pub use crate::account::Error;
use crate::account::{AccountId, Origin};
use crate::bytes::be_value;
use crate::hash::{H160, H256};
use crate::uint::U256;

verus! {

/// The order of the secp256k1 group: `r` and `s` of a signature lie below
/// it.
pub open spec fn secp256k1_order() -> nat {
    0xffff_ffff_ffff_ffff_ffff_ffff_ffff_fffe_baae_dce6_af48_a03b_bfd2_5e8c_d036_4141nat
}

/// The recovery identifiers that a signature may carry: 27 and 28, and what
/// a chain identifier yields.
pub open spec fn recovery_id_accepted(v: u64) -> bool {
    v == 27 || v == 28 || v > 36
}

/// Tells whether `v`, `r` and `s` make a well-formed signature.
pub open spec fn signature_accepted(v: u64, r: Seq<u8>, s: Seq<u8>) -> bool {
    &&& recovery_id_accepted(v)
    &&& 1 <= be_value(r) < secp256k1_order()
    &&& 1 <= be_value(s) < secp256k1_order()
}

/// `ethereum::TransactionSignature::new`: it accepts a recovery identifier
/// of 27, 28 or above 36 together with `r` and `s` that, read as big-endian
/// numbers, are at least one and below the order of the secp256k1 group.
#[verifier::external_body]
fn outside_signature_accepted(v: u64, r: &H256, s: &H256) -> (ok: bool)
    ensures
        ok == signature_accepted(v, r@, s@),
{
    ethereum::TransactionSignature::new(v, r.bytes.into(), s.bytes.into()).is_some()
}

/// The signature of a transaction. Every value of this type is well formed.
#[derive(Clone, Copy, Debug)]
pub struct TransactionSignature {
    v: u64,
    r: H256,
    s: H256,
}

impl View for TransactionSignature {
    type V = (u64, Seq<u8>, Seq<u8>);

    closed spec fn view(&self) -> (u64, Seq<u8>, Seq<u8>) {
        (self.v, self.r@, self.s@)
    }
}

impl TransactionSignature {
    #[verifier::type_invariant]
    spec fn well_formed(&self) -> bool {
        signature_accepted(self.v, self.r@, self.s@)
    }

    /// The signature made of `v`, `r` and `s`, where they are well formed.
    pub fn new(v: u64, r: H256, s: H256) -> (out: Option<TransactionSignature>)
        ensures
            signature_accepted(v, r@, s@) ==> out.is_some() && out.unwrap()@ == (v, r@, s@),
            !signature_accepted(v, r@, s@) ==> out.is_none(),
    {
        if outside_signature_accepted(v, &r, &s) {
            Some(TransactionSignature { v, r, s })
        } else {
            None
        }
    }

    /// The recovery identifier.
    pub fn v(&self) -> (out: u64)
        ensures
            out == self@.0,
            recovery_id_accepted(out),
    {
        proof {
            use_type_invariant(self);
        }
        self.v
    }

    /// The first half of the signature.
    pub fn r(&self) -> (out: H256)
        ensures
            out@ == self@.1,
            1 <= be_value(out@) < secp256k1_order(),
    {
        proof {
            use_type_invariant(self);
        }
        self.r
    }

    /// The second half of the signature.
    pub fn s(&self) -> (out: H256)
        ensures
            out@ == self@.2,
            1 <= be_value(out@) < secp256k1_order(),
    {
        proof {
            use_type_invariant(self);
        }
        self.s
    }
}

/// What a transaction does.
#[derive(Clone, Copy, Debug, PartialEq, Eq)]
pub enum TransactionAction {
    /// It calls the contract or account at the address.
    Call(H160),
    /// It creates a contract.
    Create,
}

/// A transaction as it was first submitted.
#[derive(Debug)]
pub struct ReplayedTransaction {
    pub nonce: U256,
    pub gas_price: U256,
    pub gas_limit: U256,
    pub action: TransactionAction,
    pub value: U256,
    pub input: Vec<u8>,
    pub signature: TransactionSignature,
}

/// What a call of this module leaves for the chain's record.
#[derive(Debug, PartialEq, Eq)]
pub enum Event {
    /// The transaction with this index was replayed.
    TransactionReplayed(u64),
    /// The account may replay transactions from now on.
    AuthoritySet(AccountId),
}

/// What the EVM made of a transaction.
#[derive(Clone, Copy, Debug, PartialEq, Eq)]
pub enum ApplyOutcome {
    /// It executed the transaction and charged the payer for this much gas.
    Applied { used_gas: U256 },
    /// It rejected or reverted the transaction.
    Rejected,
}

/// Whether a withdrawal may empty the account.
#[derive(Clone, Copy, Debug, PartialEq, Eq, Structural)]
pub enum ExistenceRequirement {
    /// The account keeps what it needs to exist.
    KeepAlive,
    /// The account may reach a zero balance.
    AllowDeath,
}

/// A replay that was admitted: the caller deposits `prefund` into the
/// account of `from`, has the EVM apply `transaction` for `from`, and hands
/// the outcome to [`Replay::settle`].
#[derive(Debug)]
pub struct Replay {
    /// The index under which the first execution was recorded.
    pub execution_index: u64,
    /// The payer.
    pub from: H160,
    pub transaction: ReplayedTransaction,
    /// The gas that the first execution used. It is meant to be no more
    /// than the gas limit; nothing here relies on that.
    pub gas_used: U256,
    /// What the payer is funded with before the transaction is applied.
    pub prefund: u128,
}

/// The end of a replay: the caller withdraws `amount` from the account of
/// `who` under `existence`, and records `event` once the ledger has
/// accepted the withdrawal.
#[derive(Debug, PartialEq, Eq)]
pub struct Settlement {
    pub who: H160,
    pub amount: u128,
    pub existence: ExistenceRequirement,
    pub event: Event,
}

/// What the payer is funded with before the transaction is applied: the
/// price of the whole gas limit, and the value that the transaction moves.
pub open spec fn prefund_amount(gas_limit: nat, gas_price: nat, value: nat) -> nat {
    gas_limit * gas_price + value
}

/// What is withdrawn from the payer after the transaction was applied.
pub open spec fn surplus_amount(
    gas_used: nat,
    gas_limit: nat,
    used_gas: nat,
    gas_price: nat,
    value: nat,
) -> int {
    (gas_used + gas_limit - used_gas) * gas_price + value
}

/// Tells whether every step in the computation of the surplus stays within
/// 256 bits, and its end within the 128 bits of a balance.
pub open spec fn surplus_in_range(
    gas_used: nat,
    gas_limit: nat,
    used_gas: nat,
    gas_price: nat,
    value: nat,
) -> bool {
    &&& gas_used + gas_limit < crate::uint::pow2_256()
    &&& used_gas <= gas_used + gas_limit
    &&& surplus_amount(gas_used, gas_limit, used_gas, gas_price, value) <= u128::MAX
}

/// The balance of the payer after a replay, on a ledger that adds what is
/// deposited, takes away what is withdrawn, and on which applying the
/// transaction costs the payer the gas that the EVM used and the value.
pub open spec fn balance_after_replay(
    initial: nat,
    gas_used: nat,
    gas_limit: nat,
    used_gas: nat,
    gas_price: nat,
    value: nat,
) -> int {
    initial + prefund_amount(gas_limit, gas_price, value) - (used_gas * gas_price + value)
        - surplus_amount(gas_used, gas_limit, used_gas, gas_price, value)
}

/// The amount to deposit before the transaction is applied, or
/// `ArithmeticOverflow` where it does not fit in a balance.
pub fn prefund(gas_limit: U256, gas_price: U256, value: U256) -> (r: Result<u128, Error>)
    ensures
        prefund_amount(gas_limit@, gas_price@, value@) <= u128::MAX ==> r == Ok::<u128, Error>(
            prefund_amount(gas_limit@, gas_price@, value@) as u128,
        ),
        prefund_amount(gas_limit@, gas_price@, value@) > u128::MAX ==> r == Err::<u128, Error>(
            Error::ArithmeticOverflow,
        ),
{
    let gas = match gas_limit.checked_mul(gas_price) {
        Some(x) => x,
        None => { return Err(Error::ArithmeticOverflow); },
    };
    let total = match gas.checked_add(value) {
        Some(x) => x,
        None => { return Err(Error::ArithmeticOverflow); },
    };
    match total.to_u128() {
        Some(amount) => Ok(amount),
        None => Err(Error::ArithmeticOverflow),
    }
}

/// The amount to withdraw after the EVM used `used_gas`, or
/// `ArithmeticOverflow` where a step of its computation leaves the range.
pub fn surplus(gas_used: U256, gas_limit: U256, used_gas: U256, gas_price: U256, value: U256) -> (r:
    Result<u128, Error>)
    ensures
        surplus_in_range(gas_used@, gas_limit@, used_gas@, gas_price@, value@) ==> r == Ok::<
            u128,
            Error,
        >(surplus_amount(gas_used@, gas_limit@, used_gas@, gas_price@, value@) as u128),
        !surplus_in_range(gas_used@, gas_limit@, used_gas@, gas_price@, value@) ==> r == Err::<
            u128,
            Error,
        >(Error::ArithmeticOverflow),
{
    let granted = match gas_used.checked_add(gas_limit) {
        Some(x) => x,
        None => { return Err(Error::ArithmeticOverflow); },
    };
    let unused = match granted.checked_sub(used_gas) {
        Some(x) => x,
        None => { return Err(Error::ArithmeticOverflow); },
    };
    let refund = match unused.checked_mul(gas_price) {
        Some(x) => x,
        None => { return Err(Error::ArithmeticOverflow); },
    };
    let total = match refund.checked_add(value) {
        Some(x) => x,
        None => { return Err(Error::ArithmeticOverflow); },
    };
    match total.to_u128() {
        Some(amount) => Ok(amount),
        None => Err(Error::ArithmeticOverflow),
    }
}

/// The replay accountant, with the one thing it remembers from call to
/// call: the account that may replay transactions.
#[derive(Debug)]
pub struct Pallet {
    authority: Option<AccountId>,
}

impl View for Pallet {
    type V = Option<Seq<u8>>;

    closed spec fn view(&self) -> Option<Seq<u8>> {
        match self.authority {
            Some(who) => Some(who@),
            None => None,
        }
    }
}

/// What `replay_tx` answers: the amount of the deposit where the replay is
/// admitted, and else the first reason against it.
pub open spec fn replay_admission(
    authority: Option<Seq<u8>>,
    origin: Origin,
    gas_price: nat,
    gas_limit: nat,
    value: nat,
    v: u64,
    r: Seq<u8>,
    s: Seq<u8>,
) -> Result<u128, Error> {
    if origin.signer() is None || origin.signer() != authority {
        Err(Error::Unauthorized)
    } else if !signature_accepted(v, r, s) {
        Err(Error::InvalidSignature)
    } else if prefund_amount(gas_limit, gas_price, value) > u128::MAX {
        Err(Error::ArithmeticOverflow)
    } else {
        Ok(prefund_amount(gas_limit, gas_price, value) as u128)
    }
}

impl Pallet {
    /// An accountant for which no account may replay transactions yet.
    pub fn new() -> (r: Pallet)
        ensures
            r@ is None,
    {
        Pallet { authority: None }
    }

    /// An accountant for which `authority`, if any, may replay transactions.
    pub fn with_authority(authority: Option<AccountId>) -> (r: Pallet)
        ensures
            match authority {
                Some(who) => r@ == Some(who@),
                None => r@ is None,
            },
    {
        Pallet { authority }
    }

    /// The account that may replay transactions, if one was set.
    pub fn authority(&self) -> (r: Option<AccountId>)
        ensures
            match self@ {
                Some(who) => r.is_some() && r.unwrap()@ == who,
                None => r.is_none(),
            },
    {
        match &self.authority {
            Some(who) => Some(who.clone()),
            None => None,
        }
    }

    /// Tells whether `account` may replay transactions.
    pub fn is_authority(&self, account: &AccountId) -> (r: bool)
        ensures
            r == (self@ == Some(account@)),
    {
        match &self.authority {
            Some(who) => *who == *account,
            None => false,
        }
    }

    /// Lets `new_authority` replay transactions from now on. Only the
    /// chain's own governance may ask for this.
    pub fn set_authority(&mut self, origin: &Origin, new_authority: AccountId) -> (r: Result<
        Event,
        Error,
    >)
        ensures
            *origin is Root ==> final(self)@ == Some(new_authority@) && (r matches Ok(
                Event::AuthoritySet(who),
            ) && who@ == new_authority@),
            !(*origin is Root) ==> final(self)@ == old(self)@ && r matches Err(Error::Unauthorized),
    {
        match origin.ensure_root() {
            Ok(_) => {},
            Err(e) => { return Err(e); },
        }
        let recorded = new_authority.clone();
        self.authority = Some(new_authority);
        Ok(Event::AuthoritySet(recorded))
    }

    /// Admits the replay of a transaction: the caller must be the account
    /// that may replay, the signature well formed, and the deposit must fit
    /// in a balance.
    pub fn replay_tx(
        &self,
        origin: &Origin,
        execution_index: u64,
        from: H160,
        nonce: U256,
        gas_price: U256,
        gas_limit: U256,
        gas_used: U256,
        to: Option<H160>,
        value: U256,
        data: Vec<u8>,
        v: u64,
        r: H256,
        s: H256,
    ) -> (res: Result<Replay, Error>)
        ensures
            match replay_admission(self@, *origin, gas_price@, gas_limit@, value@, v, r@, s@) {
                Ok(amount) => {
                    &&& res matches Ok(replay)
                    &&& replay.execution_index == execution_index
                    &&& replay.from == from
                    &&& replay.gas_used == gas_used
                    &&& replay.prefund == amount
                    &&& replay.transaction.nonce == nonce
                    &&& replay.transaction.gas_price == gas_price
                    &&& replay.transaction.gas_limit == gas_limit
                    &&& replay.transaction.value == value
                    &&& replay.transaction.input@ == data@
                    &&& replay.transaction.signature@ == (v, r@, s@)
                    &&& match to {
                        Some(target) => replay.transaction.action == TransactionAction::Call(target),
                        None => replay.transaction.action == TransactionAction::Create,
                    }
                },
                Err(e) => res matches Err(found) && found == e,
            },
    {
        let who = match origin.ensure_signed() {
            Ok(who) => who,
            Err(e) => { return Err(e); },
        };
        if !self.is_authority(&who) {
            return Err(Error::Unauthorized);
        }
        let signature = match TransactionSignature::new(v, r, s) {
            Some(signature) => signature,
            None => { return Err(Error::InvalidSignature); },
        };
        let action = match to {
            Some(target) => TransactionAction::Call(target),
            None => TransactionAction::Create,
        };
        let amount = match prefund(gas_limit, gas_price, value) {
            Ok(amount) => amount,
            Err(e) => { return Err(e); },
        };
        let transaction = ReplayedTransaction {
            nonce,
            gas_price,
            gas_limit,
            action,
            value,
            input: data,
            signature,
        };
        Ok(Replay { execution_index, from, transaction, gas_used, prefund: amount })
    }
}

impl Replay {
    /// Ends the replay once the EVM has answered: tells what to withdraw
    /// from the payer and what to record, or why the replay fails. A replay
    /// that fails here has been funded already: the deposit stays with the
    /// payer unless the caller undoes it.
    pub fn settle(&self, outcome: &ApplyOutcome) -> (res: Result<Settlement, Error>)
        ensures
            match *outcome {
                ApplyOutcome::Rejected => res matches Err(Error::ExecutionFailed),
                ApplyOutcome::Applied { used_gas } => if surplus_in_range(
                    self.gas_used@,
                    self.transaction.gas_limit@,
                    used_gas@,
                    self.transaction.gas_price@,
                    self.transaction.value@,
                ) {
                    &&& res matches Ok(end)
                    &&& end.who == self.from
                    &&& end.amount == surplus_amount(
                        self.gas_used@,
                        self.transaction.gas_limit@,
                        used_gas@,
                        self.transaction.gas_price@,
                        self.transaction.value@,
                    )
                    &&& end.existence == ExistenceRequirement::AllowDeath
                    &&& end.event matches Event::TransactionReplayed(index)
                    &&& index == self.execution_index
                } else {
                    res matches Err(Error::ArithmeticOverflow)
                },
            },
    {
        match outcome {
            ApplyOutcome::Rejected => Err(Error::ExecutionFailed),
            ApplyOutcome::Applied { used_gas } => {
                let amount = match surplus(
                    self.gas_used,
                    self.transaction.gas_limit,
                    *used_gas,
                    self.transaction.gas_price,
                    self.transaction.value,
                ) {
                    Ok(amount) => amount,
                    Err(e) => { return Err(e); },
                };
                Ok(
                    Settlement {
                        who: self.from,
                        amount,
                        existence: ExistenceRequirement::AllowDeath,
                        event: Event::TransactionReplayed(self.execution_index),
                    },
                )
            },
        }
    }
}

/// A replay leaves the payer with the first balance less the price of the
/// gas recorded for the transaction and less its value, whatever the gas
/// limit was and however much gas the EVM used this time.
pub proof fn lemma_replay_balance(
    initial: nat,
    gas_used: nat,
    gas_limit: nat,
    used_gas: nat,
    gas_price: nat,
    value: nat,
)
    requires
        used_gas <= gas_used + gas_limit,
    ensures
        balance_after_replay(initial, gas_used, gas_limit, used_gas, gas_price, value) == initial
            - gas_used * gas_price - value,
        surplus_amount(gas_used, gas_limit, used_gas, gas_price, value) >= 0,
{
    assert((gas_used + gas_limit - used_gas) * gas_price == gas_used * gas_price + gas_limit
        * gas_price - used_gas * gas_price) by (nonlinear_arith);
    assert((gas_used + gas_limit - used_gas) * gas_price >= 0) by (nonlinear_arith)
        requires
            used_gas <= gas_used + gas_limit,
    ;
}

/// Where the EVM uses as much gas as was recorded for the transaction, a
/// replay leaves the payer with the first balance less the price of the gas
/// that the EVM used and less the value.
pub proof fn lemma_replay_balance_same_gas(
    initial: nat,
    gas_limit: nat,
    used_gas: nat,
    gas_price: nat,
    value: nat,
)
    ensures
        balance_after_replay(initial, used_gas, gas_limit, used_gas, gas_price, value) == initial
            - used_gas * gas_price - value,
{
    lemma_replay_balance(initial, used_gas, gas_limit, used_gas, gas_price, value);
}

} // verus!
