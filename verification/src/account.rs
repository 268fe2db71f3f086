//! Native accounts and the origin of a call.

use vstd::prelude::*;
use vstd::std_specs::cmp::PartialEqSpecImpl;
use crate::bytes::bytes_equal;
use crate::hash::H160;

verus! {

/// The least number of bytes in the encoding of a native account
/// identifier: the EVM address of the account is read from its first twenty
/// bytes.
pub const ADDRESS_BYTES: usize = 20;

/// The EVM address of the account with the given encoding: its first twenty
/// bytes.
pub open spec fn address_of(account: Seq<u8>) -> Seq<u8> {
    account.subrange(0, ADDRESS_BYTES as int)
}

/// A native account identifier, held as the bytes of its encoding.
#[derive(Debug)]
pub struct AccountId {
    bytes: Vec<u8>,
}

impl View for AccountId {
    type V = Seq<u8>;

    closed spec fn view(&self) -> Seq<u8> {
        self.bytes@
    }
}

impl PartialEq for AccountId {
    fn eq(&self, other: &AccountId) -> (r: bool) {
        bytes_equal(self.bytes.as_slice(), other.bytes.as_slice())
    }
}

impl PartialEqSpecImpl for AccountId {
    open spec fn obeys_eq_spec() -> bool {
        true
    }

    open spec fn eq_spec(&self, other: &AccountId) -> bool {
        self@ == other@
    }
}

impl Eq for AccountId {

}

impl Clone for AccountId {
    fn clone(&self) -> (r: AccountId)
        ensures
            r@ == self@,
    {
        proof {
            use_type_invariant(self);
        }
        let bytes = self.bytes.clone();
        AccountId { bytes }
    }
}

impl AccountId {
    #[verifier::type_invariant]
    spec fn long_enough(&self) -> bool {
        self.bytes@.len() >= ADDRESS_BYTES
    }

    /// The account whose encoding is `bytes`, where they are enough to hold
    /// an EVM address.
    pub fn new(bytes: Vec<u8>) -> (r: Option<AccountId>)
        ensures
            bytes@.len() >= ADDRESS_BYTES ==> r.is_some() && r.unwrap()@ == bytes@,
            bytes@.len() < ADDRESS_BYTES ==> r.is_none(),
    {
        if bytes.len() >= ADDRESS_BYTES {
            Some(AccountId { bytes })
        } else {
            None
        }
    }

    /// The bytes of the encoding.
    pub fn as_bytes(&self) -> (r: &[u8])
        ensures
            r@ == self@,
            r@.len() >= ADDRESS_BYTES,
    {
        proof {
            use_type_invariant(self);
        }
        self.bytes.as_slice()
    }

    /// The EVM address of the account: the first twenty bytes of its
    /// encoding.
    pub fn evm_address(&self) -> (r: H160)
        ensures
            self@.len() >= ADDRESS_BYTES,
            r@ == address_of(self@),
    {
        proof {
            use_type_invariant(self);
        }
        let mut bytes = [0u8; 20];
        let mut i: usize = 0;
        while i < 20
            invariant
                i <= 20,
                self.bytes@.len() >= 20,
                forall|j: int| 0 <= j < i ==> bytes@[j] == self.bytes@[j],
            decreases 20 - i,
        {
            bytes[i] = self.bytes[i];
            i += 1;
        }
        let r = H160 { bytes };
        r
    }
}

/// Who makes a call.
#[derive(Debug)]
pub enum Origin {
    /// The chain's own governance.
    Root,
    /// An account that signed the call.
    Signed(AccountId),
    /// Nobody: a call that the chain itself put in a block.
    Unsigned,
}

/// What can go wrong in a call.
#[derive(Clone, Copy, Debug, PartialEq, Eq, Structural)]
pub enum Error {
    /// The signature of the transaction is malformed.
    InvalidSignature,
    /// An amount does not fit in the width in which it is counted.
    ArithmeticOverflow,
    /// The EVM rejected or reverted the transaction.
    ExecutionFailed,
    /// The caller may not make this call.
    Unauthorized,
    /// A view call returned something that is no 32-byte word.
    CallDecodeFailed,
}

impl Origin {
    /// The account that signed the call, if one did.
    pub open spec fn signer(&self) -> Option<Seq<u8>> {
        match self {
            Origin::Signed(who) => Some(who@),
            _ => None,
        }
    }

    /// Passes the chain's own governance only.
    pub fn ensure_root(&self) -> (r: Result<(), Error>)
        ensures
            *self is Root ==> r == Ok::<(), Error>(()),
            !(*self is Root) ==> r == Err::<(), Error>(Error::Unauthorized),
    {
        match self {
            Origin::Root => Ok(()),
            _ => Err(Error::Unauthorized),
        }
    }

    /// Passes a call that an account signed, and tells which.
    pub fn ensure_signed(&self) -> (r: Result<AccountId, Error>)
        ensures
            match self.signer() {
                Some(who) => r.is_ok() && r.unwrap()@ == who,
                None => r.is_err() && r.unwrap_err() == Error::Unauthorized,
            },
    {
        match self {
            Origin::Signed(who) => Ok(who.clone()),
            _ => Err(Error::Unauthorized),
        }
    }
}

} // verus!
