//! Migration of the tokens of an ERC-721 contract into the native registry.
//!
//! Three ways lead to the reconciliation of a token: the walk over the
//! storage of the contract, the claim of items that the registry holds for
//! the address of the caller, and the question to the contract itself of who
//! owns a token. Each entry point admits the caller and lays out what is to
//! be done; the caller of this crate reads storage, runs the EVM and
//! changes the registry.

use vstd::prelude::*;
use vstd::string::*;
pub use crate::account::Error;
use crate::account::{address_of, AccountId, Origin};
use crate::bytes::{be_value, hex_decoded, hex_well_formed, outside_hex_decode};
use crate::hash::{H160, H256};
use crate::registry::{
    holder, migrate_token_to_owner, reconciliation, Change, Registry, RegistryAction,
    UniquesConverter,
};
use crate::scan::MigrationCursor;
use crate::slots::{base_key, get_starting_key, nested_key, slot_base};
use crate::uint::U256;

verus! {

/// The selector of `ownerOf(uint256)`.
pub open spec fn owner_of_selector() -> Seq<u8> {
    seq![0x63u8, 0x52u8, 0x21u8, 0x1eu8]
}

/// The input of the call that asks a contract who owns `token_id`: the
/// selector, then the identifier.
pub open spec fn owner_of_call_data(token_id: Seq<u8>) -> Seq<u8> {
    owner_of_selector() + token_id
}

/// Tells whether a value returned by `ownerOf` names `address`: it is 32
/// bytes long and its last twenty are the address.
pub open spec fn names_owner(value: Seq<u8>, address: Seq<u8>) -> bool {
    value.len() == 32 && value.subrange(12, 32) == address
}

/// What a view call came to.
#[derive(Debug)]
pub enum CallOutcome {
    /// The call returned these bytes.
    Returned(Vec<u8>),
    /// The call failed.
    Failed,
}

impl View for CallOutcome {
    type V = Option<Seq<u8>>;

    open spec fn view(&self) -> Option<Seq<u8>> {
        match self {
            CallOutcome::Returned(value) => Some(value@),
            CallOutcome::Failed => None,
        }
    }
}

/// Tells whether the outcome of `ownerOf` confirms that `address` owns the
/// token.
pub open spec fn owner_confirmed(outcome: Option<Seq<u8>>, address: Seq<u8>) -> bool {
    match outcome {
        Some(value) => names_owner(value, address),
        None => false,
    }
}

/// A read-only call into the EVM.
#[derive(Debug, PartialEq, Eq)]
pub struct ViewCall {
    pub source: H160,
    pub target: H160,
    pub input: Vec<u8>,
    pub value: U256,
}

/// What a call of this module leaves for the chain's record.
#[derive(Debug, PartialEq, Eq)]
#[allow(inconsistent_fields)]
pub enum Event {
    /// The EVM address of the caller.
    EvmAddress { who: H160 },
    /// The native account of an EVM address.
    AccountId { who: AccountId },
}

/// The collection that is to exist before tokens are reconciled.
#[derive(Debug, PartialEq, Eq)]
pub struct CollectionSetup {
    pub contract: H160,
    pub owner: AccountId,
    pub admin: AccountId,
}

/// A walk over the storage of `contract`: the caller sees to `setup` where
/// there is one, then reads the keys of `cursor` round after round, and
/// reconciles each token found to the account of the address that the walk
/// names, or to `owner` where it names none.
#[derive(Debug)]
pub struct Migration {
    pub setup: Option<CollectionSetup>,
    pub contract: H160,
    pub cursor: MigrationCursor,
    pub owner: AccountId,
}

/// A claim of items: the caller sees to `setup`, finds the account of
/// `address`, and hands each of `item_ids` with its owner to
/// [`Claim::claim_item`].
#[derive(Debug)]
pub struct Claim {
    pub setup: CollectionSetup,
    pub contract: H160,
    pub caller: AccountId,
    pub address: H160,
    pub item_ids: Vec<H256>,
}

/// A check of tokens against the contract: the caller sees to `setup`,
/// makes for each of `token_ids` the call of [`OwnerCheck::owner_of_call`],
/// and hands its outcome to [`OwnerCheck::settle_token`].
#[derive(Debug)]
pub struct OwnerCheck {
    pub setup: CollectionSetup,
    pub contract: H160,
    pub caller: AccountId,
    pub source: H160,
    pub token_ids: Vec<H256>,
}

/// The four bytes of the selector of `ownerOf(uint256)`.
fn selector_bytes() -> (r: Vec<u8>)
    ensures
        r@ == owner_of_selector(),
{
    let text = "6352211e";
    proof {
        reveal_strlit("6352211e");
        is_ascii_spec_bytes(text);
    }
    let digits = text.as_bytes();
    match outside_hex_decode(digits) {
        Some(bytes) => bytes,
        None => vstd::pervasive::unreached(),
    }
}

/// The input of the call that asks a contract who owns `token_id`.
pub fn owner_of_input(token_id: &H256) -> (r: Vec<u8>)
    ensures
        r@ == owner_of_call_data(token_id@),
{
    let mut input = selector_bytes();
    let mut i: usize = 0;
    while i < 32
        invariant
            i <= 32,
            input@ == owner_of_selector() + token_id@.subrange(0, i as int),
        decreases 32 - i,
    {
        input.push(token_id.bytes[i]);
        i += 1;
    }
    input
}

/// The address that a value returned by `ownerOf` holds in its last twenty
/// bytes, or `CallDecodeFailed` where the value is no 32-byte word.
pub fn decode_owner(value: &[u8]) -> (r: Result<H160, Error>)
    ensures
        value@.len() == 32 ==> r.is_ok() && r.unwrap()@ == value@.subrange(12, 32),
        value@.len() != 32 ==> r == Err::<H160, Error>(Error::CallDecodeFailed),
{
    if value.len() != 32 {
        return Err(Error::CallDecodeFailed);
    }
    let mut bytes = [0u8; 20];
    let mut i: usize = 0;
    while i < 20
        invariant
            i <= 20,
            value@.len() == 32,
            forall|j: int| 0 <= j < i ==> bytes@[j] == value@[12 + j],
        decreases 20 - i,
    {
        bytes[i] = value[12 + i];
        i += 1;
    }
    let address = H160 { bytes };
    Ok(address)
}

/// Tells whether the outcome of `ownerOf` confirms that `owner` owns the
/// token: the call returned a 32-byte word whose last twenty bytes are the
/// EVM address of `owner`.
pub fn is_owner_of(owner: &AccountId, outcome: &CallOutcome) -> (r: bool)
    ensures
        r == owner_confirmed(outcome@, address_of(owner@)),
{
    let source = owner.evm_address();
    match outcome {
        CallOutcome::Failed => false,
        CallOutcome::Returned(value) => match decode_owner(value.as_slice()) {
            Ok(named) => named == source,
            Err(_) => false,
        },
    }
}

/// What is asked of the registry for an item that the caller claims: the
/// item goes to `caller` where its owner is `mapped`, the account of the
/// address of the caller, and stays as it is otherwise.
pub open spec fn claim_change<C, I>(
    current: Option<Seq<u8>>,
    mapped: Seq<u8>,
    caller: Seq<u8>,
    collection: C,
    item: I,
) -> Change<C, I> {
    if current == Some(mapped) {
        reconciliation(current, caller, collection, item)
    } else {
        Change::Keep
    }
}

/// What is asked of the registry for a token that the caller says to own:
/// the token goes to `caller` where the contract confirms `source`, the
/// address of the caller, as its owner, and stays as it is otherwise.
pub open spec fn confirmed_change<C, I>(
    outcome: Option<Seq<u8>>,
    source: Seq<u8>,
    current: Option<Seq<u8>>,
    caller: Seq<u8>,
    collection: C,
    item: I,
) -> Change<C, I> {
    if owner_confirmed(outcome, source) {
        reconciliation(current, caller, collection, item)
    } else {
        Change::Keep
    }
}

impl Claim {
    /// Decides on one claimed item: `mapped` is the account of the address
    /// of the caller, `current_owner` the owner of the item now.
    pub fn claim_item<V: UniquesConverter<C, I>, C, I>(
        &self,
        mapped: &AccountId,
        current_owner: Option<&AccountId>,
        item_id: H256,
    ) -> (r: RegistryAction<C, I>)
        ensures
            r@ == claim_change(
                holder(current_owner),
                mapped@,
                self.caller@,
                V::collection_of(self.contract),
                V::item_of(item_id),
            ),
    {
        match current_owner {
            Some(who) => {
                if *who == *mapped {
                    migrate_token_to_owner::<V, C, I>(
                        current_owner,
                        &self.caller,
                        self.contract,
                        item_id,
                    )
                } else {
                    RegistryAction::Keep
                }
            },
            None => RegistryAction::Keep,
        }
    }
}

impl OwnerCheck {
    /// The call that asks the contract who owns `token_id`.
    pub fn owner_of_call(&self, token_id: &H256) -> (r: ViewCall)
        ensures
            r.source == self.source,
            r.target == self.contract,
            r.input@ == owner_of_call_data(token_id@),
            r.value@ == 0,
    {
        ViewCall {
            source: self.source,
            target: self.contract,
            input: owner_of_input(token_id),
            value: U256::zero(),
        }
    }

    /// Decides on one token once the contract has answered: `outcome` is
    /// what the call came to, `current_owner` the owner of the item now.
    pub fn settle_token<V: UniquesConverter<C, I>, C, I>(
        &self,
        outcome: &CallOutcome,
        current_owner: Option<&AccountId>,
        token_id: H256,
    ) -> (r: RegistryAction<C, I>)
        ensures
            r@ == confirmed_change(
                outcome@,
                address_of(self.caller@),
                holder(current_owner),
                self.caller@,
                V::collection_of(self.contract),
                V::item_of(token_id),
            ),
    {
        if is_owner_of(&self.caller, outcome) {
            migrate_token_to_owner::<V, C, I>(current_owner, &self.caller, self.contract, token_id)
        } else {
            RegistryAction::Keep
        }
    }
}

/// The migration engine, with the account under which it keeps the
/// collections it creates.
#[derive(Debug)]
pub struct Pallet {
    account: AccountId,
}

impl View for Pallet {
    type V = Seq<u8>;

    closed spec fn view(&self) -> Seq<u8> {
        self.account@
    }
}

/// The slot at which a plain ERC-721 contract declares the mapping from
/// token to owner.
pub const OWNERS_SLOT: u64 = 2;

impl Pallet {
    /// The engine that keeps its collections under `account`.
    pub fn new(account: AccountId) -> (r: Pallet)
        ensures
            r@ == account@,
    {
        Pallet { account }
    }

    /// The account under which the engine keeps its collections.
    pub fn account_id(&self) -> (r: AccountId)
        ensures
            r@ == self@,
    {
        self.account.clone()
    }

    /// The collection of `contract`, owned and administered by the engine.
    fn setup(&self, contract: H160) -> (r: CollectionSetup)
        ensures
            r.contract == contract,
            r.owner@ == self@,
            r.admin@ == self@,
    {
        CollectionSetup { contract, owner: self.account.clone(), admin: self.account.clone() }
    }

    /// Lays out the walk over the whole list of tokens of `contract`, from
    /// the key at which the mapping at slot two starts, each token followed
    /// by its owner. Only the chain's own governance may ask for this.
    pub fn migrate_erc721_nfts(&self, origin: &Origin, contract: H160) -> (r: Result<
        Migration,
        Error,
    >)
        ensures
            *origin is Root ==> {
                &&& r matches Ok(plan)
                &&& plan.setup matches Some(setup)
                &&& setup.contract == contract
                &&& setup.owner@ == self@
                &&& setup.admin@ == self@
                &&& plan.contract == contract
                &&& plan.cursor.position@ == be_value(base_key(OWNERS_SLOT as nat))
                &&& plan.cursor.check_for_owner
                &&& plan.owner@ == self@
            },
            !(*origin is Root) ==> r matches Err(Error::Unauthorized),
    {
        match origin.ensure_root() {
            Ok(_) => {},
            Err(e) => { return Err(e); },
        }
        let starting_key = slot_base(&U256::from_u64(OWNERS_SLOT));
        Ok(
            Migration {
                setup: Some(self.setup(contract)),
                contract,
                cursor: MigrationCursor::start(&starting_key, true),
                owner: self.account.clone(),
            },
        )
    }

    /// Lays out the claim of `item_ids` of `contract` by the account that
    /// signed the call.
    pub fn claim_erc721_items(&self, origin: &Origin, contract: H160, item_ids: Vec<H256>) -> (r:
        Result<Claim, Error>)
        ensures
            match origin.signer() {
                Some(who) => {
                    &&& r matches Ok(plan)
                    &&& plan.setup.contract == contract
                    &&& plan.setup.owner@ == self@
                    &&& plan.setup.admin@ == self@
                    &&& plan.contract == contract
                    &&& plan.caller@ == who
                    &&& plan.address@ == address_of(who)
                    &&& plan.item_ids@ == item_ids@
                },
                None => r matches Err(Error::Unauthorized),
            },
    {
        let caller = match origin.ensure_signed() {
            Ok(who) => who,
            Err(e) => { return Err(e); },
        };
        let address = caller.evm_address();
        Ok(Claim { setup: self.setup(contract), contract, caller, address, item_ids })
    }

    /// Lays out the check of `token_ids` against `contract` for the account
    /// that signed the call.
    pub fn migrate_with_owner_of(&self, origin: &Origin, contract: H160, token_ids: Vec<H256>) -> (r:
        Result<OwnerCheck, Error>)
        ensures
            match origin.signer() {
                Some(who) => {
                    &&& r matches Ok(plan)
                    &&& plan.setup.contract == contract
                    &&& plan.setup.owner@ == self@
                    &&& plan.setup.admin@ == self@
                    &&& plan.contract == contract
                    &&& plan.caller@ == who
                    &&& plan.source@ == address_of(who)
                    &&& plan.token_ids@ == token_ids@
                },
                None => r matches Err(Error::Unauthorized),
            },
    {
        let caller = match origin.ensure_signed() {
            Ok(who) => who,
            Err(e) => { return Err(e); },
        };
        let source = caller.evm_address();
        Ok(OwnerCheck { setup: self.setup(contract), contract, caller, source, token_ids })
    }

    /// Lays out the walk over the tokens that `contract` lists for the
    /// account that signed the call, in the mapping declared at
    /// `storage_slot`. Each token found goes to that account.
    pub fn z_migrate_my_nfts(&self, origin: &Origin, contract: H160, storage_slot: H256) -> (r:
        Result<Migration, Error>)
        ensures
            match origin.signer() {
                Some(who) => {
                    &&& r matches Ok(plan)
                    &&& plan.setup is None
                    &&& plan.contract == contract
                    &&& plan.cursor.position@ == be_value(
                        nested_key(address_of(who), storage_slot@),
                    )
                    &&& !plan.cursor.check_for_owner
                    &&& plan.owner@ == who
                },
                None => r matches Err(Error::Unauthorized),
            },
    {
        let caller = match origin.ensure_signed() {
            Ok(who) => who,
            Err(e) => { return Err(e); },
        };
        let starting_key = get_starting_key(&caller.evm_address(), &storage_slot);
        Ok(
            Migration {
                setup: None,
                contract,
                cursor: MigrationCursor::start(&starting_key, false),
                owner: caller,
            },
        )
    }

    /// Reports the EVM address of the account that signed the call.
    pub fn z_evm_address(&self, origin: &Origin) -> (r: Result<Event, Error>)
        ensures
            match origin.signer() {
                Some(who) => r matches Ok(Event::EvmAddress { who: address }) && address@
                    == address_of(who),
                None => r matches Err(Error::Unauthorized),
            },
    {
        let caller = match origin.ensure_signed() {
            Ok(who) => who,
            Err(e) => { return Err(e); },
        };
        Ok(Event::EvmAddress { who: caller.evm_address() })
    }

    /// Reports `who` as the native account of an EVM address. The caller of
    /// this crate finds `who` for the address; the call must be signed.
    pub fn z_evm_to_account_id(&self, origin: &Origin, who: AccountId) -> (r: Result<Event, Error>)
        ensures
            match origin.signer() {
                Some(_) => r matches Ok(Event::AccountId { who: reported }) && reported@ == who@,
                None => r matches Err(Error::Unauthorized),
            },
    {
        match origin.ensure_signed() {
            Ok(_) => {},
            Err(e) => { return Err(e); },
        }
        Ok(Event::AccountId { who })
    }
}

/// A view call that returns a 32-byte word whose last twenty bytes are the
/// address of the caller brings the token to the caller; after any other
/// outcome the registry is as it was.
pub proof fn lemma_owner_check_effect<C, I>(
    registry: Registry<C, I>,
    outcome: Option<Seq<u8>>,
    source: Seq<u8>,
    caller: Seq<u8>,
    collection: C,
    item: I,
)
    ensures
        ({
            let next = registry.after(
                confirmed_change(
                    outcome,
                    source,
                    registry.owner(collection, item),
                    caller,
                    collection,
                    item,
                ),
            );
            &&& owner_confirmed(outcome, source) ==> next.owner(collection, item) == Some(caller)
            &&& !owner_confirmed(outcome, source) ==> next == registry
            &&& owner_confirmed(outcome, source) <==> (outcome matches Some(value) && value.len()
                == 32 && value.subrange(12, 32) == source)
        }),
{
}

/// A claim changes an item only where the registry holds it for the account
/// of the address of the caller, and then brings it to the caller; any
/// other item it leaves as it was.
pub proof fn lemma_claim_effect<C, I>(
    registry: Registry<C, I>,
    mapped: Seq<u8>,
    caller: Seq<u8>,
    collection: C,
    item: I,
)
    ensures
        ({
            let current = registry.owner(collection, item);
            let next = registry.after(claim_change(current, mapped, caller, collection, item));
            &&& current == Some(mapped) ==> next.owner(collection, item) == Some(caller)
            &&& current != Some(mapped) ==> next == registry
        }),
{
}

/// The registry after the caller claimed `items` of `collection` one after
/// the other.
pub open spec fn claim_all<C, I>(
    registry: Registry<C, I>,
    collection: C,
    items: Seq<I>,
    mapped: Seq<u8>,
    caller: Seq<u8>,
) -> Registry<C, I>
    decreases items.len(),
{
    if items.len() == 0 {
        registry
    } else {
        let before = claim_all(registry, collection, items.drop_last(), mapped, caller);
        let item = items.last();
        before.after(claim_change(before.owner(collection, item), mapped, caller, collection, item))
    }
}

/// A claim of a list of items brings to the caller those of them that the
/// registry held for the account of the address of the caller, and changes
/// nothing else.
pub proof fn lemma_claim_all_effect<C, I>(
    registry: Registry<C, I>,
    collection: C,
    items: Seq<I>,
    mapped: Seq<u8>,
    caller: Seq<u8>,
)
    ensures
        claim_all(registry, collection, items, mapped, caller).collections
            == registry.collections,
        forall|c: C, i: I| #[trigger]
            claim_all(registry, collection, items, mapped, caller).owner(c, i) == (if c
                == collection && items.contains(i) && registry.owner(c, i) == Some(mapped) {
                Some(caller)
            } else {
                registry.owner(c, i)
            }),
    decreases items.len(),
{
    if items.len() > 0 {
        let rest = items.drop_last();
        let item = items.last();
        lemma_claim_all_effect(registry, collection, rest, mapped, caller);
        let before = claim_all(registry, collection, rest, mapped, caller);
        let end = claim_all(registry, collection, items, mapped, caller);
        lemma_claim_effect(before, mapped, caller, collection, item);
        assert forall|c: C, i: I| #[trigger]
            end.owner(c, i) == (if c == collection && items.contains(i) && registry.owner(c, i)
                == Some(mapped) {
                Some(caller)
            } else {
                registry.owner(c, i)
            }) by {
            assert(items.contains(i) <==> rest.contains(i) || i == item) by {
                if rest.contains(i) {
                    let k = choose|k: int| 0 <= k < rest.len() && rest[k] == i;
                    assert(items[k] == i);
                }
                if i == item {
                    assert(items[items.len() - 1] == i);
                }
                if items.contains(i) {
                    let k = choose|k: int| 0 <= k < items.len() && items[k] == i;
                    if k < rest.len() {
                        assert(rest[k] == i);
                    }
                }
            }
            if (c, i) != (collection, item) {
                assert(end.owner(c, i) == before.owner(c, i));
            }
        }
    }
}

/// Tells whether the contract confirmed `source` as the owner of `token` in
/// one of the calls made for `tokens`, of which `outcomes` holds what each
/// came to.
pub open spec fn confirmed_among<I>(
    tokens: Seq<I>,
    outcomes: Seq<Option<Seq<u8>>>,
    source: Seq<u8>,
    token: I,
) -> bool {
    exists|k: int|
        0 <= k < tokens.len() && #[trigger] tokens[k] == token && owner_confirmed(
            outcomes[k],
            source,
        )
}

/// The registry after the caller had `tokens` of `collection` checked
/// against the contract one after the other.
pub open spec fn check_all<C, I>(
    registry: Registry<C, I>,
    collection: C,
    tokens: Seq<I>,
    outcomes: Seq<Option<Seq<u8>>>,
    source: Seq<u8>,
    caller: Seq<u8>,
) -> Registry<C, I>
    decreases tokens.len(),
{
    if tokens.len() == 0 {
        registry
    } else {
        let before = check_all(
            registry,
            collection,
            tokens.drop_last(),
            outcomes.drop_last(),
            source,
            caller,
        );
        let token = tokens.last();
        before.after(
            confirmed_change(
                outcomes.last(),
                source,
                before.owner(collection, token),
                caller,
                collection,
                token,
            ),
        )
    }
}

/// A check of a list of tokens against the contract brings to the caller
/// the tokens for which a call returned the address of the caller, and
/// changes nothing else.
pub proof fn lemma_check_all_effect<C, I>(
    registry: Registry<C, I>,
    collection: C,
    tokens: Seq<I>,
    outcomes: Seq<Option<Seq<u8>>>,
    source: Seq<u8>,
    caller: Seq<u8>,
)
    requires
        tokens.len() == outcomes.len(),
    ensures
        check_all(registry, collection, tokens, outcomes, source, caller).collections
            == registry.collections,
        forall|c: C, i: I| #[trigger]
            check_all(registry, collection, tokens, outcomes, source, caller).owner(c, i) == (if c
                == collection && confirmed_among(tokens, outcomes, source, i) {
                Some(caller)
            } else {
                registry.owner(c, i)
            }),
    decreases tokens.len(),
{
    if tokens.len() > 0 {
        let rest = tokens.drop_last();
        let rest_outcomes = outcomes.drop_last();
        let token = tokens.last();
        let outcome = outcomes.last();
        lemma_check_all_effect(registry, collection, rest, rest_outcomes, source, caller);
        let before = check_all(registry, collection, rest, rest_outcomes, source, caller);
        let end = check_all(registry, collection, tokens, outcomes, source, caller);
        lemma_owner_check_effect(before, outcome, source, caller, collection, token);
        assert forall|c: C, i: I| #[trigger]
            end.owner(c, i) == (if c == collection && confirmed_among(
                tokens,
                outcomes,
                source,
                i,
            ) {
                Some(caller)
            } else {
                registry.owner(c, i)
            }) by {
            let last = tokens.len() - 1;
            assert(confirmed_among(tokens, outcomes, source, i) <==> confirmed_among(
                rest,
                rest_outcomes,
                source,
                i,
            ) || (i == token && owner_confirmed(outcome, source))) by {
                if confirmed_among(rest, rest_outcomes, source, i) {
                    let k = choose|k: int|
                        0 <= k < rest.len() && #[trigger] rest[k] == i && owner_confirmed(
                            rest_outcomes[k],
                            source,
                        );
                    assert(tokens[k] == i && owner_confirmed(outcomes[k], source));
                }
                if i == token && owner_confirmed(outcome, source) {
                    assert(tokens[last] == i && owner_confirmed(outcomes[last], source));
                }
                if confirmed_among(tokens, outcomes, source, i) {
                    let k = choose|k: int|
                        0 <= k < tokens.len() && #[trigger] tokens[k] == i && owner_confirmed(
                            outcomes[k],
                            source,
                        );
                    if k < last {
                        assert(rest[k] == i && owner_confirmed(rest_outcomes[k], source));
                    }
                }
            }
            if (c, i) != (collection, token) {
                assert(end.owner(c, i) == before.owner(c, i));
            }
        }
    }
}

} // verus!
