//! The native registry of collections and items, as the migration sees it.
//!
//! The registry itself lives outside this crate. This module names its
//! identifiers, the changes that the migration asks of it, and a model of
//! its state over which the effect of those changes is stated.

use vstd::prelude::*;
use crate::account::AccountId;
use crate::hash::{H160, H256};

verus! {

/// How the registry names what mirrors a contract and what mirrors a token.
///
/// The names are computed from the address of the contract and from the
/// identifier of the token, and from nothing else; different addresses and
/// different identifiers get different names.
pub trait UniquesConverter<CollectionId, ItemId> {
    /// The name of the collection that mirrors the contract at `i`.
    spec fn collection_of(i: H160) -> CollectionId;

    /// The name of the item that mirrors the token with identifier `i`.
    spec fn item_of(i: H256) -> ItemId;

    /// Contracts at different addresses are mirrored by different
    /// collections.
    proof fn lemma_collection_injective(a: H160, b: H160)
        requires
            Self::collection_of(a) == Self::collection_of(b),
        ensures
            a@ == b@,
    ;

    /// Tokens with different identifiers are mirrored by different items.
    proof fn lemma_item_injective(a: H256, b: H256)
        requires
            Self::item_of(a) == Self::item_of(b),
        ensures
            a@ == b@,
    ;

    /// The name of the collection that mirrors the contract at `i`.
    fn collection(i: H160) -> (r: CollectionId)
        ensures
            r == Self::collection_of(i),
    ;

    /// The name of the item that mirrors the token with identifier `i`.
    fn item(i: H256) -> (r: ItemId)
        ensures
            r == Self::item_of(i),
    ;
}

/// The name of a collection that is the address of its contract.
#[derive(Clone, Copy, Debug, PartialEq, Eq)]
pub struct CollectionId(pub H160);

/// The name of an item that is the identifier of its token.
#[derive(Clone, Copy, Debug, PartialEq, Eq)]
pub struct ItemId(pub H256);

impl UniquesConverter<CollectionId, ItemId> for () {
    open spec fn collection_of(i: H160) -> CollectionId {
        CollectionId(i)
    }

    open spec fn item_of(i: H256) -> ItemId {
        ItemId(i)
    }

    proof fn lemma_collection_injective(a: H160, b: H160) {
    }

    proof fn lemma_item_injective(a: H256, b: H256) {
    }

    fn collection(i: H160) -> (r: CollectionId) {
        CollectionId(i)
    }

    fn item(i: H256) -> (r: ItemId) {
        ItemId(i)
    }
}

/// A change that the migration asks of the registry.
#[derive(Debug, PartialEq, Eq)]
pub enum RegistryAction<C, I> {
    /// Create the item and give it to `owner`.
    Mint { collection: C, item: I, owner: AccountId },
    /// Hand the item over to `dest`.
    Transfer { collection: C, item: I, dest: AccountId },
    /// Leave the registry as it is.
    Keep,
}

/// A change to the registry, with accounts as plain values.
pub enum Change<C, I> {
    Mint { collection: C, item: I, owner: Seq<u8> },
    Transfer { collection: C, item: I, dest: Seq<u8> },
    Keep,
}

impl<C, I> View for RegistryAction<C, I> {
    type V = Change<C, I>;

    open spec fn view(&self) -> Change<C, I> {
        match self {
            RegistryAction::Mint { collection, item, owner } => Change::Mint {
                collection: *collection,
                item: *item,
                owner: owner@,
            },
            RegistryAction::Transfer { collection, item, dest } => Change::Transfer {
                collection: *collection,
                item: *item,
                dest: dest@,
            },
            RegistryAction::Keep => Change::Keep,
        }
    }
}

/// The request to create a collection.
#[derive(Debug, PartialEq, Eq)]
pub struct CreateCollection<C> {
    pub collection: C,
    pub owner: AccountId,
    pub admin: AccountId,
    /// What the owner pays for the collection.
    pub deposit: u128,
    /// Whether items of the collection are held without a deposit.
    pub free_holding: bool,
}

/// The request to create a collection, with accounts as plain values.
pub struct Creation<C> {
    pub collection: C,
    pub owner: Seq<u8>,
    pub admin: Seq<u8>,
    pub deposit: u128,
    pub free_holding: bool,
}

impl<C> View for CreateCollection<C> {
    type V = Creation<C>;

    open spec fn view(&self) -> Creation<C> {
        Creation {
            collection: self.collection,
            owner: self.owner@,
            admin: self.admin@,
            deposit: self.deposit,
            free_holding: self.free_holding,
        }
    }
}

/// The state of the registry: the owner of every item that exists, and the
/// owner of every collection that exists.
#[verifier::reject_recursive_types(C)]
#[verifier::reject_recursive_types(I)]
pub struct Registry<C, I> {
    pub owners: Map<(C, I), Seq<u8>>,
    pub collections: Map<C, Seq<u8>>,
}

impl<C, I> Registry<C, I> {
    /// The owner of the item, if the item exists.
    pub open spec fn owner(self, collection: C, item: I) -> Option<Seq<u8>> {
        if self.owners.dom().contains((collection, item)) {
            Some(self.owners[(collection, item)])
        } else {
            None
        }
    }

    /// The owner of the collection, if the collection exists.
    pub open spec fn collection_owner(self, collection: C) -> Option<Seq<u8>> {
        if self.collections.dom().contains(collection) {
            Some(self.collections[collection])
        } else {
            None
        }
    }

    /// The registry after `change`. Minting an item that exists and
    /// transferring one that does not change nothing.
    pub open spec fn after(self, change: Change<C, I>) -> Registry<C, I> {
        match change {
            Change::Mint { collection, item, owner } => if self.owners.dom().contains(
                (collection, item),
            ) {
                self
            } else {
                Registry { owners: self.owners.insert((collection, item), owner), ..self }
            },
            Change::Transfer { collection, item, dest } => if self.owners.dom().contains(
                (collection, item),
            ) {
                Registry { owners: self.owners.insert((collection, item), dest), ..self }
            } else {
                self
            },
            Change::Keep => self,
        }
    }

    /// The registry after `request`, where there is one. Creating a
    /// collection that exists changes nothing.
    pub open spec fn after_creation(self, request: Option<Creation<C>>) -> Registry<C, I> {
        match request {
            Some(creation) => if self.collections.dom().contains(creation.collection) {
                self
            } else {
                Registry {
                    collections: self.collections.insert(creation.collection, creation.owner),
                    ..self
                }
            },
            None => self,
        }
    }
}

/// The owner of an item as a plain value.
pub open spec fn holder(current_owner: Option<&AccountId>) -> Option<Seq<u8>> {
    match current_owner {
        Some(who) => Some(who@),
        None => None,
    }
}

/// The change that brings the item to `claimed`, given its owner now.
pub open spec fn reconciliation<C, I>(
    current: Option<Seq<u8>>,
    claimed: Seq<u8>,
    collection: C,
    item: I,
) -> Change<C, I> {
    match current {
        None => Change::Mint { collection, item, owner: claimed },
        Some(holder) => if holder != claimed {
            Change::Transfer { collection, item, dest: claimed }
        } else {
            Change::Keep
        },
    }
}

/// The request for a collection owned by `owner` and administered by
/// `admin`, where `existing` tells that the registry has none yet: without
/// a deposit, and with items held for free.
pub open spec fn creation<C>(
    existing: Option<Seq<u8>>,
    collection: C,
    owner: Seq<u8>,
    admin: Seq<u8>,
) -> Option<Creation<C>> {
    match existing {
        Some(_) => None,
        None => Some(Creation { collection, owner, admin, deposit: 0, free_holding: true }),
    }
}

/// Brings the token of `contract` with identifier `token_id` to `owner`:
/// mints the item where it has no owner yet, transfers it where another
/// account owns it, and leaves it where `owner` owns it already.
pub fn migrate_token_to_owner<V: UniquesConverter<C, I>, C, I>(
    current_owner: Option<&AccountId>,
    owner: &AccountId,
    contract: H160,
    token_id: H256,
) -> (r: RegistryAction<C, I>)
    ensures
        r@ == reconciliation(
            holder(current_owner),
            owner@,
            V::collection_of(contract),
            V::item_of(token_id),
        ),
{
    match current_owner {
        None => RegistryAction::Mint {
            collection: V::collection(contract),
            item: V::item(token_id),
            owner: owner.clone(),
        },
        Some(holder) => {
            if *holder != *owner {
                RegistryAction::Transfer {
                    collection: V::collection(contract),
                    item: V::item(token_id),
                    dest: owner.clone(),
                }
            } else {
                RegistryAction::Keep
            }
        },
    }
}

/// Asks for the collection of `contract` where the registry has none yet.
pub fn create_collection<V: UniquesConverter<C, I>, C, I>(
    existing_owner: Option<&AccountId>,
    owner: &AccountId,
    admin: &AccountId,
    contract: H160,
) -> (r: Option<CreateCollection<C>>)
    ensures
        match creation(holder(existing_owner), V::collection_of(contract), owner@, admin@) {
            Some(request) => r matches Some(made) && made@ == request,
            None => r is None,
        },
{
    match existing_owner {
        Some(_) => None,
        None => Some(
            CreateCollection {
                collection: V::collection(contract),
                owner: owner.clone(),
                admin: admin.clone(),
                deposit: 0,
                free_holding: true,
            },
        ),
    }
}

/// After a reconciliation the item belongs to the claimed owner, and every
/// other item and every collection is as before.
pub proof fn lemma_reconcile_converges<C, I>(
    registry: Registry<C, I>,
    collection: C,
    item: I,
    claimed: Seq<u8>,
)
    ensures
        ({
            let change = reconciliation(registry.owner(collection, item), claimed, collection, item);
            let next = registry.after(change);
            &&& next.owner(collection, item) == Some(claimed)
            &&& next.collections == registry.collections
            &&& forall|c: C, i: I|
                (c, i) != (collection, item) ==> #[trigger] next.owner(c, i) == registry.owner(c, i)
        }),
{
}

/// Reconciling an item twice to the same owner is reconciling it once: the
/// second time nothing is asked of the registry, which stays as the first
/// left it.
pub proof fn lemma_reconcile_idempotent<C, I>(
    registry: Registry<C, I>,
    collection: C,
    item: I,
    claimed: Seq<u8>,
)
    ensures
        ({
            let first = registry.after(
                reconciliation(registry.owner(collection, item), claimed, collection, item),
            );
            let again = reconciliation(first.owner(collection, item), claimed, collection, item);
            &&& again == Change::<C, I>::Keep
            &&& first.after(again) == first
        }),
{
}

/// An item that exists is never minted again: reconciling it to another
/// owner asks for one transfer, after which it belongs to that owner.
pub proof fn lemma_reconcile_new_owner_transfers<C, I>(
    registry: Registry<C, I>,
    collection: C,
    item: I,
    first_owner: Seq<u8>,
    second_owner: Seq<u8>,
)
    requires
        first_owner != second_owner,
    ensures
        ({
            let minted = registry.after(
                reconciliation(registry.owner(collection, item), first_owner, collection, item),
            );
            let change = reconciliation(
                minted.owner(collection, item),
                second_owner,
                collection,
                item,
            );
            &&& change == Change::Transfer { collection, item, dest: second_owner }
            &&& minted.after(change).owner(collection, item) == Some(second_owner)
        }),
{
}

/// The registry after the items of `collection` were reconciled, one after
/// the other, to the owners that `claims` pairs them with.
pub open spec fn reconcile_all<C, I>(
    registry: Registry<C, I>,
    collection: C,
    claims: Seq<(I, Seq<u8>)>,
) -> Registry<C, I>
    decreases claims.len(),
{
    if claims.len() == 0 {
        registry
    } else {
        let before = reconcile_all(registry, collection, claims.drop_last());
        let (item, claimed) = claims.last();
        before.after(reconciliation(before.owner(collection, item), claimed, collection, item))
    }
}

/// The owner that the last of `claims` about `item` names, if any is about
/// it.
pub open spec fn last_claim<I>(claims: Seq<(I, Seq<u8>)>, item: I) -> Option<Seq<u8>>
    decreases claims.len(),
{
    if claims.len() == 0 {
        None
    } else if claims.last().0 == item {
        Some(claims.last().1)
    } else {
        last_claim(claims.drop_last(), item)
    }
}

/// Reconciling a list of claims converges to the latest claim: every item
/// that a claim is about ends with the owner that the last claim about it
/// names, and every other item, and every collection, is as before.
pub proof fn lemma_reconcile_all_latest_wins<C, I>(
    registry: Registry<C, I>,
    collection: C,
    claims: Seq<(I, Seq<u8>)>,
)
    ensures
        reconcile_all(registry, collection, claims).collections == registry.collections,
        forall|c: C, i: I| #[trigger]
            reconcile_all(registry, collection, claims).owner(c, i) == (if c == collection
                && last_claim(claims, i) is Some {
                last_claim(claims, i)
            } else {
                registry.owner(c, i)
            }),
    decreases claims.len(),
{
    if claims.len() > 0 {
        lemma_reconcile_all_latest_wins(registry, collection, claims.drop_last());
        let before = reconcile_all(registry, collection, claims.drop_last());
        let (item, claimed) = claims.last();
        lemma_reconcile_converges(before, collection, item, claimed);
        let end = reconcile_all(registry, collection, claims);
        assert forall|c: C, i: I| #[trigger]
            end.owner(c, i) == (if c == collection && last_claim(claims, i) is Some {
                last_claim(claims, i)
            } else {
                registry.owner(c, i)
            }) by {
            if (c, i) != (collection, item) {
                assert(end.owner(c, i) == before.owner(c, i));
            }
        }
    }
}

/// Asking for a collection that exists asks for nothing, and creating one
/// twice is creating it once; no item changes hands.
pub proof fn lemma_create_collection_idempotent<C, I>(
    registry: Registry<C, I>,
    collection: C,
    owner: Seq<u8>,
    admin: Seq<u8>,
)
    ensures
        ({
            let first = registry.after_creation(
                creation(registry.collection_owner(collection), collection, owner, admin),
            );
            let again = creation(first.collection_owner(collection), collection, owner, admin);
            &&& first.collection_owner(collection) is Some
            &&& again is None
            &&& first.after_creation(again) == first
            &&& first.owners == registry.owners
        }),
{
}

/// Different contracts and different tokens meet in the registry as
/// different items: a reconciliation for one token of one contract changes
/// the owner of no other token and of no token of another contract.
pub proof fn lemma_reconcile_keeps_other_tokens<V: UniquesConverter<C, I>, C, I>(
    registry: Registry<C, I>,
    contract: H160,
    token_id: H256,
    claimed: Seq<u8>,
    other_contract: H160,
    other_token: H256,
)
    requires
        contract@ != other_contract@ || token_id@ != other_token@,
    ensures
        ({
            let collection = V::collection_of(contract);
            let item = V::item_of(token_id);
            let next = registry.after(
                reconciliation(registry.owner(collection, item), claimed, collection, item),
            );
            next.owner(V::collection_of(other_contract), V::item_of(other_token)) == registry.owner(
                V::collection_of(other_contract),
                V::item_of(other_token),
            )
        }),
{
    if V::collection_of(contract) == V::collection_of(other_contract) {
        V::lemma_collection_injective(contract, other_contract);
    }
    if V::item_of(token_id) == V::item_of(other_token) {
        V::lemma_item_injective(token_id, other_token);
    }
}

} // verus!
