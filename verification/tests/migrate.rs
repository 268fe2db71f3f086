use evm_bridge::account::{AccountId, Error, Origin};
use evm_bridge::hash::{H160, H256};
use evm_bridge::migrate::{
    decode_owner, is_owner_of, owner_of_input, CallOutcome, Event, Migration, Pallet,
};
use evm_bridge::registry::{
    create_collection, migrate_token_to_owner, CollectionId, ItemId, RegistryAction,
    UniquesConverter,
};
use evm_bridge::scan::{MigrationCursor, ScanKeys, ScanStep};
use evm_bridge::slots::{get_starting_key, slot_base};
use evm_bridge::uint::U256;
use std::collections::HashMap;

fn word_of(n: u64) -> H256 {
    U256::from_u64(n).to_big_endian()
}

fn account(tag: u8) -> AccountId {
    let mut bytes = vec![tag; 32];
    bytes[20] = 0xee;
    AccountId::new(bytes).unwrap()
}

fn address(tag: u8) -> H160 {
    H160::new([tag; 20])
}

fn mapped(address: &H160) -> AccountId {
    let mut bytes = vec![0x99u8; 12];
    bytes.splice(0..0, address.bytes.iter().cloned());
    AccountId::new(bytes).unwrap()
}

fn master() -> AccountId {
    account(0xaa)
}

fn contract() -> H160 {
    address(0xc0)
}

fn pallet() -> Pallet {
    Pallet::new(master())
}

struct Chain {
    storage: HashMap<[u8; 32], H256>,
    owners: HashMap<([u8; 20], [u8; 32]), AccountId>,
    collections: HashMap<[u8; 20], (AccountId, AccountId)>,
    reads: Vec<H256>,
    mints: usize,
    transfers: usize,
}

fn chain() -> Chain {
    Chain {
        storage: HashMap::new(),
        owners: HashMap::new(),
        collections: HashMap::new(),
        reads: Vec::new(),
        mints: 0,
        transfers: 0,
    }
}

fn read(chain: &mut Chain, key: &H256) -> H256 {
    chain.reads.push(*key);
    chain.storage.get(&key.bytes).cloned().unwrap_or(H256::zero())
}

fn owner_of(chain: &Chain, contract: &H160, token: &H256) -> Option<AccountId> {
    chain.owners.get(&(contract.bytes, token.bytes)).cloned()
}

fn perform(chain: &mut Chain, action: RegistryAction<CollectionId, ItemId>) {
    match action {
        RegistryAction::Mint { collection, item, owner } => {
            let key = (collection.0.bytes, item.0.bytes);
            assert!(!chain.owners.contains_key(&key));
            chain.owners.insert(key, owner);
            chain.mints += 1;
        }
        RegistryAction::Transfer { collection, item, dest } => {
            let key = (collection.0.bytes, item.0.bytes);
            assert!(chain.owners.contains_key(&key));
            chain.owners.insert(key, dest);
            chain.transfers += 1;
        }
        RegistryAction::Keep => {}
    }
}

fn reconcile(chain: &mut Chain, contract: H160, token: H256, owner: &AccountId) {
    let current = owner_of(chain, &contract, &token);
    let action = migrate_token_to_owner::<(), CollectionId, ItemId>(current.as_ref(), owner, contract, token);
    perform(chain, action);
}

fn walk(chain: &mut Chain, plan: &Migration) -> usize {
    if let Some(setup) = &plan.setup {
        let existing = chain.collections.get(&setup.contract.bytes).map(|c| c.0.clone());
        if let Some(request) =
            create_collection::<(), CollectionId, ItemId>(existing.as_ref(), &setup.owner, &setup.admin, setup.contract)
        {
            chain
                .collections
                .insert(request.collection.0.bytes, (request.owner, request.admin));
        }
    }
    let mut cursor = plan.cursor;
    let mut rounds = 0;
    loop {
        let keys = cursor.keys().unwrap();
        let token_word = read(chain, &keys.token);
        let owner_word = match keys.owner {
            Some(key) => read(chain, &key),
            None => H256::zero(),
        };
        match cursor.advance(token_word, owner_word) {
            ScanStep::Stop => return rounds,
            ScanStep::Exhausted => panic!("arithmetic operation overflow"),
            ScanStep::Token { token_id, owner, next } => {
                let claimed = match owner {
                    Some(address) => mapped(&address),
                    None => plan.owner.clone(),
                };
                reconcile(chain, plan.contract, token_id, &claimed);
                cursor = next;
                rounds += 1;
            }
        }
    }
}

fn put(chain: &mut Chain, position: U256, value: H256) {
    chain.storage.insert(position.to_big_endian().bytes, value);
}

fn fill_pairs(chain: &mut Chain, start: &H256, pairs: &[(H256, H160)]) {
    let mut position = U256::from_big_endian(start);
    for (token, owner) in pairs {
        put(chain, position, *token);
        position = position.checked_add(U256::one()).unwrap();
        put(chain, position, H256::from_address(owner));
        position = position.checked_add(U256::one()).unwrap();
    }
}

fn name_of(contract: H160) -> CollectionId {
    <() as UniquesConverter<CollectionId, ItemId>>::collection(contract)
}

fn item_of(token: H256) -> ItemId {
    <() as UniquesConverter<CollectionId, ItemId>>::item(token)
}

struct Raw;

impl UniquesConverter<[u8; 20], [u8; 32]> for Raw {
    fn collection_of(i: H160) -> [u8; 20] {
        i.bytes
    }

    fn item_of(i: H256) -> [u8; 32] {
        i.bytes
    }

    fn lemma_collection_injective(_: H160, _: H160) {}

    fn lemma_item_injective(_: H256, _: H256) {}

    fn collection(i: H160) -> [u8; 20] {
        i.bytes
    }

    fn item(i: H256) -> [u8; 32] {
        i.bytes
    }
}

#[test]
fn reconcile_names_items_as_the_converter_does() {
    assert_eq!(
        migrate_token_to_owner::<Raw, [u8; 20], [u8; 32]>(None, &account(1), contract(), word_of(5)),
        RegistryAction::Mint {
            collection: contract().bytes,
            item: word_of(5).bytes,
            owner: account(1),
        }
    );
    assert_eq!(
        migrate_token_to_owner::<Raw, [u8; 20], [u8; 32]>(
            Some(&account(2)),
            &account(1),
            contract(),
            word_of(5)
        ),
        RegistryAction::Transfer {
            collection: contract().bytes,
            item: word_of(5).bytes,
            dest: account(1),
        }
    );
    let request =
        create_collection::<Raw, [u8; 20], [u8; 32]>(None, &master(), &master(), contract())
            .unwrap();
    assert_eq!(request.collection, contract().bytes);
}

#[test]
fn identifiers_mirror_contract_and_token() {
    assert_eq!(name_of(contract()), CollectionId(contract()));
    assert_eq!(item_of(word_of(9)), ItemId(word_of(9)));
    assert_ne!(name_of(contract()), name_of(address(0xc1)));
    assert_ne!(item_of(word_of(9)), item_of(word_of(10)));
}

#[test]
fn reconcile_mints_an_unowned_item() {
    assert_eq!(
        migrate_token_to_owner::<(), CollectionId, ItemId>(None, &account(1), contract(), word_of(5)),
        RegistryAction::Mint {
            collection: CollectionId(contract()),
            item: ItemId(word_of(5)),
            owner: account(1),
        }
    );
}

#[test]
fn reconcile_transfers_from_another_owner() {
    assert_eq!(
        migrate_token_to_owner::<(), CollectionId, ItemId>(Some(&account(2)), &account(1), contract(), word_of(5)),
        RegistryAction::Transfer {
            collection: CollectionId(contract()),
            item: ItemId(word_of(5)),
            dest: account(1),
        }
    );
}

#[test]
fn reconcile_keeps_the_same_owner() {
    assert_eq!(
        migrate_token_to_owner::<(), CollectionId, ItemId>(Some(&account(1)), &account(1), contract(), word_of(5)),
        RegistryAction::Keep
    );
}

#[test]
fn reconcile_twice_is_reconcile_once() {
    let mut c = chain();
    reconcile(&mut c, contract(), word_of(5), &account(1));
    assert_eq!((c.mints, c.transfers), (1, 0));
    let after_first = c.owners.clone();
    reconcile(&mut c, contract(), word_of(5), &account(1));
    assert_eq!((c.mints, c.transfers), (1, 0));
    assert_eq!(c.owners, after_first);
}

#[test]
fn reconcile_to_a_new_owner_transfers_once() {
    let mut c = chain();
    reconcile(&mut c, contract(), word_of(5), &account(1));
    reconcile(&mut c, contract(), word_of(5), &account(2));
    assert_eq!((c.mints, c.transfers), (1, 1));
    assert_eq!(owner_of(&c, &contract(), &word_of(5)), Some(account(2)));
    reconcile(&mut c, contract(), word_of(5), &account(2));
    assert_eq!((c.mints, c.transfers), (1, 1));
}

#[test]
fn collection_is_created_once() {
    let request = create_collection::<(), CollectionId, ItemId>(None, &master(), &account(3), contract()).unwrap();
    assert_eq!(request.collection, CollectionId(contract()));
    assert_eq!(request.owner, master());
    assert_eq!(request.admin, account(3));
    assert_eq!(request.deposit, 0);
    assert!(request.free_holding);
    assert_eq!(create_collection::<(), CollectionId, ItemId>(Some(&master()), &master(), &master(), contract()), None);
    assert_eq!(create_collection::<(), CollectionId, ItemId>(Some(&account(4)), &master(), &master(), contract()), None);
}

#[test]
fn cursor_keys_in_pairs() {
    let cursor = MigrationCursor::start(&word_of(10), true);
    assert_eq!(cursor.position, U256::from_u64(10));
    assert!(cursor.check_for_owner);
    assert_eq!(
        cursor.keys(),
        Some(ScanKeys { token: word_of(10), owner: Some(word_of(11)) })
    );
}

#[test]
fn cursor_keys_alone() {
    let cursor = MigrationCursor::start(&word_of(10), false);
    assert_eq!(cursor.keys(), Some(ScanKeys { token: word_of(10), owner: None }));
}

#[test]
fn cursor_keys_at_the_last_key() {
    let last = H256::new([0xff; 32]);
    assert_eq!(MigrationCursor::start(&last, true).keys(), None);
    assert_eq!(
        MigrationCursor::start(&last, false).keys(),
        Some(ScanKeys { token: last, owner: None })
    );
}

#[test]
fn advance_stops_on_two_zero_words() {
    let cursor = MigrationCursor::start(&word_of(10), true);
    assert_eq!(cursor.advance(H256::zero(), H256::zero()), ScanStep::Stop);
}

#[test]
fn advance_goes_on_while_one_word_is_set() {
    let cursor = MigrationCursor::start(&word_of(10), true);
    let next = MigrationCursor { position: U256::from_u64(12), check_for_owner: true };
    assert_eq!(
        cursor.advance(word_of(7), H256::from_address(&address(1))),
        ScanStep::Token { token_id: word_of(7), owner: Some(address(1)), next }
    );
    assert_eq!(
        cursor.advance(H256::zero(), H256::from_address(&address(1))),
        ScanStep::Token { token_id: H256::zero(), owner: Some(address(1)), next }
    );
    assert_eq!(
        cursor.advance(word_of(7), H256::zero()),
        ScanStep::Token { token_id: word_of(7), owner: Some(H160::zero()), next }
    );
}

#[test]
fn advance_takes_the_low_twenty_bytes_of_the_owner() {
    let cursor = MigrationCursor::start(&word_of(10), true);
    let mut bytes = [0xabu8; 32];
    for i in 12..32 {
        bytes[i] = 1;
    }
    match cursor.advance(word_of(7), H256::new(bytes)) {
        ScanStep::Token { owner, .. } => assert_eq!(owner, Some(address(1))),
        other => panic!("{:?}", other),
    }
}

#[test]
fn advance_alone_looks_at_the_token_only() {
    let cursor = MigrationCursor::start(&word_of(10), false);
    assert_eq!(cursor.advance(H256::zero(), word_of(1)), ScanStep::Stop);
    assert_eq!(
        cursor.advance(word_of(7), word_of(1)),
        ScanStep::Token {
            token_id: word_of(7),
            owner: None,
            next: MigrationCursor { position: U256::from_u64(11), check_for_owner: false },
        }
    );
}

#[test]
fn advance_at_the_end_of_the_key_space() {
    let mut bytes = [0xffu8; 32];
    bytes[31] = 0xfe;
    let before_last = H256::new(bytes);
    let paired = MigrationCursor::start(&before_last, true);
    assert_eq!(paired.advance(word_of(1), word_of(1)), ScanStep::Exhausted);
    assert_eq!(paired.advance(H256::zero(), H256::zero()), ScanStep::Stop);
    let alone = MigrationCursor::start(&before_last, false);
    assert_eq!(
        alone.advance(word_of(1), H256::zero()),
        ScanStep::Token {
            token_id: word_of(1),
            owner: None,
            next: MigrationCursor {
                position: U256 { l0: u64::MAX, l1: u64::MAX, l2: u64::MAX, l3: u64::MAX },
                check_for_owner: false,
            },
        }
    );
    let last = MigrationCursor::start(&H256::new([0xff; 32]), false);
    assert_eq!(last.advance(word_of(1), H256::zero()), ScanStep::Exhausted);
}

#[test]
fn full_scan_is_for_root_only() {
    let p = pallet();
    assert_eq!(
        p.migrate_erc721_nfts(&Origin::Signed(master()), contract()).err(),
        Some(Error::Unauthorized)
    );
    assert_eq!(
        p.migrate_erc721_nfts(&Origin::Signed(account(1)), contract()).err(),
        Some(Error::Unauthorized)
    );
    assert_eq!(
        p.migrate_erc721_nfts(&Origin::Unsigned, contract()).err(),
        Some(Error::Unauthorized)
    );
}

#[test]
fn full_scan_starts_at_the_base_of_slot_two() {
    let plan = pallet().migrate_erc721_nfts(&Origin::Root, contract()).unwrap();
    let setup = plan.setup.unwrap();
    assert_eq!(setup.contract, contract());
    assert_eq!(setup.owner, master());
    assert_eq!(setup.admin, master());
    assert_eq!(plan.contract, contract());
    assert_eq!(plan.owner, master());
    assert!(plan.cursor.check_for_owner);
    assert_eq!(plan.cursor.position.to_big_endian(), slot_base(&U256::from_u64(2)));
}

#[test]
fn full_scan_stops_at_the_first_zero_pair() {
    let plan = pallet().migrate_erc721_nfts(&Origin::Root, contract()).unwrap();
    let start = plan.cursor.position;
    let mut c = chain();
    fill_pairs(
        &mut c,
        &start.to_big_endian(),
        &[(word_of(1), address(1)), (word_of(2), address(2)), (word_of(3), address(1))],
    );
    let beyond = start.checked_add(U256::from_u64(8)).unwrap();
    put(&mut c, beyond, word_of(4));
    put(&mut c, beyond.checked_add(U256::one()).unwrap(), H256::from_address(&address(4)));
    assert_eq!(walk(&mut c, &plan), 3);
    assert_eq!(c.mints, 3);
    assert_eq!(c.transfers, 0);
    assert_eq!(owner_of(&c, &contract(), &word_of(1)), Some(mapped(&address(1))));
    assert_eq!(owner_of(&c, &contract(), &word_of(2)), Some(mapped(&address(2))));
    assert_eq!(owner_of(&c, &contract(), &word_of(3)), Some(mapped(&address(1))));
    assert_eq!(owner_of(&c, &contract(), &word_of(4)), None);
    assert_eq!(owner_of(&c, &contract(), &H256::zero()), None);
    assert_eq!(c.reads.len(), 8);
    let stop = start.checked_add(U256::from_u64(6)).unwrap();
    assert_eq!(c.reads[6], stop.to_big_endian());
    assert_eq!(c.reads[7], stop.checked_add(U256::one()).unwrap().to_big_endian());
    assert_eq!(c.collections.get(&contract().bytes), Some(&(master(), master())));
}

#[test]
fn full_scan_of_empty_storage_reconciles_nothing() {
    let plan = pallet().migrate_erc721_nfts(&Origin::Root, contract()).unwrap();
    let mut c = chain();
    assert_eq!(walk(&mut c, &plan), 0);
    assert_eq!(c.reads.len(), 2);
    assert!(c.owners.is_empty());
    assert_eq!(c.collections.len(), 1);
}

#[test]
fn full_scan_twice_changes_nothing_more() {
    let plan = pallet().migrate_erc721_nfts(&Origin::Root, contract()).unwrap();
    let mut c = chain();
    fill_pairs(
        &mut c,
        &plan.cursor.position.to_big_endian(),
        &[(word_of(1), address(1)), (word_of(2), address(2))],
    );
    walk(&mut c, &plan);
    let owners = c.owners.clone();
    walk(&mut c, &plan);
    assert_eq!((c.mints, c.transfers), (2, 0));
    assert_eq!(c.owners, owners);
    assert_eq!(c.collections.len(), 1);
}

#[test]
fn full_scan_follows_a_change_of_owner() {
    let plan = pallet().migrate_erc721_nfts(&Origin::Root, contract()).unwrap();
    let mut c = chain();
    let start = plan.cursor.position.to_big_endian();
    fill_pairs(&mut c, &start, &[(word_of(1), address(1))]);
    walk(&mut c, &plan);
    fill_pairs(&mut c, &start, &[(word_of(1), address(2))]);
    walk(&mut c, &plan);
    assert_eq!((c.mints, c.transfers), (1, 1));
    assert_eq!(owner_of(&c, &contract(), &word_of(1)), Some(mapped(&address(2))));
}

#[test]
fn my_nfts_needs_a_signature() {
    let p = pallet();
    assert_eq!(
        p.z_migrate_my_nfts(&Origin::Root, contract(), word_of(5)).err(),
        Some(Error::Unauthorized)
    );
    assert_eq!(
        p.z_migrate_my_nfts(&Origin::Unsigned, contract(), word_of(5)).err(),
        Some(Error::Unauthorized)
    );
}

#[test]
fn my_nfts_walks_single_words_for_the_caller() {
    let who = account(7);
    let plan = pallet()
        .z_migrate_my_nfts(&Origin::Signed(who.clone()), contract(), word_of(5))
        .unwrap();
    assert!(plan.setup.is_none());
    assert!(!plan.cursor.check_for_owner);
    assert_eq!(plan.owner, who);
    assert_eq!(
        plan.cursor.position.to_big_endian(),
        get_starting_key(&who.evm_address(), &word_of(5))
    );
    let mut c = chain();
    let start = plan.cursor.position;
    put(&mut c, start, word_of(21));
    put(&mut c, start.checked_add(U256::one()).unwrap(), word_of(22));
    put(&mut c, start.checked_add(U256::from_u64(3)).unwrap(), word_of(24));
    assert_eq!(walk(&mut c, &plan), 2);
    assert_eq!(c.reads.len(), 3);
    assert_eq!(owner_of(&c, &contract(), &word_of(21)), Some(who.clone()));
    assert_eq!(owner_of(&c, &contract(), &word_of(22)), Some(who));
    assert_eq!(owner_of(&c, &contract(), &word_of(24)), None);
    assert!(c.collections.is_empty());
}

#[test]
fn claim_needs_a_signature() {
    let p = pallet();
    assert_eq!(
        p.claim_erc721_items(&Origin::Root, contract(), vec![word_of(1)]).err(),
        Some(Error::Unauthorized)
    );
    assert_eq!(
        p.claim_erc721_items(&Origin::Unsigned, contract(), Vec::new()).err(),
        Some(Error::Unauthorized)
    );
}

#[test]
fn claim_is_laid_out_for_the_caller() {
    let who = account(7);
    let plan = pallet()
        .claim_erc721_items(&Origin::Signed(who.clone()), contract(), vec![word_of(1), word_of(2)])
        .unwrap();
    assert_eq!(plan.setup.contract, contract());
    assert_eq!(plan.setup.owner, master());
    assert_eq!(plan.setup.admin, master());
    assert_eq!(plan.contract, contract());
    assert_eq!(plan.caller, who);
    assert_eq!(plan.address, who.evm_address());
    assert_eq!(plan.item_ids, vec![word_of(1), word_of(2)]);
}

#[test]
fn claim_moves_only_items_held_for_the_address_of_the_caller() {
    let who = account(7);
    let held_for_me = mapped(&who.evm_address());
    let plan = pallet()
        .claim_erc721_items(&Origin::Signed(who.clone()), contract(), vec![word_of(1)])
        .unwrap();
    assert_eq!(
        plan.claim_item::<(), CollectionId, ItemId>(&held_for_me, Some(&held_for_me), word_of(1)),
        RegistryAction::Transfer {
            collection: CollectionId(contract()),
            item: ItemId(word_of(1)),
            dest: who.clone(),
        }
    );
    assert_eq!(
        plan.claim_item::<(), CollectionId, ItemId>(&held_for_me, Some(&account(8)), word_of(1)),
        RegistryAction::Keep
    );
    assert_eq!(plan.claim_item::<(), CollectionId, ItemId>(&held_for_me, Some(&who), word_of(1)), RegistryAction::Keep);
    assert_eq!(plan.claim_item::<(), CollectionId, ItemId>(&held_for_me, None, word_of(1)), RegistryAction::Keep);
    assert_eq!(plan.claim_item::<(), CollectionId, ItemId>(&who, Some(&who), word_of(1)), RegistryAction::Keep);
}

#[test]
fn owner_of_input_is_selector_then_token() {
    let token = word_of(0x0102);
    let input = owner_of_input(&token);
    assert_eq!(input.len(), 36);
    assert_eq!(&input[0..4], &[0x63, 0x52, 0x21, 0x1e]);
    assert_eq!(&input[4..], &token.bytes[..]);
    assert_eq!(input[34], 0x01);
    assert_eq!(input[35], 0x02);
}

#[test]
fn decode_owner_wants_a_word() {
    let mut value = vec![0u8; 12];
    value.extend_from_slice(&[5u8; 20]);
    assert_eq!(decode_owner(&value), Ok(address(5)));
    value[0] = 0xff;
    assert_eq!(decode_owner(&value), Ok(address(5)));
    assert_eq!(decode_owner(&value[1..]), Err(Error::CallDecodeFailed));
    value.push(0);
    assert_eq!(decode_owner(&value), Err(Error::CallDecodeFailed));
    assert_eq!(decode_owner(&[]), Err(Error::CallDecodeFailed));
    assert_eq!(decode_owner(&[5u8; 20]), Err(Error::CallDecodeFailed));
}

#[test]
fn is_owner_of_wants_the_address_of_the_caller() {
    let who = account(7);
    let mut value = vec![0u8; 12];
    value.extend_from_slice(&who.evm_address().bytes);
    assert!(is_owner_of(&who, &CallOutcome::Returned(value.clone())));
    let mut high = value.clone();
    high[0] = 1;
    assert!(is_owner_of(&who, &CallOutcome::Returned(high)));
    let mut other = value.clone();
    other[31] ^= 1;
    assert!(!is_owner_of(&who, &CallOutcome::Returned(other)));
    let mut first = value.clone();
    first[12] ^= 1;
    assert!(!is_owner_of(&who, &CallOutcome::Returned(first)));
    assert!(!is_owner_of(&who, &CallOutcome::Returned(value[12..].to_vec())));
    let mut long = value.clone();
    long.push(0);
    assert!(!is_owner_of(&who, &CallOutcome::Returned(long)));
    assert!(!is_owner_of(&who, &CallOutcome::Returned(Vec::new())));
    assert!(!is_owner_of(&who, &CallOutcome::Failed));
}

#[test]
fn owner_check_needs_a_signature() {
    let p = pallet();
    assert_eq!(
        p.migrate_with_owner_of(&Origin::Root, contract(), vec![word_of(1)]).err(),
        Some(Error::Unauthorized)
    );
    assert_eq!(
        p.migrate_with_owner_of(&Origin::Unsigned, contract(), Vec::new()).err(),
        Some(Error::Unauthorized)
    );
}

#[test]
fn owner_check_asks_the_contract() {
    let who = account(7);
    let plan = pallet()
        .migrate_with_owner_of(&Origin::Signed(who.clone()), contract(), vec![word_of(1)])
        .unwrap();
    assert_eq!(plan.setup.contract, contract());
    assert_eq!(plan.setup.owner, master());
    assert_eq!(plan.setup.admin, master());
    assert_eq!(plan.caller, who);
    assert_eq!(plan.source, who.evm_address());
    assert_eq!(plan.token_ids, vec![word_of(1)]);
    let call = plan.owner_of_call(&word_of(1));
    assert_eq!(call.source, who.evm_address());
    assert_eq!(call.target, contract());
    assert_eq!(call.input, owner_of_input(&word_of(1)));
    assert_eq!(call.value, U256::zero());
}

#[test]
fn owner_check_reconciles_confirmed_tokens_only() {
    let who = account(7);
    let plan = pallet()
        .migrate_with_owner_of(&Origin::Signed(who.clone()), contract(), vec![word_of(1)])
        .unwrap();
    let confirmed = CallOutcome::Returned(H256::from_address(&who.evm_address()).bytes.to_vec());
    let denied = CallOutcome::Returned(H256::from_address(&address(1)).bytes.to_vec());
    let short = CallOutcome::Returned(who.evm_address().bytes.to_vec());
    assert_eq!(
        plan.settle_token::<(), CollectionId, ItemId>(&confirmed, None, word_of(1)),
        RegistryAction::Mint {
            collection: CollectionId(contract()),
            item: ItemId(word_of(1)),
            owner: who.clone(),
        }
    );
    assert_eq!(
        plan.settle_token::<(), CollectionId, ItemId>(&confirmed, Some(&account(8)), word_of(1)),
        RegistryAction::Transfer {
            collection: CollectionId(contract()),
            item: ItemId(word_of(1)),
            dest: who.clone(),
        }
    );
    assert_eq!(plan.settle_token::<(), CollectionId, ItemId>(&confirmed, Some(&who), word_of(1)), RegistryAction::Keep);
    for outcome in [denied, short, CallOutcome::Failed] {
        assert_eq!(plan.settle_token::<(), CollectionId, ItemId>(&outcome, None, word_of(1)), RegistryAction::Keep);
        assert_eq!(
            plan.settle_token::<(), CollectionId, ItemId>(&outcome, Some(&account(8)), word_of(1)),
            RegistryAction::Keep
        );
    }
}

#[test]
fn engine_account() {
    assert_eq!(pallet().account_id(), master());
}

#[test]
fn evm_address_of_the_caller() {
    let who = account(7);
    assert_eq!(
        pallet().z_evm_address(&Origin::Signed(who.clone())),
        Ok(Event::EvmAddress { who: who.evm_address() })
    );
    assert_eq!(pallet().z_evm_address(&Origin::Root), Err(Error::Unauthorized));
    assert_eq!(pallet().z_evm_address(&Origin::Unsigned), Err(Error::Unauthorized));
}

#[test]
fn account_of_an_address() {
    let who = account(7);
    assert_eq!(
        pallet().z_evm_to_account_id(&Origin::Signed(account(1)), who.clone()),
        Ok(Event::AccountId { who: who.clone() })
    );
    assert_eq!(
        pallet().z_evm_to_account_id(&Origin::Root, who.clone()),
        Err(Error::Unauthorized)
    );
    assert_eq!(
        pallet().z_evm_to_account_id(&Origin::Unsigned, who),
        Err(Error::Unauthorized)
    );
}
