use fuel_types::canonical::Serialize;
use tx_builders::inputs::{
    Bech32Address, ByteSegment, Coin, Message, TxInput, TxPointer, UnresolvedBytes, UtxoId,
};
use tx_builders::offsets::padded_len;
use tx_builders::policies::{PolicyKind, PolicySet};
use tx_builders::resolver::{
    create_coin_input, create_coin_message_input, create_coin_message_predicate,
    create_coin_predicate,
};
use tx_builders::signatures::UnresolvedSignatures;

fn bytes32(first: u8) -> Vec<u8> {
    let mut b = vec![0u8; 32];
    b[0] = first;
    b
}

fn given_a_message(data: Vec<u8>) -> Message {
    Message {
        sender: Bech32Address::new(bytes32(0)),
        recipient: Bech32Address::new(bytes32(0)),
        nonce: bytes32(0),
        amount: 0,
        data,
    }
}

fn given_a_coin(owner_first: u8) -> Coin {
    Coin {
        utxo_id: UtxoId { tx_id: bytes32(9), output_index: 3 },
        owner: Bech32Address::new(bytes32(owner_first)),
        amount: 1000,
        asset_id: bytes32(7),
    }
}

#[test]
fn create_message_coin_signed_if_data_is_empty() {
    assert!(matches!(
        create_coin_message_input(given_a_message(vec![]), 0),
        fuel_tx::Input::MessageCoinSigned(_)
    ));
}

#[test]
fn create_message_data_signed_if_data_is_not_empty() {
    assert!(matches!(
        create_coin_message_input(given_a_message(vec![42]), 0),
        fuel_tx::Input::MessageDataSigned(_)
    ));
}

#[test]
fn create_message_coin_predicate_if_data_is_empty() {
    assert!(matches!(
        create_coin_message_predicate(given_a_message(vec![]), vec![], vec![]),
        fuel_tx::Input::MessageCoinPredicate(_)
    ));
}

#[test]
fn create_message_data_predicate_if_data_is_not_empty() {
    assert!(matches!(
        create_coin_message_predicate(given_a_message(vec![42]), vec![], vec![]),
        fuel_tx::Input::MessageDataPredicate(_)
    ));
}

#[test]
fn coin_input_carries_owner_amount_and_witness_index() {
    let native = create_coin_input(given_a_coin(5), 7);
    assert_eq!(native.witness_index(), Some(7));
    let owner = fuel_types::Address::try_from(bytes32(5).as_slice()).unwrap();
    assert_eq!(native.input_owner(), Some(&owner));
    assert_eq!(native.amount(), Some(1000));
    let utxo = native.utxo_id().unwrap();
    assert_eq!(utxo.output_index(), 3);
}

#[test]
fn coin_predicate_carries_code_and_data() {
    let native = create_coin_predicate(given_a_coin(5), bytes32(7), vec![1, 2, 3], vec![9, 9]);
    assert!(matches!(native, fuel_tx::Input::CoinPredicate(_)));
    assert_eq!(native.input_predicate(), Some([1u8, 2, 3].as_slice()));
    assert_eq!(native.input_predicate_data(), Some([9u8, 9].as_slice()));
}

#[test]
fn message_input_witness_index_is_kept() {
    let native = create_coin_message_input(given_a_message(vec![1]), 4);
    assert_eq!(native.witness_index(), Some(4));
}

#[test]
fn unresolved_bytes_substitute_their_own_offset() {
    let data = UnresolvedBytes {
        segments: vec![ByteSegment::Fixed(vec![1, 2]), ByteSegment::SelfOffset],
    };
    let resolved = data.resolve(0x0102);
    assert_eq!(resolved, vec![1, 2, 0, 0, 0, 0, 0, 0, 1, 2]);
}

#[test]
fn unresolved_bytes_fixed_ignore_the_offset() {
    let data = UnresolvedBytes::fixed(vec![5, 6, 7]);
    assert_eq!(data.resolve(0), vec![5, 6, 7]);
    assert_eq!(data.resolve(123456), vec![5, 6, 7]);
    assert_eq!(UnresolvedBytes::empty().resolve(99), Vec::<u8>::new());
}

#[test]
fn padded_len_rounds_up_to_words() {
    assert_eq!(padded_len(0), 0);
    assert_eq!(padded_len(1), 8);
    assert_eq!(padded_len(8), 8);
    assert_eq!(padded_len(9), 16);
    assert_eq!(padded_len(64), 64);
}

#[test]
fn policy_set_size_counts_present_policies() {
    let mut policies = PolicySet::new();
    assert_eq!(policies.size_dynamic(), 0);
    policies.set(PolicyKind::MaxFee, Some(10));
    policies.set(PolicyKind::GasPrice, Some(1));
    assert_eq!(policies.size_dynamic(), 16);
    policies.set(PolicyKind::MaxFee, None);
    assert_eq!(policies.size_dynamic(), 8);
    policies.set(PolicyKind::Maturity, Some(0));
    policies.set(PolicyKind::WitnessLimit, Some(100));
    assert_eq!(policies.size_dynamic(), 24);
}

#[test]
fn registry_maps_an_address_to_its_latest_key() {
    let mut registry = UnresolvedSignatures::new();
    let key1 = fuel_crypto::SecretKey::try_from(bytes32(1).as_slice()).unwrap();
    let key2 = fuel_crypto::SecretKey::try_from(bytes32(2).as_slice()).unwrap();
    registry.add(Bech32Address::new(bytes32(5)), key1);
    assert_eq!(registry.lookup(&Bech32Address::new(bytes32(5))), Some(0));
    assert_eq!(registry.lookup(&Bech32Address::new(bytes32(6))), None);
    registry.add(Bech32Address::new(bytes32(5)), key2);
    assert_eq!(registry.num_pending(), 1);
    assert_eq!(registry.num_keys(), 2);
    assert_eq!(registry.lookup(&Bech32Address::new(bytes32(5))), Some(1));
}

#[test]
fn input_sizes_match_the_canonical_encoding() {
    assert_eq!(create_coin_input(given_a_coin(5), 0).size(), 168);
    assert_eq!(create_coin_message_input(given_a_message(vec![]), 0).size(), 152);
    assert_eq!(create_coin_message_input(given_a_message(vec![1, 2, 3]), 0).size(), 152 + 8);
    assert_eq!(
        create_coin_predicate(given_a_coin(5), bytes32(7), vec![1, 2, 3], vec![9, 9]).size(),
        168 + 8 + 8
    );
    let registry = UnresolvedSignatures::new();
    let contract = TxInput::Contract {
        utxo_id: UtxoId { tx_id: bytes32(1), output_index: 0 },
        balance_root: bytes32(2),
        state_root: bytes32(3),
        tx_pointer: TxPointer { block_height: 4, tx_index: 5 },
        contract_id: bytes32(6),
    };
    let natives =
        tx_builders::resolver::resolve_fuel_inputs(vec![contract], 0, 0, &registry).unwrap();
    assert_eq!(natives[0].size(), 160);
}
