use fuel_tx::field::Inputs;
use fuel_tx::field::ScriptGasLimit;
use fuel_tx::field::Witnesses;
use fuel_types::canonical::Serialize;
use tx_builders::create_builder::{CreateTransactionBuilder, StorageEntry};
use tx_builders::errors::BuildError;
use tx_builders::inputs::{Bech32Address, Coin, CoinType, TxInput, UnresolvedBytes, UtxoId};
use tx_builders::policies::TxPolicies;
use tx_builders::script_builder::{DryRunner, NetworkInfo, ScriptTransactionBuilder};

fn bytes32(first: u8) -> Vec<u8> {
    let mut b = vec![0u8; 32];
    b[0] = first;
    b
}

fn network_info() -> NetworkInfo {
    NetworkInfo::new(fuel_tx::ConsensusParameters::default(), 0)
}

fn secret_key(first: u8) -> fuel_crypto::SecretKey {
    fuel_crypto::SecretKey::try_from(bytes32(first).as_slice()).unwrap()
}

fn signed_coin(owner_first: u8, index: u16) -> TxInput {
    TxInput::ResourceSigned {
        resource: CoinType::Coin(Coin {
            utxo_id: UtxoId { tx_id: bytes32(1), output_index: index },
            owner: Bech32Address::new(bytes32(owner_first)),
            amount: 500,
            asset_id: bytes32(0),
        }),
    }
}

fn signed_message(recipient_first: u8) -> TxInput {
    TxInput::ResourceSigned {
        resource: CoinType::Message(tx_builders::inputs::Message {
            sender: Bech32Address::new(bytes32(8)),
            recipient: Bech32Address::new(bytes32(recipient_first)),
            nonce: bytes32(0),
            amount: 100,
            data: vec![],
        }),
    }
}

struct FixedGasRunner(u64);

impl DryRunner for FixedGasRunner {
    fn dry_run_and_get_used_gas(
        &self,
        _tx: fuel_tx::Transaction,
        _tolerance: u32,
    ) -> Result<u64, BuildError> {
        Ok(self.0)
    }
}

struct PanickingRunner;

impl DryRunner for PanickingRunner {
    fn dry_run_and_get_used_gas(
        &self,
        _tx: fuel_tx::Transaction,
        _tolerance: u32,
    ) -> Result<u64, BuildError> {
        panic!("the estimator must not be consulted");
    }
}

struct FailingRunner;

impl DryRunner for FailingRunner {
    fn dry_run_and_get_used_gas(
        &self,
        _tx: fuel_tx::Transaction,
        _tolerance: u32,
    ) -> Result<u64, BuildError> {
        Err(BuildError::DryRunFailed)
    }
}

fn given_a_storage_slot(key: u8) -> StorageEntry {
    StorageEntry { key: bytes32(key), value: bytes32(0) }
}

#[test]
fn storage_slots_are_sorted_when_set() {
    let unsorted_storage_slots = vec![given_a_storage_slot(2), given_a_storage_slot(1)];
    let sorted_storage_slots = vec![given_a_storage_slot(1), given_a_storage_slot(2)];

    let builder =
        CreateTransactionBuilder::new(network_info()).with_storage_slots(unsorted_storage_slots);

    assert_eq!(builder.storage_slots, sorted_storage_slots);
}

#[test]
fn explicit_gas_limit_bypasses_the_estimator() {
    let builder = ScriptTransactionBuilder::new(network_info())
        .with_script(vec![1, 2, 3, 4])
        .with_gas_limit(1234);
    let tx = builder.build(&PanickingRunner).unwrap();
    let native = tx.into_fuel_transaction();
    let script = native.as_script().unwrap();
    assert_eq!(*script.script_gas_limit(), 1234);
}

#[test]
fn empty_script_means_zero_gas_limit() {
    let builder = ScriptTransactionBuilder::new(network_info()).with_gas_limit(777);
    let tx = builder.build(&PanickingRunner).unwrap();
    let native = tx.into_fuel_transaction();
    let script = native.as_script().unwrap();
    assert_eq!(*script.script_gas_limit(), 0);
}

#[test]
fn estimated_gas_becomes_the_limit_and_no_funding_input_remains() {
    let builder = ScriptTransactionBuilder::new(network_info()).with_script(vec![1, 2, 3, 4]);
    let tx = builder.build(&FixedGasRunner(4242)).unwrap();
    let native = tx.into_fuel_transaction();
    let script = native.as_script().unwrap();
    assert_eq!(*script.script_gas_limit(), 4242);
    assert_eq!(script.inputs().len(), 0);
}

#[test]
fn dry_run_failure_aborts_the_build() {
    let builder = ScriptTransactionBuilder::new(network_info()).with_script(vec![1, 2, 3, 4]);
    let result = builder.build(&FailingRunner);
    assert_eq!(result.err().unwrap(), BuildError::DryRunFailed);
}

#[test]
fn witness_limit_allows_exactly_256_slots() {
    let mut builder = ScriptTransactionBuilder::new(network_info());
    let mut i: u16 = 0;
    while i < 256 {
        let mut addr = vec![0u8; 32];
        addr[0] = (i % 256) as u8;
        addr[1] = (i / 256) as u8;
        builder.add_unresolved_signature(Bech32Address::new(addr), secret_key((i % 250 + 1) as u8));
        i += 1;
    }
    let ok = builder.build(&PanickingRunner);
    assert!(ok.is_ok());
}

#[test]
fn witness_limit_rejects_257_slots() {
    let mut builder = ScriptTransactionBuilder::new(network_info());
    let mut i: u16 = 0;
    while i < 257 {
        let mut addr = vec![0u8; 32];
        addr[0] = (i % 256) as u8;
        addr[1] = (i / 256) as u8;
        builder.add_unresolved_signature(Bech32Address::new(addr), secret_key((i % 250 + 1) as u8));
        i += 1;
    }
    let result = builder.build(&PanickingRunner);
    assert_eq!(result.err().unwrap(), BuildError::TooManyWitnesses);
}

#[test]
fn missing_signature_fails_for_a_coin() {
    let builder = ScriptTransactionBuilder::new(network_info())
        .with_inputs(vec![signed_coin(5, 0)])
        .with_gas_limit(0);
    let result = builder.build(&PanickingRunner);
    assert_eq!(result.err().unwrap(), BuildError::MissingSignature);
}

#[test]
fn missing_signature_fails_for_a_message() {
    let builder = ScriptTransactionBuilder::new(network_info())
        .with_inputs(vec![signed_message(5)])
        .with_gas_limit(0);
    let result = builder.build(&PanickingRunner);
    assert_eq!(result.err().unwrap(), BuildError::MissingSignature);
}

#[test]
fn witness_indices_follow_the_registry() {
    let mut builder = ScriptTransactionBuilder::new(network_info())
        .with_inputs(vec![signed_coin(5, 0), signed_coin(6, 1), signed_coin(5, 2)])
        .with_witnesses(vec![vec![0xAA]])
        .with_gas_limit(10);
    builder.add_unresolved_signature(Bech32Address::new(bytes32(5)), secret_key(1));
    builder.add_unresolved_signature(Bech32Address::new(bytes32(6)), secret_key(2));
    let tx = builder.build(&PanickingRunner).unwrap();
    let native = tx.into_fuel_transaction();
    let script = native.as_script().unwrap();
    let indices: Vec<Option<u16>> = script.inputs().iter().map(|i| i.witness_index()).collect();
    assert_eq!(indices, vec![Some(1), Some(2), Some(1)]);
}

#[test]
fn generated_witnesses_are_signatures_after_the_explicit_ones() {
    let mut builder = ScriptTransactionBuilder::new(network_info())
        .with_inputs(vec![signed_coin(5, 0)])
        .with_witnesses(vec![vec![0xAA, 0xBB]])
        .with_gas_limit(10);
    builder.add_unresolved_signature(Bech32Address::new(bytes32(5)), secret_key(1));
    let tx = builder.build(&PanickingRunner).unwrap();
    let native = tx.into_fuel_transaction();
    let script = native.as_script().unwrap();
    assert_eq!(script.witnesses().len(), 2);
    assert_eq!(script.witnesses()[0].as_ref(), &[0xAA, 0xBB]);
    assert_eq!(script.witnesses()[1].as_ref().len(), 64);
}

#[test]
fn two_builds_from_the_same_description_are_byte_identical() {
    let make = || {
        let mut builder = ScriptTransactionBuilder::new(network_info())
            .with_script(vec![1, 2, 3, 4])
            .with_script_data(vec![9, 8, 7])
            .with_inputs(vec![signed_coin(5, 0)])
            .with_witnesses(vec![vec![0xAA]]);
        builder.add_unresolved_signature(Bech32Address::new(bytes32(5)), secret_key(1));
        builder
    };
    let tx1 = make().build(&FixedGasRunner(100)).unwrap();
    let tx2 = make().build(&FixedGasRunner(100)).unwrap();
    let native1 = tx1.into_fuel_transaction();
    let native2 = tx2.into_fuel_transaction();
    assert_eq!(native1.to_bytes(), native2.to_bytes());
}

#[test]
fn predicate_data_lands_at_its_computed_offset() {
    let code = vec![0u8; 12];
    let input = TxInput::ResourcePredicate {
        resource: CoinType::Coin(Coin {
            utxo_id: UtxoId { tx_id: bytes32(1), output_index: 0 },
            owner: Bech32Address::new(bytes32(5)),
            amount: 500,
            asset_id: bytes32(0),
        }),
        code,
        data: UnresolvedBytes {
            segments: vec![tx_builders::inputs::ByteSegment::SelfOffset],
        },
    };
    let info = network_info();
    let tx_offset = info.consensus_parameters.tx_params().tx_offset() as u64;
    let builder = ScriptTransactionBuilder::new(info).with_inputs(vec![input]).with_gas_limit(0);
    let tx = builder.build(&PanickingRunner).unwrap();
    assert!(tx.is_using_predicates);
    let native = tx.into_fuel_transaction();
    let script = native.as_script().unwrap();
    // Base offset: fixed script header with empty script and script data,
    // plus the three present policies, plus the predicate input's header
    // with 12 bytes of code padded to 16.
    let expected_offset = tx_offset + 96 + 24 + 168 + 16;
    let data = script.inputs()[0].input_predicate_data().unwrap();
    assert_eq!(data, expected_offset.to_be_bytes());
}

#[test]
fn contract_deployment_builds_with_sorted_slots_and_signatures() {
    let mut builder = CreateTransactionBuilder::prepare_contract_deployment(
        vec![0xDE, 0xAD],
        bytes32(3),
        bytes32(4),
        bytes32(5),
        vec![given_a_storage_slot(2), given_a_storage_slot(1)],
        TxPolicies::default(),
        network_info(),
    )
    .with_inputs(vec![signed_coin(5, 0)]);
    builder.add_unresolved_signature(Bech32Address::new(bytes32(5)), secret_key(1));
    let tx = builder.build().unwrap();
    assert!(!tx.is_using_predicates);
    let native = tx.into_fuel_transaction();
    let create = native.as_create().unwrap();
    assert_eq!(create.witnesses().len(), 2);
    assert_eq!(create.witnesses()[0].as_ref(), &[0xDE, 0xAD]);
    assert_eq!(create.witnesses()[1].as_ref().len(), 64);
    assert_eq!(create.inputs()[0].witness_index(), Some(1));
}

#[test]
fn contract_transfer_script_matches_the_known_instructions() {
    let builder = ScriptTransactionBuilder::prepare_contract_transfer(
        bytes32(3),
        77,
        bytes32(4),
        vec![],
        vec![],
        TxPolicies::default(),
        network_info(),
    );
    let expected_script: Vec<u8> = vec![
        fuel_asm::op::gtf(0x10, 0x00, fuel_asm::GTFArgs::ScriptData.into()),
        fuel_asm::op::addi(0x11, 0x10, 32),
        fuel_asm::op::lw(0x12, 0x11, 0),
        fuel_asm::op::addi(0x13, 0x11, 8),
        fuel_asm::op::tr(0x10, 0x12, 0x13),
        fuel_asm::op::ret(fuel_asm::RegId::ONE),
    ]
    .into_iter()
    .flat_map(|op| op.to_bytes())
    .collect();
    assert_eq!(builder.script, expected_script);
    let mut expected_data = bytes32(3);
    expected_data.extend_from_slice(&77u64.to_be_bytes());
    expected_data.extend_from_slice(&bytes32(4));
    assert_eq!(builder.script_data, expected_data);
}

#[test]
fn message_to_output_adds_a_change_output() {
    let builder = ScriptTransactionBuilder::prepare_message_to_output(
        bytes32(9),
        55,
        vec![],
        TxPolicies::default(),
        network_info(),
    );
    let expected_script: Vec<u8> = vec![
        fuel_asm::op::gtf(0x10, 0x00, fuel_asm::GTFArgs::ScriptData.into()),
        fuel_asm::op::addi(0x11, 0x10, 32),
        fuel_asm::op::lw(0x11, 0x11, 0),
        fuel_asm::op::smo(0x10, 0x00, 0x00, 0x11),
        fuel_asm::op::ret(fuel_asm::RegId::ONE),
    ]
    .into_iter()
    .flat_map(|op| op.to_bytes())
    .collect();
    assert_eq!(builder.script, expected_script);
    let mut expected_data = bytes32(9);
    expected_data.extend_from_slice(&55u64.to_be_bytes());
    assert_eq!(builder.script_data, expected_data);
    assert_eq!(builder.outputs.len(), 1);
    match &builder.outputs[0] {
        fuel_tx::Output::Change { to, amount, asset_id } => {
            assert_eq!(to.as_ref(), bytes32(9).as_slice());
            assert_eq!(*amount, 0);
            assert_eq!(asset_id.as_ref(), [0u8; 32].as_slice());
        }
        other => panic!("expected a change output, got {:?}", other),
    }
}

#[test]
fn create_build_rejects_missing_signature() {
    let builder =
        CreateTransactionBuilder::new(network_info()).with_inputs(vec![signed_coin(5, 0)]);
    let result = builder.build();
    assert_eq!(result.err().unwrap(), BuildError::MissingSignature);
}

#[test]
fn create_build_rejects_witness_overflow() {
    let mut builder = CreateTransactionBuilder::new(network_info())
        .with_witnesses((0..250).map(|i| vec![i as u8]).collect());
    let mut i: u16 = 0;
    while i < 7 {
        let mut addr = vec![0u8; 32];
        addr[0] = i as u8;
        builder.add_unresolved_signature(Bech32Address::new(addr), secret_key((i + 1) as u8));
        i += 1;
    }
    let result = builder.build();
    assert_eq!(result.err().unwrap(), BuildError::TooManyWitnesses);
}

#[test]
fn tx_policies_carry_the_explicit_gas_limit() {
    let policies = TxPolicies {
        gas_price: Some(3),
        witness_limit: Some(4000),
        maturity: 9,
        max_fee: Some(5000),
        script_gas_limit: Some(4321),
    };
    let builder = ScriptTransactionBuilder::new(network_info())
        .with_script(vec![1, 2, 3, 4])
        .with_tx_policies(policies);
    let tx = builder.build(&PanickingRunner).unwrap();
    let native = tx.into_fuel_transaction();
    let script = native.as_script().unwrap();
    assert_eq!(*script.script_gas_limit(), 4321);
}

#[test]
fn slots_with_equal_keys_are_ordered_by_value() {
    let builder = CreateTransactionBuilder::new(network_info()).with_storage_slots(vec![
        StorageEntry { key: bytes32(1), value: bytes32(2) },
        StorageEntry { key: bytes32(1), value: bytes32(1) },
    ]);
    assert_eq!(
        builder.storage_slots,
        vec![
            StorageEntry { key: bytes32(1), value: bytes32(1) },
            StorageEntry { key: bytes32(1), value: bytes32(2) },
        ]
    );
}

#[test]
fn message_with_payload_resolves_to_the_data_variant_in_a_build() {
    let mut message_input = signed_message(5);
    if let TxInput::ResourceSigned { resource: CoinType::Message(m) } = &mut message_input {
        m.data = vec![42];
    }
    let mut builder = ScriptTransactionBuilder::new(network_info())
        .with_inputs(vec![message_input])
        .with_gas_limit(1);
    builder.add_unresolved_signature(Bech32Address::new(bytes32(5)), secret_key(1));
    let tx = builder.build(&PanickingRunner).unwrap();
    let native = tx.into_fuel_transaction();
    let script = native.as_script().unwrap();
    assert!(matches!(script.inputs()[0], fuel_tx::Input::MessageDataSigned(_)));
}

#[test]
fn mutable_accessors_extend_the_description() {
    let mut builder = ScriptTransactionBuilder::new(network_info()).with_gas_limit(5);
    builder.witnesses_mut().push(vec![1, 2, 3]);
    builder.inputs_mut().push(signed_coin(5, 0));
    builder.add_unresolved_signature(Bech32Address::new(bytes32(5)), secret_key(1));
    let tx = builder.build(&PanickingRunner).unwrap();
    let native = tx.into_fuel_transaction();
    let script = native.as_script().unwrap();
    assert_eq!(script.witnesses().len(), 2);
    assert_eq!(script.inputs().len(), 1);
}
