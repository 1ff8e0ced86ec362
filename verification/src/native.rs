//! The boundary to the chain's native transaction types.
//!
//! Everything the chain computes itself — the canonical input encodings, the
//! transaction digest, signing, the two helper instruction sequences — is
//! reached through the trusted items below.  Each result that is a pure
//! function of its arguments carries an uninterpreted name, so that callers'
//! contracts can pin results down exactly without restating the chain's
//! encoding.

use vstd::prelude::*;
use fuel_tx::field::Inputs;
use fuel_tx::field::ScriptGasLimit;
use fuel_tx::field::Witnesses;
use fuel_tx::Chargeable;
use fuel_tx::UniqueIdentifier;

verus! {

#[verifier::external_type_specification]
#[verifier::external_body]
pub struct ExFuelInput(fuel_tx::Input);

#[verifier::external_type_specification]
#[verifier::external_body]
pub struct ExFuelOutput(fuel_tx::Output);

#[verifier::external_type_specification]
#[verifier::external_body]
pub struct ExFuelWitness(fuel_tx::Witness);

/// The chain's native script transaction.  Its alias unfolds to a generic
/// type whose trait bound is not publicly nameable, so the value is held
/// opaquely here; every operation on it goes through the wrappers below.
#[verifier::external_body]
pub struct NativeScript {
    inner: fuel_tx::Script,
}

/// The chain's native deployment transaction, held opaquely for the same
/// reason as [`NativeScript`].
#[verifier::external_body]
pub struct NativeCreate {
    inner: fuel_tx::Create,
}

#[verifier::external_type_specification]
#[verifier::external_body]
pub struct ExFuelTransaction(fuel_tx::Transaction);

#[verifier::external_type_specification]
#[verifier::external_body]
pub struct ExFuelStorageSlot(fuel_tx::StorageSlot);

#[verifier::external_type_specification]
#[verifier::external_body]
pub struct ExFuelPolicies(fuel_tx::policies::Policies);

#[verifier::external_type_specification]
#[verifier::external_body]
pub struct ExFuelConsensusParameters(fuel_tx::ConsensusParameters);

#[verifier::external_type_specification]
#[verifier::external_body]
pub struct ExFuelSecretKey(fuel_crypto::SecretKey);

// Names for the native values the chain's own code computes.  Each is a
// pure function of its arguments, as the crate sources show.
pub uninterp spec fn coin_signed_input(
    utxo_tx_id: Seq<u8>,
    output_index: u16,
    owner: Seq<u8>,
    amount: u64,
    asset_id: Seq<u8>,
    witness_index: u16,
) -> fuel_tx::Input;

pub uninterp spec fn coin_predicate_input(
    utxo_tx_id: Seq<u8>,
    output_index: u16,
    owner: Seq<u8>,
    amount: u64,
    asset_id: Seq<u8>,
    code: Seq<u8>,
    predicate_data: Seq<u8>,
) -> fuel_tx::Input;

pub uninterp spec fn contract_input(
    utxo_tx_id: Seq<u8>,
    output_index: u16,
    balance_root: Seq<u8>,
    state_root: Seq<u8>,
    tx_pointer_block: u32,
    tx_pointer_index: u16,
    contract_id: Seq<u8>,
) -> fuel_tx::Input;

pub uninterp spec fn message_coin_signed_input(
    sender: Seq<u8>,
    recipient: Seq<u8>,
    amount: u64,
    nonce: Seq<u8>,
    witness_index: u16,
) -> fuel_tx::Input;

pub uninterp spec fn message_data_signed_input(
    sender: Seq<u8>,
    recipient: Seq<u8>,
    amount: u64,
    nonce: Seq<u8>,
    witness_index: u16,
    data: Seq<u8>,
) -> fuel_tx::Input;

pub uninterp spec fn message_coin_predicate_input(
    sender: Seq<u8>,
    recipient: Seq<u8>,
    amount: u64,
    nonce: Seq<u8>,
    code: Seq<u8>,
    predicate_data: Seq<u8>,
) -> fuel_tx::Input;

pub uninterp spec fn message_data_predicate_input(
    sender: Seq<u8>,
    recipient: Seq<u8>,
    amount: u64,
    nonce: Seq<u8>,
    data: Seq<u8>,
    code: Seq<u8>,
    predicate_data: Seq<u8>,
) -> fuel_tx::Input;

pub uninterp spec fn change_output(to: Seq<u8>, amount: u64, asset_id: Seq<u8>) -> fuel_tx::Output;

pub uninterp spec fn contract_created_output(
    contract_id: Seq<u8>,
    state_root: Seq<u8>,
) -> fuel_tx::Output;

pub uninterp spec fn witness_of(bytes: Seq<u8>) -> fuel_tx::Witness;

pub uninterp spec fn storage_slot_of(key: Seq<u8>, value: Seq<u8>) -> fuel_tx::StorageSlot;

pub uninterp spec fn policies_of(
    gas_price: Option<u64>,
    witness_limit: Option<u64>,
    maturity: Option<u64>,
    max_fee: Option<u64>,
) -> fuel_tx::policies::Policies;

pub uninterp spec fn script_of(
    gas_limit: u64,
    script: Seq<u8>,
    script_data: Seq<u8>,
    policies: fuel_tx::policies::Policies,
    inputs: Seq<fuel_tx::Input>,
    outputs: Seq<fuel_tx::Output>,
    witnesses: Seq<fuel_tx::Witness>,
) -> NativeScript;

pub uninterp spec fn create_of(
    bytecode_witness_index: u16,
    policies: fuel_tx::policies::Policies,
    salt: Seq<u8>,
    storage_slots: Seq<fuel_tx::StorageSlot>,
    inputs: Seq<fuel_tx::Input>,
    outputs: Seq<fuel_tx::Output>,
    witnesses: Seq<fuel_tx::Witness>,
) -> NativeCreate;

pub uninterp spec fn script_with_gas_limit(
    tx: NativeScript,
    gas_limit: u64,
) -> NativeScript;

pub uninterp spec fn script_with_witnesses(
    tx: NativeScript,
    witnesses: Seq<fuel_tx::Witness>,
) -> NativeScript;

pub uninterp spec fn script_with_input_appended(
    tx: NativeScript,
    input: fuel_tx::Input,
) -> NativeScript;

pub uninterp spec fn create_with_witnesses_appended(
    tx: NativeCreate,
    extra: Seq<fuel_tx::Witness>,
) -> NativeCreate;

pub uninterp spec fn script_id_of(tx: NativeScript, chain_id: u64) -> Seq<u8>;

pub uninterp spec fn create_id_of(tx: NativeCreate, chain_id: u64) -> Seq<u8>;

pub uninterp spec fn script_max_gas_of(
    tx: NativeScript,
    cp: fuel_tx::ConsensusParameters,
) -> u64;

pub uninterp spec fn transaction_of_script(tx: NativeScript) -> fuel_tx::Transaction;

pub uninterp spec fn transaction_of_create(tx: NativeCreate) -> fuel_tx::Transaction;

pub uninterp spec fn signature_bytes_of(key: fuel_crypto::SecretKey, digest: Seq<u8>) -> Seq<u8>;

pub uninterp spec fn chain_id_of(cp: fuel_tx::ConsensusParameters) -> u64;

pub uninterp spec fn max_gas_per_tx_of(cp: fuel_tx::ConsensusParameters) -> u64;

pub uninterp spec fn tx_offset_of(cp: fuel_tx::ConsensusParameters) -> u64;

pub uninterp spec fn gtf_script_data_bytes(ra: u8, rb: u8) -> Seq<u8>;

pub uninterp spec fn addi_bytes(ra: u8, rb: u8, imm: u16) -> Seq<u8>;

pub uninterp spec fn lw_bytes(ra: u8, rb: u8, imm: u16) -> Seq<u8>;

pub uninterp spec fn tr_bytes(ra: u8, rb: u8, rc: u8) -> Seq<u8>;

pub uninterp spec fn smo_bytes(ra: u8, rb: u8, rc: u8, rd: u8) -> Seq<u8>;

pub uninterp spec fn ret_bytes(ra: u8) -> Seq<u8>;

/// Relies on fuel_tx::Input::coin_signed: the canonical signed-coin input,
/// with a default transaction pointer.
#[verifier::external_body]
pub(crate) fn fuel_coin_signed(
    utxo_tx_id: &Vec<u8>,
    output_index: u16,
    owner: &Vec<u8>,
    amount: u64,
    asset_id: &Vec<u8>,
    witness_index: u16,
) -> (r: fuel_tx::Input)
    requires
        utxo_tx_id@.len() == 32,
        owner@.len() == 32,
        asset_id@.len() == 32,
    ensures
        r == coin_signed_input(utxo_tx_id@, output_index, owner@, amount, asset_id@,
            witness_index),
{
    fuel_tx::Input::coin_signed(
        fuel_tx::UtxoId::new(
            fuel_types::Bytes32::try_from(utxo_tx_id.as_slice()).unwrap(),
            output_index,
        ),
        fuel_types::Address::try_from(owner.as_slice()).unwrap(),
        amount,
        fuel_types::AssetId::try_from(asset_id.as_slice()).unwrap(),
        fuel_tx::TxPointer::default(),
        witness_index,
    )
}

/// Relies on fuel_tx::Input::coin_predicate: the canonical predicate-gated
/// coin input, with a default transaction pointer and zero predicate gas.
#[verifier::external_body]
pub(crate) fn fuel_coin_predicate(
    utxo_tx_id: &Vec<u8>,
    output_index: u16,
    owner: &Vec<u8>,
    amount: u64,
    asset_id: &Vec<u8>,
    code: Vec<u8>,
    predicate_data: Vec<u8>,
) -> (r: fuel_tx::Input)
    requires
        utxo_tx_id@.len() == 32,
        owner@.len() == 32,
        asset_id@.len() == 32,
    ensures
        r == coin_predicate_input(utxo_tx_id@, output_index, owner@, amount, asset_id@, code@,
            predicate_data@),
{
    fuel_tx::Input::coin_predicate(
        fuel_tx::UtxoId::new(
            fuel_types::Bytes32::try_from(utxo_tx_id.as_slice()).unwrap(),
            output_index,
        ),
        fuel_types::Address::try_from(owner.as_slice()).unwrap(),
        amount,
        fuel_types::AssetId::try_from(asset_id.as_slice()).unwrap(),
        fuel_tx::TxPointer::default(),
        0,
        code,
        predicate_data,
    )
}

/// Relies on fuel_tx::Input::contract: the canonical contract input.
#[verifier::external_body]
pub(crate) fn fuel_contract_input(
    utxo_tx_id: &Vec<u8>,
    output_index: u16,
    balance_root: &Vec<u8>,
    state_root: &Vec<u8>,
    tx_pointer_block: u32,
    tx_pointer_index: u16,
    contract_id: &Vec<u8>,
) -> (r: fuel_tx::Input)
    requires
        utxo_tx_id@.len() == 32,
        balance_root@.len() == 32,
        state_root@.len() == 32,
        contract_id@.len() == 32,
    ensures
        r == contract_input(utxo_tx_id@, output_index, balance_root@, state_root@,
            tx_pointer_block, tx_pointer_index, contract_id@),
{
    fuel_tx::Input::contract(
        fuel_tx::UtxoId::new(
            fuel_types::Bytes32::try_from(utxo_tx_id.as_slice()).unwrap(),
            output_index,
        ),
        fuel_types::Bytes32::try_from(balance_root.as_slice()).unwrap(),
        fuel_types::Bytes32::try_from(state_root.as_slice()).unwrap(),
        fuel_tx::TxPointer::new(tx_pointer_block.into(), tx_pointer_index),
        fuel_types::ContractId::try_from(contract_id.as_slice()).unwrap(),
    )
}

/// Relies on fuel_tx::Input::message_coin_signed: the coin-like signed
/// message input, selected when the message carries no payload.
#[verifier::external_body]
pub(crate) fn fuel_message_coin_signed(
    sender: &Vec<u8>,
    recipient: &Vec<u8>,
    amount: u64,
    nonce: &Vec<u8>,
    witness_index: u16,
) -> (r: fuel_tx::Input)
    requires
        sender@.len() == 32,
        recipient@.len() == 32,
        nonce@.len() == 32,
    ensures
        r == message_coin_signed_input(sender@, recipient@, amount, nonce@, witness_index),
{
    fuel_tx::Input::message_coin_signed(
        fuel_types::Address::try_from(sender.as_slice()).unwrap(),
        fuel_types::Address::try_from(recipient.as_slice()).unwrap(),
        amount,
        fuel_types::Nonce::try_from(nonce.as_slice()).unwrap(),
        witness_index,
    )
}

/// Relies on fuel_tx::Input::message_data_signed: the data-bearing signed
/// message input.
#[verifier::external_body]
pub(crate) fn fuel_message_data_signed(
    sender: &Vec<u8>,
    recipient: &Vec<u8>,
    amount: u64,
    nonce: &Vec<u8>,
    witness_index: u16,
    data: Vec<u8>,
) -> (r: fuel_tx::Input)
    requires
        sender@.len() == 32,
        recipient@.len() == 32,
        nonce@.len() == 32,
    ensures
        r == message_data_signed_input(sender@, recipient@, amount, nonce@, witness_index, data@),
{
    fuel_tx::Input::message_data_signed(
        fuel_types::Address::try_from(sender.as_slice()).unwrap(),
        fuel_types::Address::try_from(recipient.as_slice()).unwrap(),
        amount,
        fuel_types::Nonce::try_from(nonce.as_slice()).unwrap(),
        witness_index,
        data,
    )
}

/// Relies on fuel_tx::Input::message_coin_predicate: the coin-like
/// predicate-gated message input, with zero predicate gas.
#[verifier::external_body]
pub(crate) fn fuel_message_coin_predicate(
    sender: &Vec<u8>,
    recipient: &Vec<u8>,
    amount: u64,
    nonce: &Vec<u8>,
    code: Vec<u8>,
    predicate_data: Vec<u8>,
) -> (r: fuel_tx::Input)
    requires
        sender@.len() == 32,
        recipient@.len() == 32,
        nonce@.len() == 32,
    ensures
        r == message_coin_predicate_input(sender@, recipient@, amount, nonce@, code@,
            predicate_data@),
{
    fuel_tx::Input::message_coin_predicate(
        fuel_types::Address::try_from(sender.as_slice()).unwrap(),
        fuel_types::Address::try_from(recipient.as_slice()).unwrap(),
        amount,
        fuel_types::Nonce::try_from(nonce.as_slice()).unwrap(),
        0,
        code,
        predicate_data,
    )
}

/// Relies on fuel_tx::Input::message_data_predicate: the data-bearing
/// predicate-gated message input, with zero predicate gas.
#[verifier::external_body]
pub(crate) fn fuel_message_data_predicate(
    sender: &Vec<u8>,
    recipient: &Vec<u8>,
    amount: u64,
    nonce: &Vec<u8>,
    data: Vec<u8>,
    code: Vec<u8>,
    predicate_data: Vec<u8>,
) -> (r: fuel_tx::Input)
    requires
        sender@.len() == 32,
        recipient@.len() == 32,
        nonce@.len() == 32,
    ensures
        r == message_data_predicate_input(sender@, recipient@, amount, nonce@, data@, code@,
            predicate_data@),
{
    fuel_tx::Input::message_data_predicate(
        fuel_types::Address::try_from(sender.as_slice()).unwrap(),
        fuel_types::Address::try_from(recipient.as_slice()).unwrap(),
        amount,
        fuel_types::Nonce::try_from(nonce.as_slice()).unwrap(),
        0,
        data,
        code,
        predicate_data,
    )
}

/// Relies on fuel_tx::Output::change: the change output.
#[verifier::external_body]
pub(crate) fn fuel_change_output(to: &Vec<u8>, amount: u64, asset_id: &Vec<u8>) -> (r:
    fuel_tx::Output)
    requires
        to@.len() == 32,
        asset_id@.len() == 32,
    ensures
        r == change_output(to@, amount, asset_id@),
{
    fuel_tx::Output::change(
        fuel_types::Address::try_from(to.as_slice()).unwrap(),
        amount,
        fuel_types::AssetId::try_from(asset_id.as_slice()).unwrap(),
    )
}

/// Relies on fuel_tx::Output::contract_created: the contract-creation
/// output.
#[verifier::external_body]
pub(crate) fn fuel_contract_created_output(contract_id: &Vec<u8>, state_root: &Vec<u8>) -> (r:
    fuel_tx::Output)
    requires
        contract_id@.len() == 32,
        state_root@.len() == 32,
    ensures
        r == contract_created_output(contract_id@, state_root@),
{
    fuel_tx::Output::contract_created(
        fuel_types::ContractId::try_from(contract_id.as_slice()).unwrap(),
        fuel_types::Bytes32::try_from(state_root.as_slice()).unwrap(),
    )
}

/// Relies on fuel_tx::Witness::from for byte vectors.
#[verifier::external_body]
pub(crate) fn fuel_witness(bytes: Vec<u8>) -> (r: fuel_tx::Witness)
    ensures
        r == witness_of(bytes@),
{
    fuel_tx::Witness::from(bytes)
}

/// Relies on fuel_tx::StorageSlot::new.
#[verifier::external_body]
pub(crate) fn fuel_storage_slot(key: &Vec<u8>, value: &Vec<u8>) -> (r: fuel_tx::StorageSlot)
    requires
        key@.len() == 32,
        value@.len() == 32,
    ensures
        r == storage_slot_of(key@, value@),
{
    fuel_tx::StorageSlot::new(
        fuel_types::Bytes32::try_from(key.as_slice()).unwrap(),
        fuel_types::Bytes32::try_from(value.as_slice()).unwrap(),
    )
}

/// Relies on fuel_tx::policies::Policies::new and ::set.  The gas-price
/// value is stored in the wire format's tip slot, the slot that holds the
/// price-related policy.
#[verifier::external_body]
pub(crate) fn fuel_policies(
    gas_price: Option<u64>,
    witness_limit: Option<u64>,
    maturity: Option<u64>,
    max_fee: Option<u64>,
) -> (r: fuel_tx::policies::Policies)
    ensures
        r == policies_of(gas_price, witness_limit, maturity, max_fee),
{
    let mut p = fuel_tx::policies::Policies::new();
    p.set(fuel_tx::policies::PolicyType::Tip, gas_price);
    p.set(fuel_tx::policies::PolicyType::WitnessLimit, witness_limit);
    p.set(fuel_tx::policies::PolicyType::Maturity, maturity);
    p.set(fuel_tx::policies::PolicyType::MaxFee, max_fee);
    p
}

/// Relies on fuel_tx::Transaction::script: assembles the native script
/// transaction from its parts.
#[verifier::external_body]
pub(crate) fn fuel_script(
    gas_limit: u64,
    script: Vec<u8>,
    script_data: Vec<u8>,
    policies: fuel_tx::policies::Policies,
    inputs: Vec<fuel_tx::Input>,
    outputs: Vec<fuel_tx::Output>,
    witnesses: Vec<fuel_tx::Witness>,
) -> (r: NativeScript)
    ensures
        r == script_of(gas_limit, script@, script_data@, policies, inputs@, outputs@, witnesses@),
{
    NativeScript {
        inner: fuel_tx::Transaction::script(gas_limit, script, script_data, policies, inputs,
            outputs, witnesses),
    }
}

/// Relies on fuel_tx::Transaction::create: assembles the native deployment
/// transaction from its parts.
#[verifier::external_body]
pub(crate) fn fuel_create(
    bytecode_witness_index: u16,
    policies: fuel_tx::policies::Policies,
    salt: &Vec<u8>,
    storage_slots: Vec<fuel_tx::StorageSlot>,
    inputs: Vec<fuel_tx::Input>,
    outputs: Vec<fuel_tx::Output>,
    witnesses: Vec<fuel_tx::Witness>,
) -> (r: NativeCreate)
    requires
        salt@.len() == 32,
    ensures
        r == create_of(bytecode_witness_index, policies, salt@, storage_slots@, inputs@, outputs@,
            witnesses@),
{
    NativeCreate {
        inner: fuel_tx::Transaction::create(
            bytecode_witness_index,
            policies,
            fuel_types::Salt::try_from(salt.as_slice()).unwrap(),
            storage_slots,
            inputs,
            outputs,
            witnesses,
        ),
    }
}

/// Relies on the ScriptGasLimit field accessor of fuel_tx::Script.
#[verifier::external_body]
pub(crate) fn fuel_script_set_gas_limit(tx: &mut NativeScript, gas_limit: u64)
    ensures
        *final(tx) == script_with_gas_limit(*old(tx), gas_limit),
{
    *tx.inner.script_gas_limit_mut() = gas_limit;
}

/// Relies on the Witnesses field accessor of fuel_tx::Script: replaces the
/// witness list.
#[verifier::external_body]
pub(crate) fn fuel_script_set_witnesses(tx: &mut NativeScript, witnesses: Vec<fuel_tx::Witness>)
    ensures
        *final(tx) == script_with_witnesses(*old(tx), witnesses@),
{
    *tx.inner.witnesses_mut() = witnesses;
}

/// Relies on the Inputs field accessor of fuel_tx::Script: appends one
/// input.  Used only to attach the synthetic funding input of a dry run.
#[verifier::external_body]
pub(crate) fn fuel_script_push_input(tx: &mut NativeScript, input: fuel_tx::Input)
    ensures
        *final(tx) == script_with_input_appended(*old(tx), input),
{
    tx.inner.inputs_mut().push(input);
}

/// Relies on the Witnesses field accessor of fuel_tx::Create: appends the
/// given witnesses after the existing ones.
#[verifier::external_body]
pub(crate) fn fuel_create_extend_witnesses(
    tx: &mut NativeCreate,
    extra: Vec<fuel_tx::Witness>,
)
    ensures
        *final(tx) == create_with_witnesses_appended(*old(tx), extra@),
{
    tx.inner.witnesses_mut().extend(extra);
}

/// Relies on the derived Clone of fuel_tx::Script: a deep copy equal to the
/// original.
#[verifier::external_body]
pub(crate) fn fuel_script_clone(tx: &NativeScript) -> (r: NativeScript)
    ensures
        r == *tx,
{
    NativeScript { inner: tx.inner.clone() }
}

/// Relies on UniqueIdentifier::id for fuel_tx::Script: the 32-byte
/// transaction digest under the given chain identifier.
#[verifier::external_body]
pub(crate) fn fuel_script_id(tx: &NativeScript, chain_id: u64) -> (r: Vec<u8>)
    ensures
        r@ == script_id_of(*tx, chain_id),
        r@.len() == 32,
{
    let id = tx.inner.id(&fuel_types::ChainId::new(chain_id));
    id.as_ref().to_vec()
}

/// Relies on UniqueIdentifier::id for fuel_tx::Create: the 32-byte
/// transaction digest under the given chain identifier.
#[verifier::external_body]
pub(crate) fn fuel_create_id(tx: &NativeCreate, chain_id: u64) -> (r: Vec<u8>)
    ensures
        r@ == create_id_of(*tx, chain_id),
        r@.len() == 32,
{
    let id = tx.inner.id(&fuel_types::ChainId::new(chain_id));
    id.as_ref().to_vec()
}

/// Relies on Chargeable::max_gas for fuel_tx::Script: the transaction's
/// non-execution gas overhead under the given consensus parameters.
#[verifier::external_body]
pub(crate) fn fuel_script_max_gas(tx: &NativeScript, cp: &fuel_tx::ConsensusParameters) -> (r:
    u64)
    ensures
        r == script_max_gas_of(*tx, *cp),
{
    tx.inner.max_gas(cp.gas_costs(), cp.fee_params())
}

/// Relies on the From conversion of fuel_tx::Script into the transaction
/// enum.
#[verifier::external_body]
pub(crate) fn fuel_script_into_transaction(tx: NativeScript) -> (r: fuel_tx::Transaction)
    ensures
        r == transaction_of_script(tx),
{
    tx.inner.into()
}

/// Relies on the From conversion of fuel_tx::Create into the transaction
/// enum.
#[verifier::external_body]
pub(crate) fn fuel_create_into_transaction(tx: NativeCreate) -> (r: fuel_tx::Transaction)
    ensures
        r == transaction_of_create(tx),
{
    tx.inner.into()
}

/// Relies on fuel_crypto::Signature::sign, which signs deterministically,
/// and fuel_crypto::Message::from_bytes: the 64-byte signature of the given
/// 32-byte digest.
#[verifier::external_body]
pub(crate) fn fuel_sign_digest(key: &fuel_crypto::SecretKey, digest: &Vec<u8>) -> (r: Vec<u8>)
    requires
        digest@.len() == 32,
    ensures
        r@ == signature_bytes_of(*key, digest@),
        r@.len() == 64,
{
    let message = fuel_crypto::Message::from_bytes(digest.as_slice().try_into().unwrap());
    let signature = fuel_crypto::Signature::sign(key, &message);
    signature.as_ref().to_vec()
}

/// Relies on ConsensusParameters::chain_id.
#[verifier::external_body]
pub(crate) fn fuel_chain_id(cp: &fuel_tx::ConsensusParameters) -> (r: u64)
    ensures
        r == chain_id_of(*cp),
{
    *cp.chain_id()
}

/// Relies on ConsensusParameters::tx_params: the maximum gas one
/// transaction may use.
#[verifier::external_body]
pub(crate) fn fuel_max_gas_per_tx(cp: &fuel_tx::ConsensusParameters) -> (r: u64)
    ensures
        r == max_gas_per_tx_of(*cp),
{
    cp.tx_params().max_gas_per_tx()
}

/// Relies on TxParameters::tx_offset: the transaction's memory offset in
/// the virtual machine, where the serialized transaction starts.
#[verifier::external_body]
pub(crate) fn fuel_tx_offset(cp: &fuel_tx::ConsensusParameters) -> (r: u64)
    ensures
        r == tx_offset_of(*cp),
{
    cp.tx_params().tx_offset() as u64
}

/// Relies on fuel_asm::op::gtf with the script-data field selector: one
/// 4-byte instruction.
#[verifier::external_body]
pub(crate) fn fuel_op_gtf_script_data(ra: u8, rb: u8) -> (r: Vec<u8>)
    requires
        ra < 64,
        rb < 64,
    ensures
        r@ == gtf_script_data_bytes(ra, rb),
        r@.len() == 4,
{
    fuel_asm::op::gtf(ra, rb, fuel_asm::GTFArgs::ScriptData.into()).to_bytes().to_vec()
}

/// Relies on fuel_asm::op::addi: one 4-byte instruction.
#[verifier::external_body]
pub(crate) fn fuel_op_addi(ra: u8, rb: u8, imm: u16) -> (r: Vec<u8>)
    requires
        ra < 64,
        rb < 64,
        imm < 4096,
    ensures
        r@ == addi_bytes(ra, rb, imm),
        r@.len() == 4,
{
    fuel_asm::op::addi(ra, rb, imm).to_bytes().to_vec()
}

/// Relies on fuel_asm::op::lw: one 4-byte instruction.
#[verifier::external_body]
pub(crate) fn fuel_op_lw(ra: u8, rb: u8, imm: u16) -> (r: Vec<u8>)
    requires
        ra < 64,
        rb < 64,
        imm < 4096,
    ensures
        r@ == lw_bytes(ra, rb, imm),
        r@.len() == 4,
{
    fuel_asm::op::lw(ra, rb, imm).to_bytes().to_vec()
}

/// Relies on fuel_asm::op::tr: one 4-byte instruction.
#[verifier::external_body]
pub(crate) fn fuel_op_tr(ra: u8, rb: u8, rc: u8) -> (r: Vec<u8>)
    requires
        ra < 64,
        rb < 64,
        rc < 64,
    ensures
        r@ == tr_bytes(ra, rb, rc),
        r@.len() == 4,
{
    fuel_asm::op::tr(ra, rb, rc).to_bytes().to_vec()
}

/// Relies on fuel_asm::op::smo: one 4-byte instruction.
#[verifier::external_body]
pub(crate) fn fuel_op_smo(ra: u8, rb: u8, rc: u8, rd: u8) -> (r: Vec<u8>)
    requires
        ra < 64,
        rb < 64,
        rc < 64,
        rd < 64,
    ensures
        r@ == smo_bytes(ra, rb, rc, rd),
        r@.len() == 4,
{
    fuel_asm::op::smo(ra, rb, rc, rd).to_bytes().to_vec()
}

/// Relies on fuel_asm::op::ret: one 4-byte instruction.
#[verifier::external_body]
pub(crate) fn fuel_op_ret(ra: u8) -> (r: Vec<u8>)
    requires
        ra < 64,
    ensures
        r@ == ret_bytes(ra),
        r@.len() == 4,
{
    fuel_asm::op::ret(ra).to_bytes().to_vec()
}

} // verus!
