//! Resolution of declarative inputs into the chain's native inputs.
//!
//! The resolver walks the input list in order, threading a running byte
//! offset.  Signed inputs receive a witness index computed from the explicit
//! witness count and the signature registry; predicate inputs have their
//! self-referential data resolved at the offset where it will live; contract
//! inputs pass through.  A signed input whose address has no registered key
//! aborts the whole resolution.

use vstd::prelude::*;
use crate::errors::BuildError;
use crate::inputs::{
    Coin, CoinType, CoinTypeV, Message, TxInput, TxInputV, UnresolvedBytes, coin_type_wf,
    coin_wf, input_wf, lemma_resolved_len, message_wf, spec_resolve_segments, spec_segments_len,
};
use crate::native::{
    coin_predicate_input, coin_signed_input, contract_input, fuel_coin_predicate,
    fuel_coin_signed, fuel_contract_input, fuel_message_coin_predicate, fuel_message_coin_signed,
    fuel_message_data_predicate, fuel_message_data_signed, message_coin_predicate_input,
    message_coin_signed_input, message_data_predicate_input, message_data_signed_input,
};
use crate::offsets::{
    INPUT_COIN_FIXED_SIZE, INPUT_CONTRACT_SIZE, INPUT_MESSAGE_FIXED_SIZE,
    lemma_padded_len_bounds, padded_len, spec_coin_predicate_header_size, spec_coin_signed_size,
    spec_contract_input_size, spec_message_predicate_header_size, spec_message_signed_size,
};
use crate::signatures::{
    UnresolvedSignatures, lemma_lookup_in_range, registry_wf, spec_lookup,
};

verus! {

/// The serialized size a declarative input contributes to the native
/// encoding; for predicate inputs this includes the resolved data.
pub open spec fn spec_input_size(i: TxInputV) -> int {
    match i {
        TxInputV::ResourceSigned { resource } => match resource {
            CoinTypeV::Coin(_) => spec_coin_signed_size(),
            CoinTypeV::Message(m) => spec_message_signed_size(m.data.len() as int),
        },
        TxInputV::ResourcePredicate { resource, code, data } => match resource {
            CoinTypeV::Coin(_) => spec_coin_predicate_header_size(code.len() as int)
                + spec_segments_len(data),
            CoinTypeV::Message(m) => spec_message_predicate_header_size(
                m.data.len() as int,
                code.len() as int,
            ) + spec_segments_len(data),
        },
        TxInputV::Contract { .. } => spec_contract_input_size(),
    }
}

pub proof fn lemma_input_size_positive(i: TxInputV)
    ensures
        spec_input_size(i) > 0,
{
    match i {
        TxInputV::ResourcePredicate { resource, code, data } => {
            lemma_resolved_len(data, 0);
            lemma_padded_len_bounds(code.len() as int);
            if resource is Message {
                let m = resource->Message_0;
                lemma_padded_len_bounds(m.data.len() as int);
            }
        }
        TxInputV::ResourceSigned { resource } => {
            if resource is Message {
                let m = resource->Message_0;
                lemma_padded_len_bounds(m.data.len() as int);
            }
        }
        _ => {}
    }
}

/// The address whose signature authorizes a signed input: the owner of a
/// coin, the recipient of a message.  Predicate and contract inputs carry
/// none.
pub open spec fn spec_signing_address(i: TxInputV) -> Option<Seq<u8>> {
    match i {
        TxInputV::ResourceSigned { resource } => match resource {
            CoinTypeV::Coin(c) => Some(c.owner),
            CoinTypeV::Message(m) => Some(m.recipient),
        },
        _ => None,
    }
}

/// The witness index assigned to a signed input: the explicit witness count
/// plus the registry index of the owning address.
pub open spec fn spec_witness_index(num_witnesses: u8, registry_index: u64) -> u16 {
    (num_witnesses + (registry_index as u8)) as u16
}

/// The witness index a signed input receives, or `None` for an input that
/// needs no signature or whose address is not registered.
pub open spec fn spec_assigned_witness_index(
    i: TxInputV,
    num_witnesses: u8,
    entries: Seq<(Seq<u8>, u64)>,
) -> Option<u16> {
    match spec_signing_address(i) {
        Some(a) => match spec_lookup(entries, a) {
            Some(k) => Some(spec_witness_index(num_witnesses, k)),
            None => None,
        },
        None => None,
    }
}

/// The native input a declarative input resolves to when the running offset
/// stands at `off` before it, or `None` when a needed signature is missing.
pub open spec fn spec_native_input(
    i: TxInputV,
    off: int,
    num_witnesses: u8,
    entries: Seq<(Seq<u8>, u64)>,
) -> Option<fuel_tx::Input> {
    match i {
        TxInputV::ResourceSigned { resource } => match spec_assigned_witness_index(
            i,
            num_witnesses,
            entries,
        ) {
            None => None,
            Some(wi) => Some(
                match resource {
                    CoinTypeV::Coin(c) => coin_signed_input(
                        c.utxo_id.tx_id,
                        c.utxo_id.output_index,
                        c.owner,
                        c.amount,
                        c.asset_id,
                        wi,
                    ),
                    CoinTypeV::Message(m) => if m.data.len() == 0 {
                        message_coin_signed_input(m.sender, m.recipient, m.amount, m.nonce, wi)
                    } else {
                        message_data_signed_input(
                            m.sender,
                            m.recipient,
                            m.amount,
                            m.nonce,
                            wi,
                            m.data,
                        )
                    },
                },
            ),
        },
        TxInputV::ResourcePredicate { resource, code, data } => Some(
            match resource {
                CoinTypeV::Coin(c) => coin_predicate_input(
                    c.utxo_id.tx_id,
                    c.utxo_id.output_index,
                    c.owner,
                    c.amount,
                    c.asset_id,
                    code,
                    spec_resolve_segments(
                        data,
                        (off + spec_coin_predicate_header_size(code.len() as int)) as u64,
                    ),
                ),
                CoinTypeV::Message(m) => {
                    let resolved = spec_resolve_segments(
                        data,
                        (off + spec_message_predicate_header_size(
                            m.data.len() as int,
                            code.len() as int,
                        )) as u64,
                    );
                    if m.data.len() == 0 {
                        message_coin_predicate_input(
                            m.sender,
                            m.recipient,
                            m.amount,
                            m.nonce,
                            code,
                            resolved,
                        )
                    } else {
                        message_data_predicate_input(
                            m.sender,
                            m.recipient,
                            m.amount,
                            m.nonce,
                            m.data,
                            code,
                            resolved,
                        )
                    }
                },
            },
        ),
        TxInputV::Contract { utxo_id, balance_root, state_root, tx_pointer, contract_id } => Some(
            contract_input(
                utxo_id.tx_id,
                utxo_id.output_index,
                balance_root,
                state_root,
                tx_pointer.block_height,
                tx_pointer.tx_index,
                contract_id,
            ),
        ),
    }
}

/// The running byte offset after the first `k` inputs, starting from `off`.
pub open spec fn spec_offset_through(inputs: Seq<TxInputV>, k: int, off: int) -> int
    decreases k,
{
    if k <= 0 {
        off
    } else {
        spec_offset_through(inputs, k - 1, off) + spec_input_size(inputs[k - 1])
    }
}

/// Offset monotonicity: the offset after resolving one more input is
/// strictly greater than the offset before it.
pub proof fn lemma_offset_monotonic(inputs: Seq<TxInputV>, k: int, off: int)
    requires
        0 <= k < inputs.len(),
    ensures
        spec_offset_through(inputs, k + 1, off) > spec_offset_through(inputs, k, off),
{
    lemma_input_size_positive(inputs[k]);
}

/// Offset determinism: the offsets depend only on the input list and the
/// starting offset, so resolving the same list twice from the same start
/// yields the same sequence of offsets.
pub proof fn lemma_offsets_deterministic(
    first: Seq<TxInputV>,
    second: Seq<TxInputV>,
    k: int,
    off: int,
)
    requires
        first == second,
    ensures
        spec_offset_through(first, k, off) == spec_offset_through(second, k, off),
{
}

proof fn lemma_offset_through_shift(inputs: Seq<TxInputV>, k: int, off: int)
    requires
        1 <= k <= inputs.len(),
    ensures
        spec_offset_through(inputs, k, off) == spec_offset_through(
            inputs.drop_first(),
            k - 1,
            off + spec_input_size(inputs[0]),
        ),
    decreases k,
{
    let rest = inputs.drop_first();
    let off1 = off + spec_input_size(inputs[0]);
    if k == 1 {
        assert(spec_offset_through(inputs, 0, off) == off);
        assert(spec_offset_through(inputs, 1, off) == off + spec_input_size(inputs[0]));
        assert(spec_offset_through(rest, 0, off1) == off1);
    } else {
        lemma_offset_through_shift(inputs, k - 1, off);
        assert(rest[k - 2] == inputs[k - 1]);
        assert(spec_offset_through(inputs, k, off) == spec_offset_through(inputs, k - 1, off)
            + spec_input_size(inputs[k - 1]));
        assert(spec_offset_through(rest, k - 1, off1) == spec_offset_through(rest, k - 2, off1)
            + spec_input_size(rest[k - 2]));
    }
}

/// The native input list an input list resolves to, or `None` when any
/// signed input's address is unregistered.
pub open spec fn spec_resolve_all(
    inputs: Seq<TxInputV>,
    off: int,
    num_witnesses: u8,
    entries: Seq<(Seq<u8>, u64)>,
) -> Option<Seq<fuel_tx::Input>>
    decreases inputs.len(),
{
    if inputs.len() == 0 {
        Some(Seq::empty())
    } else {
        match spec_native_input(inputs[0], off, num_witnesses, entries) {
            None => None,
            Some(n) => match spec_resolve_all(
                inputs.drop_first(),
                off + spec_input_size(inputs[0]),
                num_witnesses,
                entries,
            ) {
                None => None,
                Some(s) => Some(seq![n] + s),
            },
        }
    }
}

/// `rest` prefixed by the already resolved inputs, when `rest` resolved.
pub open spec fn spec_prepend(
    acc: Seq<fuel_tx::Input>,
    rest: Option<Seq<fuel_tx::Input>>,
) -> Option<Seq<fuel_tx::Input>> {
    match rest {
        None => None,
        Some(s) => Some(acc + s),
    }
}

/// Each resolved input is the native form of the declarative input at the
/// same position, resolved at that position's running offset.
pub proof fn lemma_resolve_all_index(
    inputs: Seq<TxInputV>,
    off: int,
    num_witnesses: u8,
    entries: Seq<(Seq<u8>, u64)>,
    i: int,
)
    requires
        spec_resolve_all(inputs, off, num_witnesses, entries) is Some,
        0 <= i < inputs.len(),
    ensures
        spec_resolve_all(inputs, off, num_witnesses, entries).unwrap().len() == inputs.len(),
        spec_native_input(inputs[i], spec_offset_through(inputs, i, off), num_witnesses, entries)
            is Some,
        spec_resolve_all(inputs, off, num_witnesses, entries).unwrap()[i] == spec_native_input(
            inputs[i],
            spec_offset_through(inputs, i, off),
            num_witnesses,
            entries,
        ).unwrap(),
    decreases inputs.len(),
{
    let rest = inputs.drop_first();
    let off1 = off + spec_input_size(inputs[0]);
    lemma_resolve_all_len(inputs, off, num_witnesses, entries);
    if i > 0 {
        lemma_resolve_all_index(rest, off1, num_witnesses, entries, i - 1);
        lemma_offset_through_shift(inputs, i, off);
        assert(rest[i - 1] == inputs[i]);
    }
}

/// A resolved list has one native input per declarative input.
pub proof fn lemma_resolve_all_len(
    inputs: Seq<TxInputV>,
    off: int,
    num_witnesses: u8,
    entries: Seq<(Seq<u8>, u64)>,
)
    requires
        spec_resolve_all(inputs, off, num_witnesses, entries) is Some,
    ensures
        spec_resolve_all(inputs, off, num_witnesses, entries).unwrap().len() == inputs.len(),
    decreases inputs.len(),
{
    if inputs.len() > 0 {
        lemma_resolve_all_len(
            inputs.drop_first(),
            off + spec_input_size(inputs[0]),
            num_witnesses,
            entries,
        );
    }
}

/// Witness-index correctness: in a successful resolution every signed
/// input's witness index equals the explicit witness count plus the
/// registry index of its owning address, so any two signed inputs sharing
/// that address share one witness index.
pub proof fn lemma_witness_index_correct(
    inputs: Seq<TxInputV>,
    off: int,
    num_witnesses: u8,
    entries: Seq<(Seq<u8>, u64)>,
    i: int,
    j: int,
)
    requires
        spec_resolve_all(inputs, off, num_witnesses, entries) is Some,
        0 <= i < inputs.len(),
        0 <= j < inputs.len(),
        spec_signing_address(inputs[i]) is Some,
        spec_signing_address(inputs[j]) == spec_signing_address(inputs[i]),
    ensures
        spec_lookup(entries, spec_signing_address(inputs[i]).unwrap()) is Some,
        spec_assigned_witness_index(inputs[i], num_witnesses, entries) == Some(
            spec_witness_index(
                num_witnesses,
                spec_lookup(entries, spec_signing_address(inputs[i]).unwrap()).unwrap(),
            ),
        ),
        spec_assigned_witness_index(inputs[j], num_witnesses, entries)
            == spec_assigned_witness_index(inputs[i], num_witnesses, entries),
{
    lemma_resolve_all_index(inputs, off, num_witnesses, entries, i);
}

/// Converts one coin into the native signed-coin input carrying the given
/// witness index.
pub fn create_coin_input(coin: Coin, witness_index: u8) -> (r: fuel_tx::Input)
    requires
        coin_wf(coin@),
    ensures
        r == coin_signed_input(
            coin@.utxo_id.tx_id,
            coin@.utxo_id.output_index,
            coin@.owner,
            coin@.amount,
            coin@.asset_id,
            witness_index as u16,
        ),
{
    fuel_coin_signed(
        &coin.utxo_id.tx_id,
        coin.utxo_id.output_index,
        &coin.owner.hash,
        coin.amount,
        &coin.asset_id,
        witness_index as u16,
    )
}

/// Converts one message into the native signed message input carrying the
/// given witness index.  A message with empty payload becomes the coin-like
/// variant; a non-empty payload selects the data-bearing variant.
pub fn create_coin_message_input(message: Message, witness_index: u8) -> (r: fuel_tx::Input)
    requires
        message_wf(message@),
    ensures
        message@.data.len() == 0 ==> r == message_coin_signed_input(
            message@.sender,
            message@.recipient,
            message@.amount,
            message@.nonce,
            witness_index as u16,
        ),
        message@.data.len() > 0 ==> r == message_data_signed_input(
            message@.sender,
            message@.recipient,
            message@.amount,
            message@.nonce,
            witness_index as u16,
            message@.data,
        ),
{
    if message.data.len() == 0 {
        fuel_message_coin_signed(
            &message.sender.hash,
            &message.recipient.hash,
            message.amount,
            &message.nonce,
            witness_index as u16,
        )
    } else {
        fuel_message_data_signed(
            &message.sender.hash,
            &message.recipient.hash,
            message.amount,
            &message.nonce,
            witness_index as u16,
            message.data,
        )
    }
}

/// Converts one coin into the native predicate-gated coin input.
pub fn create_coin_predicate(
    coin: Coin,
    asset_id: Vec<u8>,
    code: Vec<u8>,
    predicate_data: Vec<u8>,
) -> (r: fuel_tx::Input)
    requires
        coin_wf(coin@),
        asset_id@.len() == 32,
    ensures
        r == coin_predicate_input(
            coin@.utxo_id.tx_id,
            coin@.utxo_id.output_index,
            coin@.owner,
            coin@.amount,
            asset_id@,
            code@,
            predicate_data@,
        ),
{
    fuel_coin_predicate(
        &coin.utxo_id.tx_id,
        coin.utxo_id.output_index,
        &coin.owner.hash,
        coin.amount,
        &asset_id,
        code,
        predicate_data,
    )
}

/// Converts one message into the native predicate-gated message input,
/// selecting the coin-like variant exactly when the payload is empty.
pub fn create_coin_message_predicate(
    message: Message,
    code: Vec<u8>,
    predicate_data: Vec<u8>,
) -> (r: fuel_tx::Input)
    requires
        message_wf(message@),
    ensures
        message@.data.len() == 0 ==> r == message_coin_predicate_input(
            message@.sender,
            message@.recipient,
            message@.amount,
            message@.nonce,
            code@,
            predicate_data@,
        ),
        message@.data.len() > 0 ==> r == message_data_predicate_input(
            message@.sender,
            message@.recipient,
            message@.amount,
            message@.nonce,
            message@.data,
            code@,
            predicate_data@,
        ),
{
    if message.data.len() == 0 {
        fuel_message_coin_predicate(
            &message.sender.hash,
            &message.recipient.hash,
            message.amount,
            &message.nonce,
            code,
            predicate_data,
        )
    } else {
        fuel_message_data_predicate(
            &message.sender.hash,
            &message.recipient.hash,
            message.amount,
            &message.nonce,
            message.data,
            code,
            predicate_data,
        )
    }
}

/// Resolves one signed resource: advances the offset by the input's
/// serialized size, looks the owning address up in the registry, and either
/// produces the native input with its witness index or fails.
pub fn resolve_signed_resource(
    resource: CoinType,
    data_offset: &mut u64,
    num_witnesses: u8,
    unresolved_signatures: &UnresolvedSignatures,
) -> (r: Result<fuel_tx::Input, BuildError>)
    requires
        coin_type_wf(resource@),
        registry_wf(unresolved_signatures@),
        num_witnesses as int + unresolved_signatures@.secret_keys.len() <= 256,
        *old(data_offset) + spec_input_size(
            TxInputV::ResourceSigned { resource: resource@ },
        ) <= u64::MAX,
    ensures
        *final(data_offset) == *old(data_offset) + spec_input_size(
            TxInputV::ResourceSigned { resource: resource@ },
        ),
        r matches Ok(n) ==> spec_native_input(
            TxInputV::ResourceSigned { resource: resource@ },
            *old(data_offset) as int,
            num_witnesses,
            unresolved_signatures@.entries,
        ) == Some(n),
        r is Err ==> r == Err::<fuel_tx::Input, BuildError>(BuildError::MissingSignature)
            && spec_native_input(
            TxInputV::ResourceSigned { resource: resource@ },
            *old(data_offset) as int,
            num_witnesses,
            unresolved_signatures@.entries,
        ) is None,
{
    let ghost iv = TxInputV::ResourceSigned { resource: resource@ };
    match resource {
        CoinType::Coin(coin) => {
            *data_offset = *data_offset + INPUT_COIN_FIXED_SIZE;
            match unresolved_signatures.lookup(&coin.owner) {
                None => Err(BuildError::MissingSignature),
                Some(k) => {
                    proof {
                        lemma_lookup_in_range(unresolved_signatures@.entries, coin.owner@);
                    }
                    let wi: u8 = num_witnesses + (k as u8);
                    Ok(create_coin_input(coin, wi))
                }
            }
        }
        CoinType::Message(message) => {
            proof {
                lemma_padded_len_bounds(message.data@.len() as int);
            }
            let padded = padded_len(message.data.len() as u64);
            *data_offset = *data_offset + INPUT_MESSAGE_FIXED_SIZE + padded;
            match unresolved_signatures.lookup(&message.recipient) {
                None => Err(BuildError::MissingSignature),
                Some(k) => {
                    proof {
                        lemma_lookup_in_range(unresolved_signatures@.entries, message.recipient@);
                    }
                    let wi: u8 = num_witnesses + (k as u8);
                    Ok(create_coin_message_input(message, wi))
                }
            }
        }
    }
}

/// Resolves one predicate-gated resource: advances the offset by the
/// input's header size, resolves the self-referential data at that offset,
/// and advances the offset over the resolved data.  A predicate input's
/// native form is independent of the witness count and the registry, so
/// its contract states it under an empty registry.
pub fn resolve_predicate_resource(
    resource: CoinType,
    code: Vec<u8>,
    data: UnresolvedBytes,
    data_offset: &mut u64,
) -> (r: Result<fuel_tx::Input, BuildError>)
    requires
        coin_type_wf(resource@),
        *old(data_offset) + spec_input_size(
            TxInputV::ResourcePredicate { resource: resource@, code: code@, data: data@ },
        ) <= u64::MAX,
    ensures
        *final(data_offset) == *old(data_offset) + spec_input_size(
            TxInputV::ResourcePredicate { resource: resource@, code: code@, data: data@ },
        ),
        r matches Ok(n) && spec_native_input(
            TxInputV::ResourcePredicate { resource: resource@, code: code@, data: data@ },
            *old(data_offset) as int,
            0u8,
            Seq::empty(),
        ) == Some(n),
{
    let ghost iv = TxInputV::ResourcePredicate {
        resource: resource@,
        code: code@,
        data: data@,
    };
    proof {
        lemma_resolved_len(data@, 0);
        lemma_padded_len_bounds(code@.len() as int);
    }
    match resource {
        CoinType::Coin(coin) => {
            let padded_code = padded_len(code.len() as u64);
            *data_offset = *data_offset + INPUT_COIN_FIXED_SIZE + padded_code;
            let resolved = data.resolve(*data_offset);
            proof {
                lemma_resolved_len(data@, *data_offset);
            }
            *data_offset = *data_offset + resolved.len() as u64;
            let asset_id_copy = copy_bytes(&coin.asset_id);
            Ok(create_coin_predicate(coin, asset_id_copy, code, resolved))
        }
        CoinType::Message(message) => {
            proof {
                lemma_padded_len_bounds(message.data@.len() as int);
            }
            let padded_data = padded_len(message.data.len() as u64);
            let padded_code = padded_len(code.len() as u64);
            *data_offset = *data_offset + INPUT_MESSAGE_FIXED_SIZE + padded_data + padded_code;
            let resolved = data.resolve(*data_offset);
            proof {
                lemma_resolved_len(data@, *data_offset);
            }
            *data_offset = *data_offset + resolved.len() as u64;
            Ok(create_coin_message_predicate(message, code, resolved))
        }
    }
}

/// Copies a byte vector.
pub fn copy_bytes(src: &Vec<u8>) -> (r: Vec<u8>)
    ensures
        r@ == src@,
{
    let mut out: Vec<u8> = Vec::new();
    let n = src.len();
    let mut i: usize = 0;
    while i < n
        invariant
            n == src@.len(),
            i <= n,
            out@ == src@.take(i as int),
        decreases n - i,
    {
        out.push(src[i]);
        i += 1;
        proof {
            assert(out@ =~= src@.take(i as int));
        }
    }
    proof {
        assert(src@.take(n as int) =~= src@);
    }
    out
}

/// The view of a declarative input list.
pub open spec fn input_views(s: Seq<TxInput>) -> Seq<TxInputV> {
    s.map(|i: int, x: TxInput| x@)
}

/// Resolves the declarative inputs to the chain's native inputs, in order,
/// assigning witness indices to signed inputs and computing data offsets
/// for predicate inputs.  Fails exactly when some signed input's address
/// has no registered key, returning no partial result.
#[verifier::loop_isolation(false)]
pub fn resolve_fuel_inputs(
    inputs: Vec<TxInput>,
    data_offset: u64,
    num_witnesses: u8,
    unresolved_signatures: &UnresolvedSignatures,
) -> (r: Result<Vec<fuel_tx::Input>, BuildError>)
    requires
        registry_wf(unresolved_signatures@),
        num_witnesses as int + unresolved_signatures@.secret_keys.len() <= 256,
        forall|j: int| 0 <= j < inputs@.len() ==> input_wf(#[trigger] input_views(inputs@)[j]),
        spec_offset_through(input_views(inputs@), inputs@.len() as int, data_offset as int)
            <= u64::MAX,
    ensures
        r matches Ok(v) ==> spec_resolve_all(
            input_views(inputs@),
            data_offset as int,
            num_witnesses,
            unresolved_signatures@.entries,
        ) == Some(v@),
        r is Err ==> r == Err::<Vec<fuel_tx::Input>, BuildError>(BuildError::MissingSignature)
            && spec_resolve_all(
            input_views(inputs@),
            data_offset as int,
            num_witnesses,
            unresolved_signatures@.entries,
        ) is None,
{
    let ghost views = input_views(inputs@);
    let ghost entries = unresolved_signatures@.entries;
    let mut out: Vec<fuel_tx::Input> = Vec::new();
    let mut offset: u64 = data_offset;
    let n = inputs.len();
    let mut inputs = inputs;
    let mut i: usize = 0;
    proof {
        assert(views.skip(0) == views);
    }
    while i < n
        invariant
            n == views.len(),
            inputs@.len() == n - i,
            forall|j: int| 0 <= j < inputs@.len() ==> inputs@[j]@ == views[i + j],
            i <= n,
            registry_wf(unresolved_signatures@),
            entries == unresolved_signatures@.entries,
            num_witnesses as int + unresolved_signatures@.secret_keys.len() <= 256,
            forall|j: int| 0 <= j < views.len() ==> input_wf(#[trigger] views[j]),
            spec_offset_through(views, n as int, data_offset as int) <= u64::MAX,
            offset as int == spec_offset_through(views, i as int, data_offset as int),
            spec_resolve_all(views, data_offset as int, num_witnesses, entries) == spec_prepend(
                out@,
                spec_resolve_all(views.skip(i as int), offset as int, num_witnesses, entries),
            ),
        decreases n - i,
    {
        proof {
            assert(views.skip(i as int)[0] == views[i as int]);
            assert(views.skip(i as int).drop_first() =~= views.skip(i as int + 1));
            lemma_offset_bound(views, i as int + 1, data_offset as int);
            assert(spec_offset_through(views, i as int + 1, data_offset as int)
                == offset as int + spec_input_size(views[i as int]));
        }
        let ghost prev_out = out@;
        let ghost off_before = offset;
        let input = inputs.remove(0);
        proof {
            assert(input@ == views[i as int]);
        }
        let native = match input {
            TxInput::ResourceSigned { resource } => {
                proof {
                    assert(views[i as int] == TxInputV::ResourceSigned { resource: resource@ });
                }
                let res = resolve_signed_resource(
                    resource,
                    &mut offset,
                    num_witnesses,
                    unresolved_signatures,
                );
                match res {
                    Ok(native_input) => native_input,
                    Err(e) => {
                        proof {
                            assert(spec_native_input(views[i as int], off_before as int,
                                num_witnesses, entries) is None);
                            assert(spec_resolve_all(views.skip(i as int), off_before as int,
                                num_witnesses, entries) is None);
                            assert(spec_prepend(prev_out, spec_resolve_all(
                                views.skip(i as int), off_before as int, num_witnesses,
                                entries)) is None);
                            assert(spec_resolve_all(views, data_offset as int, num_witnesses,
                                entries) is None);
                        }
                        return Err(e);
                    }
                }
            }
            TxInput::ResourcePredicate { resource, code, data } => {
                proof {
                    assert(views[i as int] == TxInputV::ResourcePredicate {
                        resource: resource@,
                        code: code@,
                        data: data@,
                    });
                }
                let res = resolve_predicate_resource(resource, code, data, &mut offset);
                match res {
                    Ok(native_input) => native_input,
                    Err(e) => {
                        return Err(e);
                    }
                }
            }
            TxInput::Contract { utxo_id, balance_root, state_root, tx_pointer, contract_id } => {
                offset = offset + INPUT_CONTRACT_SIZE;
                fuel_contract_input(
                    &utxo_id.tx_id,
                    utxo_id.output_index,
                    &balance_root,
                    &state_root,
                    tx_pointer.block_height,
                    tx_pointer.tx_index,
                    &contract_id,
                )
            }
        };
        proof {
            assert(spec_native_input(views[i as int], off_before as int, num_witnesses, entries)
                == Some(native));
        }
        out.push(native);
        i += 1;
        proof {
            assert(out@ =~= prev_out.push(native));
            let rest_result = spec_resolve_all(
                views.skip(i as int),
                offset as int,
                num_witnesses,
                entries,
            );
            match rest_result {
                None => {}
                Some(s) => {
                    assert(prev_out + (seq![native] + s) =~= out@ + s);
                }
            }
        }
    }
    proof {
        assert(views.skip(n as int) =~= Seq::<TxInputV>::empty());
        assert(out@ + Seq::<fuel_tx::Input>::empty() =~= out@);
    }
    Ok(out)
}

/// Every intermediate offset is bounded by the final offset.
pub proof fn lemma_offset_bound(inputs: Seq<TxInputV>, k: int, off: int)
    requires
        0 <= k <= inputs.len(),
    ensures
        spec_offset_through(inputs, k, off) <= spec_offset_through(
            inputs,
            inputs.len() as int,
            off,
        ),
        off <= spec_offset_through(inputs, k, off),
    decreases inputs.len() - k,
{
    if k < inputs.len() {
        lemma_input_size_positive(inputs[k]);
        lemma_offset_bound(inputs, k + 1, off);
    }
    lemma_offset_nondecreasing(inputs, k, off);
}

proof fn lemma_offset_nondecreasing(inputs: Seq<TxInputV>, k: int, off: int)
    requires
        0 <= k,
    ensures
        off <= spec_offset_through(inputs, k, off),
    decreases k,
{
    if k > 0 {
        lemma_offset_nondecreasing(inputs, k - 1, off);
        lemma_input_size_positive(inputs[k - 1]);
    }
}

} // verus!
