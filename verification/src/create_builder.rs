//! The builder for contract-deployment transactions.
//!
//! Deployment transactions carry contract bytecode in a witness, a salt,
//! and a list of initial storage slots that the chain format requires in
//! strictly sorted order; the builder re-sorts the slots on every mutation.
//! There is no gas-estimation step: deployment has no execution budget.

use vstd::prelude::*;
use crate::errors::BuildError;
use crate::inputs::{TxInput, TxInputV, input_wf};
use crate::native::{
    NativeCreate, chain_id_of, create_id_of, create_of, create_with_witnesses_appended,
    fuel_chain_id, fuel_create, fuel_create_extend_witnesses, fuel_create_id, fuel_policies,
    fuel_storage_slot, fuel_tx_offset, fuel_witness, policies_of, storage_slot_of, tx_offset_of,
    witness_of,
};
use crate::offsets::{CREATE_STATIC_OFFSET, STORAGE_SLOT_SIZE};
use crate::policies::{PolicySet, TxPolicies, spec_policies_size};
use crate::resolver::{
    copy_bytes, input_views, lemma_offset_bound, resolve_fuel_inputs, spec_offset_through,
    spec_resolve_all,
};
use crate::script_builder::{
    NetworkInfo, spec_num_witnesses, spec_uses_predicates, spec_witness_overflow, spec_zeroed32,
    num_witnesses_checked, uses_predicates, zeroed_bytes32,
};
use crate::signatures::{UnresolvedSignatures, UnresolvedSignaturesV, bytes_eq, registry_wf};
use crate::inputs::Bech32Address;

verus! {

/// Default byte limit for the witnesses of a deployment transaction when
/// the caller sets none: enough for a contract of the maximum size.
pub const DEFAULT_CREATE_WITNESS_LIMIT: u64 = 102400;

/// One initial storage slot of a deployed contract: a 32-byte key and a
/// 32-byte value.
#[derive(Debug, PartialEq, Eq)]
pub struct StorageEntry {
    pub key: Vec<u8>,
    pub value: Vec<u8>,
}

pub struct StorageEntryV {
    pub key: Seq<u8>,
    pub value: Seq<u8>,
}

impl View for StorageEntry {
    type V = StorageEntryV;

    open spec fn view(&self) -> StorageEntryV {
        StorageEntryV { key: self.key@, value: self.value@ }
    }
}

pub open spec fn entry_wf(e: StorageEntryV) -> bool {
    &&& e.key.len() == 32
    &&& e.value.len() == 32
}

/// Lexicographic order on byte strings, shorter prefixes first.
pub open spec fn spec_bytes_le(a: Seq<u8>, b: Seq<u8>) -> bool
    decreases a.len(),
{
    if a.len() == 0 {
        true
    } else if b.len() == 0 {
        false
    } else if a[0] < b[0] {
        true
    } else if a[0] > b[0] {
        false
    } else {
        spec_bytes_le(a.drop_first(), b.drop_first())
    }
}

proof fn lemma_bytes_le_total(a: Seq<u8>, b: Seq<u8>)
    ensures
        spec_bytes_le(a, b) || spec_bytes_le(b, a),
    decreases a.len(),
{
    if a.len() > 0 && b.len() > 0 && a[0] == b[0] {
        lemma_bytes_le_total(a.drop_first(), b.drop_first());
    }
}

proof fn lemma_bytes_le_refl(a: Seq<u8>)
    ensures
        spec_bytes_le(a, a),
    decreases a.len(),
{
    if a.len() > 0 {
        lemma_bytes_le_refl(a.drop_first());
    }
}

pub proof fn lemma_slot_le_refl(a: StorageEntryV)
    ensures
        spec_slot_le(a, a),
{
    lemma_bytes_le_refl(a.value);
}

proof fn lemma_bytes_le_antisym(a: Seq<u8>, b: Seq<u8>)
    requires
        spec_bytes_le(a, b),
        spec_bytes_le(b, a),
    ensures
        a == b,
    decreases a.len(),
{
    if a.len() == 0 {
        assert(b.len() == 0);
        assert(a =~= b);
    } else {
        assert(b.len() > 0);
        assert(a[0] == b[0]);
        lemma_bytes_le_antisym(a.drop_first(), b.drop_first());
        assert(a.len() == a.drop_first().len() + 1);
        assert(a.len() == b.len());
        assert forall|i: int| 0 <= i < a.len() implies a[i] == b[i] by {
            if i > 0 {
                assert(a.drop_first()[i - 1] == a[i]);
                assert(b.drop_first()[i - 1] == b[i]);
            }
        }
        assert(a =~= b);
    }
}

proof fn lemma_bytes_le_trans(a: Seq<u8>, b: Seq<u8>, c: Seq<u8>)
    requires
        spec_bytes_le(a, b),
        spec_bytes_le(b, c),
    ensures
        spec_bytes_le(a, c),
    decreases a.len(),
{
    if a.len() > 0 && b.len() > 0 && c.len() > 0 && a[0] == b[0] && b[0] == c[0] {
        lemma_bytes_le_trans(a.drop_first(), b.drop_first(), c.drop_first());
    }
}

/// Order of storage slots: by key, then by value.
pub open spec fn spec_slot_le(a: StorageEntryV, b: StorageEntryV) -> bool {
    if a.key == b.key {
        spec_bytes_le(a.value, b.value)
    } else {
        spec_bytes_le(a.key, b.key)
    }
}

pub proof fn lemma_slot_le_total(a: StorageEntryV, b: StorageEntryV)
    ensures
        spec_slot_le(a, b) || spec_slot_le(b, a),
{
    if a.key == b.key {
        lemma_bytes_le_total(a.value, b.value);
    } else {
        lemma_bytes_le_total(a.key, b.key);
    }
}

pub proof fn lemma_slot_le_trans(a: StorageEntryV, b: StorageEntryV, c: StorageEntryV)
    requires
        spec_slot_le(a, b),
        spec_slot_le(b, c),
    ensures
        spec_slot_le(a, c),
{
    if a.key == b.key && b.key == c.key {
        lemma_bytes_le_trans(a.value, b.value, c.value);
    } else if a.key == b.key {
        // a and b share a key strictly below c's.
    } else if b.key == c.key {
        // b and c share a key strictly above a's.
    } else {
        lemma_bytes_le_trans(a.key, b.key, c.key);
        if a.key == c.key {
            lemma_bytes_le_antisym(a.key, b.key);
        }
    }
}

/// Lexicographic comparison of byte vectors.
pub fn bytes_le(a: &Vec<u8>, b: &Vec<u8>) -> (r: bool)
    ensures
        r == spec_bytes_le(a@, b@),
{
    let shorter: usize = if a.len() < b.len() {
        a.len()
    } else {
        b.len()
    };
    let mut i: usize = 0;
    proof {
        assert(a@.skip(0) == a@);
        assert(b@.skip(0) == b@);
    }
    while i < shorter
        invariant
            shorter <= a@.len(),
            shorter <= b@.len(),
            shorter == (if a@.len() < b@.len() {
                a@.len() as int
            } else {
                b@.len() as int
            }),
            i <= shorter,
            spec_bytes_le(a@, b@) == spec_bytes_le(a@.skip(i as int), b@.skip(i as int)),
        decreases shorter - i,
    {
        proof {
            assert(a@.skip(i as int)[0] == a@[i as int]);
            assert(b@.skip(i as int)[0] == b@[i as int]);
            assert(a@.skip(i as int).drop_first() =~= a@.skip(i as int + 1));
            assert(b@.skip(i as int).drop_first() =~= b@.skip(i as int + 1));
        }
        if a[i] < b[i] {
            return true;
        }
        if a[i] > b[i] {
            return false;
        }
        i += 1;
    }
    proof {
        if a@.len() <= b@.len() {
            assert(a@.skip(i as int) =~= Seq::<u8>::empty());
        } else {
            assert(b@.skip(i as int) =~= Seq::<u8>::empty());
            assert(a@.skip(i as int).len() > 0);
        }
    }
    a.len() <= b.len()
}

/// Order of storage slots, executable form.
pub fn slot_le(a: &StorageEntry, b: &StorageEntry) -> (r: bool)
    ensures
        r == spec_slot_le(a@, b@),
{
    if bytes_eq(&a.key, &b.key) {
        bytes_le(&a.value, &b.value)
    } else {
        bytes_le(&a.key, &b.key)
    }
}

/// A slot list sorted by key, then value.
pub open spec fn spec_slots_sorted(s: Seq<StorageEntryV>) -> bool {
    forall|i: int| 0 <= i && i + 1 < s.len() ==> spec_slot_le(#[trigger] s[i], s[i + 1])
}

/// The view of a slot list.
pub open spec fn entry_views(s: Seq<StorageEntry>) -> Seq<StorageEntryV> {
    s.map(|i: int, e: StorageEntry| e@)
}

/// Sorts storage slots by key, then value, keeping exactly the given
/// slots: for any input ordering the result is the same sorted list.
pub fn sort_slots(slots: Vec<StorageEntry>) -> (r: Vec<StorageEntry>)
    ensures
        spec_slots_sorted(entry_views(r@)),
        entry_views(r@).to_multiset() == entry_views(slots@).to_multiset(),
        r@.len() == slots@.len(),
{
    broadcast use vstd::seq_lib::group_to_multiset_ensures;
    broadcast use vstd::multiset::group_multiset_axioms;

    let ghost orig = entry_views(slots@);
    let mut rem = slots;
    let mut out: Vec<StorageEntry> = Vec::new();
    proof {
        assert(entry_views(out@) =~= Seq::<StorageEntryV>::empty());
        assert(entry_views(out@).to_multiset().add(entry_views(rem@).to_multiset())
            =~= orig.to_multiset());
    }
    while rem.len() > 0
        invariant
            spec_slots_sorted(entry_views(out@)),
            entry_views(out@).to_multiset().add(entry_views(rem@).to_multiset())
                == orig.to_multiset(),
            out@.len() + rem@.len() == orig.len(),
            forall|j: int|
                0 <= j < rem@.len() && out@.len() > 0 ==> spec_slot_le(
                    entry_views(out@).last(),
                    #[trigger] entry_views(rem@)[j],
                ),
        decreases rem@.len(),
    {
        let n = rem.len();
        let mut m: usize = 0;
        let mut i: usize = 1;
        proof {
            lemma_slot_le_refl(rem@[0]@);
        }
        while i < n
            invariant
                n == rem@.len(),
                m < n,
                i <= n,
                forall|j: int|
                    0 <= j < i ==> spec_slot_le(rem@[m as int]@, (#[trigger] rem@[j])@),
            decreases n - i,
        {
            if slot_le(&rem[i], &rem[m]) {
                proof {
                    lemma_slot_le_refl(rem@[i as int]@);
                    assert forall|j: int| 0 <= j <= i implies spec_slot_le(
                        rem@[i as int]@,
                        (#[trigger] rem@[j])@,
                    ) by {
                        if j < i {
                            lemma_slot_le_trans(rem@[i as int]@, rem@[m as int]@, rem@[j]@);
                        }
                    }
                }
                m = i;
            } else {
                proof {
                    lemma_slot_le_total(rem@[i as int]@, rem@[m as int]@);
                }
            }
            i += 1;
        }
        let ghost old_out = out@;
        let ghost old_rem = rem@;
        let x = rem.remove(m);
        out.push(x);
        proof {
            assert(entry_views(old_rem)[m as int] == x@);
            assert(entry_views(out@) =~= entry_views(old_out).push(x@));
            assert(entry_views(rem@) =~= entry_views(old_rem).remove(m as int));
            // The multiset balance is preserved: the element moved from
            // the remainder to the output.
            vstd::seq_lib::to_multiset_build(entry_views(old_out), x@);
            assert(entry_views(out@).to_multiset() == entry_views(old_out).to_multiset().insert(
                x@,
            ));
            vstd::seq_lib::to_multiset_remove(entry_views(old_rem), m as int);
            assert(entry_views(rem@).to_multiset() == entry_views(old_rem).to_multiset().remove(
                x@,
            ));
            entry_views(old_rem).to_multiset_ensures();
            assert(entry_views(old_rem).contains(x@));
            assert(entry_views(old_rem).to_multiset().count(x@) > 0);
            assert(entry_views(out@).to_multiset().add(entry_views(rem@).to_multiset())
                =~= entry_views(old_out).to_multiset().add(entry_views(old_rem).to_multiset()));
            // Sortedness: the minimum of the remainder follows the output's
            // last element and precedes everything still unsorted.
            assert(forall|j: int|
                0 <= j < old_rem.len() ==> spec_slot_le(x@, (#[trigger] entry_views(old_rem)[j])));
            if old_out.len() > 0 {
                assert(spec_slot_le(entry_views(old_out).last(), x@));
            }
            assert forall|i2: int| 0 <= i2 && i2 + 1 < entry_views(out@).len() implies
                spec_slot_le(#[trigger] entry_views(out@)[i2], entry_views(out@)[i2 + 1]) by {
                if i2 + 2 < entry_views(out@).len() {
                    assert(entry_views(out@)[i2] == entry_views(old_out)[i2]);
                    assert(entry_views(out@)[i2 + 1] == entry_views(old_out)[i2 + 1]);
                } else {
                    assert(entry_views(out@)[i2 + 1] == x@);
                }
            }
            assert forall|j: int| 0 <= j < rem@.len() && out@.len() > 0 implies spec_slot_le(
                entry_views(out@).last(),
                #[trigger] entry_views(rem@)[j],
            ) by {
                if j < m {
                    assert(entry_views(rem@)[j] == entry_views(old_rem)[j]);
                } else {
                    assert(entry_views(rem@)[j] == entry_views(old_rem)[j + 1]);
                }
                assert(entry_views(out@).last() == x@);
            }
        }
    }
    proof {
        assert(entry_views(rem@) =~= Seq::<StorageEntryV>::empty());
        assert(entry_views(out@).to_multiset().add(entry_views(rem@).to_multiset())
            =~= entry_views(out@).to_multiset());
        assert(entry_views(out@).to_multiset().len() == orig.to_multiset().len());
    }
    out
}

/// A finalized deployment transaction, tagged with whether any of its
/// inputs used predicate authorization.
pub struct CreateTransaction {
    pub tx: NativeCreate,
    pub is_using_predicates: bool,
}

impl CreateTransaction {
    /// The native transaction, ready for submission.
    pub fn into_fuel_transaction(self) -> (r: fuel_tx::Transaction)
        ensures
            r == crate::native::transaction_of_create(self.tx),
    {
        crate::native::fuel_create_into_transaction(self.tx)
    }
}

/// Builds contract-deployment transactions from a declarative description.
pub struct CreateTransactionBuilder {
    pub gas_price: Option<u64>,
    pub maturity: u32,
    pub witness_limit: Option<u64>,
    pub max_fee: Option<u64>,
    pub bytecode_length: u64,
    pub bytecode_witness_index: u8,
    pub storage_slots: Vec<StorageEntry>,
    pub inputs: Vec<TxInput>,
    pub outputs: Vec<fuel_tx::Output>,
    pub witnesses: Vec<Vec<u8>>,
    pub salt: Vec<u8>,
    pub network_info: NetworkInfo,
    pub unresolved_signatures: UnresolvedSignatures,
}

pub struct CreateBuilderV {
    pub gas_price: Option<u64>,
    pub maturity: u32,
    pub witness_limit: Option<u64>,
    pub max_fee: Option<u64>,
    pub bytecode_length: u64,
    pub bytecode_witness_index: u8,
    pub storage_slots: Seq<StorageEntryV>,
    pub inputs: Seq<TxInputV>,
    pub outputs: Seq<fuel_tx::Output>,
    pub witnesses: Seq<Seq<u8>>,
    pub salt: Seq<u8>,
    pub consensus_parameters: fuel_tx::ConsensusParameters,
    pub min_gas_price: u64,
    pub registry: UnresolvedSignaturesV,
}

impl View for CreateTransactionBuilder {
    type V = CreateBuilderV;

    open spec fn view(&self) -> CreateBuilderV {
        CreateBuilderV {
            gas_price: self.gas_price,
            maturity: self.maturity,
            witness_limit: self.witness_limit,
            max_fee: self.max_fee,
            bytecode_length: self.bytecode_length,
            bytecode_witness_index: self.bytecode_witness_index,
            storage_slots: entry_views(self.storage_slots@),
            inputs: input_views(self.inputs@),
            outputs: self.outputs@,
            witnesses: self.witnesses@.map(|i: int, w: Vec<u8>| w@),
            salt: self.salt@,
            consensus_parameters: self.network_info.consensus_parameters,
            min_gas_price: self.network_info.min_gas_price,
            registry: self.unresolved_signatures@,
        }
    }
}

/// The policy set a deployment build serializes.
pub open spec fn spec_create_policy_set(v: CreateBuilderV) -> PolicySet {
    PolicySet {
        max_fee: v.max_fee,
        maturity: Some(v.maturity as u64),
        gas_price: if v.gas_price is Some {
            v.gas_price
        } else {
            Some(v.min_gas_price)
        },
        witness_limit: if v.witness_limit is Some {
            v.witness_limit
        } else {
            Some(DEFAULT_CREATE_WITNESS_LIMIT)
        },
    }
}

/// The native policies of a deployment build.
pub open spec fn spec_create_native_policies(v: CreateBuilderV) -> fuel_tx::policies::Policies {
    let p = spec_create_policy_set(v);
    policies_of(p.gas_price, p.witness_limit, p.maturity, p.max_fee)
}

/// The base offset of a deployment build: zero when no input is
/// predicate-gated, otherwise the size of the fixed deployment header.
pub open spec fn spec_create_base_offset(v: CreateBuilderV) -> int {
    if spec_uses_predicates(v.inputs) {
        tx_offset_of(v.consensus_parameters) + CREATE_STATIC_OFFSET
    } else {
        0
    }
}

/// The offset at which input resolution starts: past the storage slots and
/// the policies.
pub open spec fn spec_create_resolve_start(v: CreateBuilderV) -> int {
    spec_create_base_offset(v) + v.storage_slots.len() * (STORAGE_SLOT_SIZE as int)
        + spec_policies_size(spec_create_policy_set(v))
}

/// The native inputs of a deployment build, or `None` when a signature is
/// missing.
pub open spec fn spec_create_inputs(v: CreateBuilderV) -> Option<Seq<fuel_tx::Input>> {
    spec_resolve_all(
        v.inputs,
        spec_create_resolve_start(v),
        spec_num_witnesses(v.witnesses),
        v.registry.entries,
    )
}

/// The native storage slots of a deployment build.
pub open spec fn spec_native_slots(slots: Seq<StorageEntryV>) -> Seq<fuel_tx::StorageSlot> {
    slots.map(|i: int, e: StorageEntryV| storage_slot_of(e.key, e.value))
}

/// The caller's witnesses in native form.
pub open spec fn spec_user_witnesses(w: Seq<Seq<u8>>) -> Seq<fuel_tx::Witness> {
    w.map(|i: int, ww: Seq<u8>| witness_of(ww))
}

/// The native transaction before the signature witnesses are appended.
pub open spec fn spec_create_tx0(v: CreateBuilderV) -> NativeCreate {
    create_of(
        v.bytecode_witness_index as u16,
        spec_create_native_policies(v),
        v.salt,
        spec_native_slots(v.storage_slots),
        spec_create_inputs(v).unwrap(),
        v.outputs,
        spec_user_witnesses(v.witnesses),
    )
}

/// The deployment transaction's digest.
pub open spec fn spec_create_digest(v: CreateBuilderV) -> Seq<u8> {
    create_id_of(spec_create_tx0(v), chain_id_of(v.consensus_parameters))
}

/// The finished deployment transaction.
pub open spec fn spec_finished_create(v: CreateBuilderV) -> CreateTransaction {
    CreateTransaction {
        tx: create_with_witnesses_appended(
            spec_create_tx0(v),
            crate::script_builder::spec_missing_witnesses(
                v.registry.secret_keys,
                spec_create_digest(v),
            ),
        ),
        is_using_predicates: spec_uses_predicates(v.inputs),
    }
}

/// What a deployment build needs of its description.
pub open spec fn spec_create_ready(v: CreateBuilderV) -> bool {
    &&& registry_wf(v.registry)
    &&& forall|j: int| 0 <= j < v.inputs.len() ==> input_wf(#[trigger] v.inputs[j])
    &&& forall|j: int| 0 <= j < v.storage_slots.len() ==> entry_wf(#[trigger] v.storage_slots[j])
    &&& v.salt.len() == 32
    &&& spec_offset_through(v.inputs, v.inputs.len() as int, spec_create_resolve_start(v))
        <= u64::MAX
}

/// Determinism: the finished deployment transaction is a function of the
/// builder's description alone.
pub proof fn lemma_create_build_deterministic(first: CreateBuilderV, second: CreateBuilderV)
    requires
        first == second,
    ensures
        spec_finished_create(first) == spec_finished_create(second),
{
}

impl CreateTransactionBuilder {
    /// A builder with nothing configured and an all-zero salt.
    pub fn new(network_info: NetworkInfo) -> (r: CreateTransactionBuilder)
        ensures
            r@.gas_price is None,
            r@.witness_limit is None,
            r@.max_fee is None,
            r@.maturity == 0u32,
            r@.bytecode_length == 0u64,
            r@.bytecode_witness_index == 0u8,
            r@.storage_slots == Seq::<StorageEntryV>::empty(),
            r@.inputs == Seq::<TxInputV>::empty(),
            r@.outputs == Seq::<fuel_tx::Output>::empty(),
            r@.witnesses == Seq::<Seq<u8>>::empty(),
            r@.salt == spec_zeroed32(),
            r@.consensus_parameters == network_info.consensus_parameters,
            r@.min_gas_price == network_info.min_gas_price,
            r@.registry.entries == Seq::<(Seq<u8>, u64)>::empty(),
            r@.registry.secret_keys == Seq::<fuel_crypto::SecretKey>::empty(),
            registry_wf(r@.registry),
    {
        let r = CreateTransactionBuilder {
            gas_price: None,
            maturity: 0,
            witness_limit: None,
            max_fee: None,
            bytecode_length: 0,
            bytecode_witness_index: 0,
            storage_slots: Vec::new(),
            inputs: Vec::new(),
            outputs: Vec::new(),
            witnesses: Vec::new(),
            salt: zeroed_bytes32(),
            network_info,
            unresolved_signatures: UnresolvedSignatures::new(),
        };
        proof {
            assert(r@.storage_slots =~= Seq::<StorageEntryV>::empty());
            assert(r@.inputs =~= Seq::<TxInputV>::empty());
            assert(r@.witnesses =~= Seq::<Seq<u8>>::empty());
        }
        r
    }

    pub fn with_bytecode_length(self, bytecode_length: u64) -> (r: Self)
        ensures
            r@ == (CreateBuilderV { bytecode_length, ..self@ }),
    {
        CreateTransactionBuilder { bytecode_length, ..self }
    }

    pub fn with_bytecode_witness_index(self, bytecode_witness_index: u8) -> (r: Self)
        ensures
            r@ == (CreateBuilderV { bytecode_witness_index, ..self@ }),
    {
        CreateTransactionBuilder { bytecode_witness_index, ..self }
    }

    /// Stores the storage slots sorted by key, then value: the chain format
    /// rejects unsorted slots, so for any input ordering the stored list is
    /// the same sorted list.
    pub fn with_storage_slots(self, storage_slots: Vec<StorageEntry>) -> (r: Self)
        ensures
            r@ == (CreateBuilderV { storage_slots: r@.storage_slots, ..self@ }),
            spec_slots_sorted(r@.storage_slots),
            r@.storage_slots.to_multiset() == entry_views(storage_slots@).to_multiset(),
            r@.storage_slots.len() == storage_slots@.len(),
    {
        let sorted = sort_slots(storage_slots);
        CreateTransactionBuilder { storage_slots: sorted, ..self }
    }

    pub fn with_salt(self, salt: Vec<u8>) -> (r: Self)
        ensures
            r@ == (CreateBuilderV { salt: salt@, ..self@ }),
    {
        CreateTransactionBuilder { salt, ..self }
    }

    pub fn with_maturity(self, maturity: u32) -> (r: Self)
        ensures
            r@ == (CreateBuilderV { maturity, ..self@ }),
    {
        CreateTransactionBuilder { maturity, ..self }
    }

    pub fn with_gas_price(self, gas_price: u64) -> (r: Self)
        ensures
            r@ == (CreateBuilderV { gas_price: Some(gas_price), ..self@ }),
    {
        CreateTransactionBuilder { gas_price: Some(gas_price), ..self }
    }

    pub fn with_inputs(self, inputs: Vec<TxInput>) -> (r: Self)
        ensures
            r@ == (CreateBuilderV { inputs: input_views(inputs@), ..self@ }),
    {
        CreateTransactionBuilder { inputs, ..self }
    }

    pub fn with_outputs(self, outputs: Vec<fuel_tx::Output>) -> (r: Self)
        ensures
            r@ == (CreateBuilderV { outputs: outputs@, ..self@ }),
    {
        CreateTransactionBuilder { outputs, ..self }
    }

    pub fn with_witnesses(self, witnesses: Vec<Vec<u8>>) -> (r: Self)
        ensures
            r@ == (CreateBuilderV {
                witnesses: witnesses@.map(|i: int, w: Vec<u8>| w@),
                ..self@
            }),
    {
        CreateTransactionBuilder { witnesses, ..self }
    }

    /// Applies a whole declarative policy set; deployment transactions have
    /// no gas limit, so the explicit script gas limit is ignored.
    pub fn with_tx_policies(self, tx_policies: TxPolicies) -> (r: Self)
        ensures
            r@ == (CreateBuilderV {
                gas_price: tx_policies.gas_price,
                witness_limit: tx_policies.witness_limit,
                max_fee: tx_policies.max_fee,
                maturity: tx_policies.maturity,
                ..self@
            }),
    {
        CreateTransactionBuilder {
            gas_price: tx_policies.gas_price,
            witness_limit: tx_policies.witness_limit,
            max_fee: tx_policies.max_fee,
            maturity: tx_policies.maturity,
            ..self
        }
    }

    /// Registers a pending signature: `secret_key` will sign the final
    /// digest on behalf of `owner`.
    pub fn add_unresolved_signature(&mut self, owner: Bech32Address, secret_key:
        fuel_crypto::SecretKey)
        requires
            registry_wf(old(self)@.registry),
        ensures
            final(self)@ == (CreateBuilderV { registry: final(self)@.registry, ..old(self)@ }),
            final(self)@.registry.secret_keys == old(self)@.registry.secret_keys.push(secret_key),
            registry_wf(final(self)@.registry),
            forall|a: Seq<u8>|
                #[trigger] crate::signatures::spec_lookup(final(self)@.registry.entries, a) == (
                if a == owner@ {
                    Some(old(self)@.registry.secret_keys.len() as u64)
                } else {
                    crate::signatures::spec_lookup(old(self)@.registry.entries, a)
                }),
    {
        self.unresolved_signatures.add(owner, secret_key);
    }

    pub fn inputs(&self) -> (r: &Vec<TxInput>)
        ensures
            r == &self.inputs,
    {
        &self.inputs
    }

    pub fn inputs_mut(&mut self) -> (r: &mut Vec<TxInput>)
        ensures
            *r == old(self).inputs,
            final(self)@ == (CreateBuilderV { inputs: input_views((*final(r))@), ..old(self)@ }),
    {
        &mut self.inputs
    }

    pub fn outputs_mut(&mut self) -> (r: &mut Vec<fuel_tx::Output>)
        ensures
            *r == old(self).outputs,
            final(self)@ == (CreateBuilderV { outputs: (*final(r))@, ..old(self)@ }),
    {
        &mut self.outputs
    }

    pub fn witnesses_mut(&mut self) -> (r: &mut Vec<Vec<u8>>)
        ensures
            *r == old(self).witnesses,
            final(self)@ == (CreateBuilderV {
                witnesses: (*final(r))@.map(|i: int, w: Vec<u8>| w@),
                ..old(self)@
            }),
    {
        &mut self.witnesses
    }

    pub fn outputs(&self) -> (r: &Vec<fuel_tx::Output>)
        ensures
            r == &self.outputs,
    {
        &self.outputs
    }

    pub fn witnesses(&self) -> (r: &Vec<Vec<u8>>)
        ensures
            r == &self.witnesses,
    {
        &self.witnesses
    }

    pub fn consensus_parameters(&self) -> (r: &fuel_tx::ConsensusParameters)
        ensures
            r == &self.network_info.consensus_parameters,
    {
        &self.network_info.consensus_parameters
    }

    /// Whether any configured input is predicate-gated.
    pub fn is_using_predicates(&self) -> (r: bool)
        ensures
            r == spec_uses_predicates(self@.inputs),
    {
        uses_predicates(&self.inputs)
    }

    /// A deployment of the given contract bytecode: the bytecode becomes
    /// witness zero, with one contract-creation output.
    pub fn prepare_contract_deployment(
        binary: Vec<u8>,
        contract_id: Vec<u8>,
        state_root: Vec<u8>,
        salt: Vec<u8>,
        storage_slots: Vec<StorageEntry>,
        tx_policies: TxPolicies,
        network_info: NetworkInfo,
    ) -> (r: Self)
        requires
            contract_id@.len() == 32,
            state_root@.len() == 32,
        ensures
            r@.bytecode_witness_index == 0u8,
            r@.salt == salt@,
            spec_slots_sorted(r@.storage_slots),
            r@.storage_slots.to_multiset() == entry_views(storage_slots@).to_multiset(),
            r@.outputs == seq![
                crate::native::contract_created_output(contract_id@, state_root@),
            ],
            r@.witnesses == seq![binary@],
            r@.gas_price == tx_policies.gas_price,
            r@.witness_limit == tx_policies.witness_limit,
            r@.max_fee == tx_policies.max_fee,
            r@.maturity == tx_policies.maturity,
            r@.inputs == Seq::<TxInputV>::empty(),
            r@.consensus_parameters == network_info.consensus_parameters,
            r@.min_gas_price == network_info.min_gas_price,
            r@.registry.entries == Seq::<(Seq<u8>, u64)>::empty(),
            r@.registry.secret_keys == Seq::<fuel_crypto::SecretKey>::empty(),
            registry_wf(r@.registry),
    {
        let output = crate::native::fuel_contract_created_output(&contract_id, &state_root);
        let mut outputs: Vec<fuel_tx::Output> = Vec::new();
        outputs.push(output);
        let mut witnesses: Vec<Vec<u8>> = Vec::new();
        witnesses.push(binary);
        let r = CreateTransactionBuilder::new(network_info).with_tx_policies(
            tx_policies,
        ).with_bytecode_witness_index(0).with_salt(salt).with_storage_slots(
            storage_slots,
        ).with_outputs(outputs).with_witnesses(witnesses);
        proof {
            assert(r@.outputs =~= seq![
                crate::native::contract_created_output(contract_id@, state_root@),
            ]);
            assert(r@.witnesses =~= seq![binary@]);
        }
        r
    }

    /// Builds the deployment transaction.  Fails when the witness limit is
    /// exceeded or a signature is missing; otherwise the result is the
    /// deterministic function of the description.
    /// The byte offset of the first input's dynamic region when offsets
    /// matter: the fixed deployment header.
    fn base_offset(&self) -> (r: u64)
        requires
            spec_create_ready(self@),
            spec_uses_predicates(self@.inputs),
        ensures
            r as int == spec_create_base_offset(self@),
    {
        proof {
            lemma_offset_bound(self@.inputs, 0, spec_create_resolve_start(self@));
        }
        fuel_tx_offset(&self.network_info.consensus_parameters) + CREATE_STATIC_OFFSET
    }

    /// Builds the deployment transaction.  Fails when the witness limit is
    /// exceeded or a signature is missing; otherwise the result is the
    /// deterministic function of the description.
    pub fn build(self) -> (r: Result<CreateTransaction, BuildError>)
        requires
            spec_create_ready(self@),
        ensures
            spec_witness_overflow(self@.witnesses, self@.registry) <==> r == Err::<
                CreateTransaction,
                BuildError,
            >(BuildError::TooManyWitnesses),
            !spec_witness_overflow(self@.witnesses, self@.registry) ==> {
                &&& (spec_create_inputs(self@) is None <==> r == Err::<
                    CreateTransaction,
                    BuildError,
                >(BuildError::MissingSignature))
                &&& spec_create_inputs(self@) is Some ==> r == Ok::<
                    CreateTransaction,
                    BuildError,
                >(spec_finished_create(self@))
            },
    {
        let ghost v = self@;
        let is_using_predicates = self.is_using_predicates();
        let base_offset: u64 = if is_using_predicates {
            self.base_offset()
        } else {
            0
        };
        let num_witnesses = match num_witnesses_checked(
            self.witnesses.len(),
            self.unresolved_signatures.num_keys(),
        ) {
            Ok(n) => n,
            Err(e) => {
                return Err(e);
            }
        };
        let tx = match self.resolve_fuel_tx(base_offset, num_witnesses) {
            Ok(t) => t,
            Err(e) => {
                return Err(e);
            }
        };
        Ok(CreateTransaction { tx, is_using_predicates })
    }

    /// Resolves the declarative description into the native deployment
    /// transaction: policies, storage slots, inputs with their witness
    /// indices and offsets, the digest and the signature witnesses.
    fn resolve_fuel_tx(self, base_offset: u64, num_witnesses: u8) -> (r: Result<
        NativeCreate,
        BuildError,
    >)
        requires
            spec_create_ready(self@),
            base_offset as int == spec_create_base_offset(self@),
            num_witnesses == spec_num_witnesses(self@.witnesses),
            !spec_witness_overflow(self@.witnesses, self@.registry),
        ensures
            spec_create_inputs(self@) is None <==> r == Err::<NativeCreate, BuildError>(
                BuildError::MissingSignature,
            ),
            spec_create_inputs(self@) is Some ==> r == Ok::<NativeCreate, BuildError>(
                spec_finished_create(self@).tx,
            ),
    {
        let ghost v = self@;

        let mut policy_set = crate::policies::generate_shared_fuel_policies(
            self.max_fee,
            self.maturity,
            self.gas_price,
            self.network_info.min_gas_price,
        );
        let witness_limit = match self.witness_limit {
            Some(l) => Some(l),
            None => Some(DEFAULT_CREATE_WITNESS_LIMIT),
        };
        policy_set.set(crate::policies::PolicyKind::WitnessLimit, witness_limit);
        proof {
            assert(policy_set == spec_create_policy_set(v));
        }

        proof {
            lemma_offset_bound(v.inputs, 0, spec_create_resolve_start(v));
        }
        let slots_size: u64 = (self.storage_slots.len() as u64) * STORAGE_SLOT_SIZE;
        let resolve_start = base_offset + slots_size + policy_set.size_dynamic();

        let natives = match resolve_fuel_inputs(
            self.inputs,
            resolve_start,
            num_witnesses,
            &self.unresolved_signatures,
        ) {
            Ok(n) => n,
            Err(e) => {
                return Err(e);
            }
        };

        let slot_count = self.storage_slots.len();
        let mut native_slots: Vec<fuel_tx::StorageSlot> = Vec::new();
        let mut s: usize = 0;
        while s < slot_count
            invariant
                s <= slot_count,
                slot_count == self.storage_slots@.len(),
                forall|j: int|
                    0 <= j < slot_count ==> entry_wf(#[trigger] entry_views(
                        self.storage_slots@,
                    )[j]),
                native_slots@.len() == s,
                forall|j: int|
                    0 <= j < s ==> native_slots@[j] == storage_slot_of(
                        self.storage_slots@[j]@.key,
                        self.storage_slots@[j]@.value,
                    ),
            decreases slot_count - s,
        {
            proof {
                assert(entry_views(self.storage_slots@)[s as int]
                    == self.storage_slots@[s as int]@);
            }
            let entry = &self.storage_slots[s];
            native_slots.push(fuel_storage_slot(&entry.key, &entry.value));
            s += 1;
        }
        proof {
            assert(native_slots@ =~= spec_native_slots(v.storage_slots));
        }

        let user_count = self.witnesses.len();
        let mut user_witnesses: Vec<fuel_tx::Witness> = Vec::new();
        let mut i: usize = 0;
        while i < user_count
            invariant
                i <= user_count,
                user_count == self.witnesses@.len(),
                user_witnesses@.len() == i,
                forall|j: int|
                    0 <= j < i ==> user_witnesses@[j] == witness_of(self.witnesses@[j]@),
            decreases user_count - i,
        {
            let w = copy_bytes(&self.witnesses[i]);
            user_witnesses.push(fuel_witness(w));
            i += 1;
        }
        proof {
            assert(user_witnesses@ =~= spec_user_witnesses(v.witnesses));
        }

        let native_policies = fuel_policies(
            policy_set.gas_price,
            policy_set.witness_limit,
            policy_set.maturity,
            policy_set.max_fee,
        );
        let mut tx = fuel_create(
            self.bytecode_witness_index as u16,
            native_policies,
            &self.salt,
            native_slots,
            natives,
            self.outputs,
            user_witnesses,
        );
        proof {
            assert(tx == spec_create_tx0(v));
        }

        let chain_id = fuel_chain_id(&self.network_info.consensus_parameters);
        let digest = fuel_create_id(&tx, chain_id);

        let missing = crate::script_builder::generate_missing_witnesses(
            &digest,
            &self.unresolved_signatures,
        );
        fuel_create_extend_witnesses(&mut tx, missing);
        proof {
            assert(tx == spec_finished_create(v).tx);
        }
        Ok(tx)
    }
}

} // verus!
