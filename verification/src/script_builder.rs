//! The builder for general-purpose script transactions.
//!
//! The builder accumulates a declarative description — inputs, outputs,
//! witnesses, policies, script bytecode — plus the registry of pending
//! signatures, and is consumed by `build`, which resolves the inputs,
//! decides the gas limit (explicit value, zero for an empty script, or a
//! dry-run estimate), signs the transaction digest with every pending key,
//! and returns the native transaction.

use vstd::prelude::*;
use crate::errors::BuildError;
use crate::inputs::{TxInput, TxInputV, input_wf};
use crate::native::{
    NativeScript, addi_bytes, chain_id_of, fuel_chain_id, fuel_coin_signed, fuel_max_gas_per_tx,
    gtf_script_data_bytes, lw_bytes, ret_bytes, smo_bytes, tr_bytes,
    fuel_policies, fuel_script, fuel_script_clone, fuel_script_id, fuel_script_into_transaction,
    fuel_script_max_gas, fuel_script_push_input, fuel_script_set_gas_limit,
    fuel_script_set_witnesses, fuel_sign_digest, fuel_tx_offset, fuel_witness,
    max_gas_per_tx_of, policies_of, script_id_of, script_of,
    script_with_gas_limit, script_with_witnesses, signature_bytes_of, transaction_of_script,
    tx_offset_of, witness_of,
};
use crate::offsets::{
    SCRIPT_STATIC_OFFSET, lemma_padded_len_bounds, padded_len, spec_padded_len,
};
use crate::policies::{PolicySet, TxPolicies, spec_policies_size};
use crate::resolver::{
    input_views, lemma_offset_bound, resolve_fuel_inputs, spec_offset_through, spec_resolve_all,
};
use crate::signatures::{UnresolvedSignatures, UnresolvedSignaturesV, registry_wf};
use crate::inputs::Bech32Address;

verus! {

/// Default byte limit for the witnesses of a script transaction when the
/// caller sets none.
pub const DEFAULT_SCRIPT_WITNESS_LIMIT: u64 = 10000;

/// An immutable snapshot of the network's consensus parameters and minimum
/// gas price, supplied once at builder construction.
pub struct NetworkInfo {
    pub consensus_parameters: fuel_tx::ConsensusParameters,
    pub min_gas_price: u64,
}

impl NetworkInfo {
    pub fn new(consensus_parameters: fuel_tx::ConsensusParameters, min_gas_price: u64) -> (r:
        Self)
        ensures
            r.consensus_parameters == consensus_parameters,
            r.min_gas_price == min_gas_price,
    {
        NetworkInfo { consensus_parameters, min_gas_price }
    }

    /// The maximum gas one transaction may use on this network.
    pub fn max_gas_per_tx(&self) -> (r: u64)
        ensures
            r == max_gas_per_tx_of(self.consensus_parameters),
    {
        fuel_max_gas_per_tx(&self.consensus_parameters)
    }

    /// The network's chain identifier, which parameterizes the transaction
    /// digest.
    pub fn chain_id(&self) -> (r: u64)
        ensures
            r == chain_id_of(self.consensus_parameters),
    {
        fuel_chain_id(&self.consensus_parameters)
    }
}

/// The external dry-run capability: simulates a transaction against current
/// chain state and reports the gas it used, within a caller-supplied
/// tolerance in thousandths.  Nothing is assumed of its outcome.
pub trait DryRunner {
    fn dry_run_and_get_used_gas(&self, tx: fuel_tx::Transaction, tolerance: u32) -> Result<
        u64,
        BuildError,
    >;
}

/// A finalized script transaction, tagged with whether any of its inputs
/// used predicate authorization.
pub struct ScriptTransaction {
    pub tx: NativeScript,
    pub is_using_predicates: bool,
}

impl ScriptTransaction {
    /// The native transaction, ready for submission.
    pub fn into_fuel_transaction(self) -> (r: fuel_tx::Transaction)
        ensures
            r == transaction_of_script(self.tx),
    {
        fuel_script_into_transaction(self.tx)
    }
}

/// Builds script transactions from a declarative description.
pub struct ScriptTransactionBuilder {
    pub gas_price: Option<u64>,
    pub gas_limit: Option<u64>,
    pub witness_limit: Option<u64>,
    pub max_fee: Option<u64>,
    pub maturity: u32,
    pub script: Vec<u8>,
    pub script_data: Vec<u8>,
    pub inputs: Vec<TxInput>,
    pub outputs: Vec<fuel_tx::Output>,
    pub witnesses: Vec<Vec<u8>>,
    /// Gas-estimation tolerance in thousandths (50 means five percent).
    pub gas_estimation_tolerance: u32,
    pub network_info: NetworkInfo,
    pub unresolved_signatures: UnresolvedSignatures,
}

pub struct ScriptBuilderV {
    pub gas_price: Option<u64>,
    pub gas_limit: Option<u64>,
    pub witness_limit: Option<u64>,
    pub max_fee: Option<u64>,
    pub maturity: u32,
    pub script: Seq<u8>,
    pub script_data: Seq<u8>,
    pub inputs: Seq<TxInputV>,
    pub outputs: Seq<fuel_tx::Output>,
    pub witnesses: Seq<Seq<u8>>,
    pub gas_estimation_tolerance: u32,
    pub consensus_parameters: fuel_tx::ConsensusParameters,
    pub min_gas_price: u64,
    pub registry: UnresolvedSignaturesV,
}

impl View for ScriptTransactionBuilder {
    type V = ScriptBuilderV;

    open spec fn view(&self) -> ScriptBuilderV {
        ScriptBuilderV {
            gas_price: self.gas_price,
            gas_limit: self.gas_limit,
            witness_limit: self.witness_limit,
            max_fee: self.max_fee,
            maturity: self.maturity,
            script: self.script@,
            script_data: self.script_data@,
            inputs: input_views(self.inputs@),
            outputs: self.outputs@,
            witnesses: self.witnesses@.map(|i: int, w: Vec<u8>| w@),
            gas_estimation_tolerance: self.gas_estimation_tolerance,
            consensus_parameters: self.network_info.consensus_parameters,
            min_gas_price: self.network_info.min_gas_price,
            registry: self.unresolved_signatures@,
        }
    }
}

/// Whether any input in the list is predicate-gated.
pub open spec fn spec_uses_predicates(inputs: Seq<TxInputV>) -> bool {
    exists|k: int| 0 <= k < inputs.len() && (#[trigger] inputs[k]) is ResourcePredicate
}

/// Whether explicit witnesses plus pending signature keys exceed the
/// witness limit.
pub open spec fn spec_witness_overflow(witnesses: Seq<Seq<u8>>, reg: UnresolvedSignaturesV) -> bool {
    witnesses.len() + reg.secret_keys.len() > 256
}

/// The explicit witness count handed to the resolver.
pub open spec fn spec_num_witnesses(witnesses: Seq<Seq<u8>>) -> u8 {
    (witnesses.len() % 256) as u8
}

/// The policy set a script build serializes: the caller's max fee, the
/// maturity, the gas price or the network minimum, and the witness limit or
/// its default.
pub open spec fn spec_script_policy_set(v: ScriptBuilderV) -> PolicySet {
    PolicySet {
        max_fee: v.max_fee,
        maturity: Some(v.maturity as u64),
        gas_price: if v.gas_price is Some {
            v.gas_price
        } else {
            Some(v.min_gas_price)
        },
        witness_limit: if v.witness_limit is Some {
            v.witness_limit
        } else {
            Some(DEFAULT_SCRIPT_WITNESS_LIMIT)
        },
    }
}

/// The native policies of a script build.
pub open spec fn spec_script_native_policies(v: ScriptBuilderV) -> fuel_tx::policies::Policies {
    let p = spec_script_policy_set(v);
    policies_of(p.gas_price, p.witness_limit, p.maturity, p.max_fee)
}

/// The base offset of a script build: zero when no input is
/// predicate-gated (nothing must self-locate), otherwise the size of the
/// transaction's fixed header plus the padded script and script data.
pub open spec fn spec_script_base_offset(v: ScriptBuilderV) -> int {
    if spec_uses_predicates(v.inputs) {
        tx_offset_of(v.consensus_parameters) + SCRIPT_STATIC_OFFSET + spec_padded_len(
            v.script_data.len() as int,
        ) + spec_padded_len(v.script.len() as int)
    } else {
        0
    }
}

/// The offset at which input resolution starts: the base offset plus the
/// serialized size of the policies.
pub open spec fn spec_script_resolve_start(v: ScriptBuilderV) -> int {
    spec_script_base_offset(v) + spec_policies_size(spec_script_policy_set(v))
}

/// The native inputs a script build resolves to, or `None` when a
/// signature is missing.
pub open spec fn spec_script_inputs(v: ScriptBuilderV) -> Option<Seq<fuel_tx::Input>> {
    spec_resolve_all(
        v.inputs,
        spec_script_resolve_start(v),
        spec_num_witnesses(v.witnesses),
        v.registry.entries,
    )
}

/// How many placeholder witnesses the dry-run transaction carries: one per
/// explicit witness and pending address, and at least one.
pub open spec fn spec_dry_run_witness_count(v: ScriptBuilderV) -> int {
    let c = spec_num_witnesses(v.witnesses) as int + v.registry.entries.len() as int;
    if c < 1 {
        1
    } else {
        c
    }
}

/// The placeholder witnesses of the dry run: empty byte blobs.
pub open spec fn spec_dry_run_witnesses(v: ScriptBuilderV) -> Seq<fuel_tx::Witness> {
    Seq::new(spec_dry_run_witness_count(v) as nat, |i: int| witness_of(Seq::<u8>::empty()))
}

/// The native transaction before the gas limit is decided, carrying the
/// dry-run placeholder witnesses.
pub open spec fn spec_script_tx0(v: ScriptBuilderV) -> NativeScript {
    script_of(
        0,
        v.script,
        v.script_data,
        spec_script_native_policies(v),
        spec_script_inputs(v).unwrap(),
        v.outputs,
        spec_dry_run_witnesses(v),
    )
}

/// The transaction digest once the gas limit is set to `gas_limit`.
pub open spec fn spec_script_digest(v: ScriptBuilderV, gas_limit: u64) -> Seq<u8> {
    script_id_of(
        script_with_gas_limit(spec_script_tx0(v), gas_limit),
        chain_id_of(v.consensus_parameters),
    )
}

/// One signature witness per pending key, in registry order.
pub open spec fn spec_missing_witnesses(
    keys: Seq<fuel_crypto::SecretKey>,
    digest: Seq<u8>,
) -> Seq<fuel_tx::Witness> {
    Seq::new(keys.len(), |i: int| witness_of(signature_bytes_of(keys[i], digest)))
}

/// The final witness list: the caller's witnesses followed by the
/// generated signature witnesses.
pub open spec fn spec_script_final_witnesses(
    v: ScriptBuilderV,
    gas_limit: u64,
) -> Seq<fuel_tx::Witness> {
    v.witnesses.map(|i: int, w: Seq<u8>| witness_of(w)) + spec_missing_witnesses(
        v.registry.secret_keys,
        spec_script_digest(v, gas_limit),
    )
}

/// The finished transaction a script build produces under gas limit
/// `gas_limit`.
pub open spec fn spec_finished_script(v: ScriptBuilderV, gas_limit: u64) -> ScriptTransaction {
    ScriptTransaction {
        tx: script_with_witnesses(
            script_with_gas_limit(spec_script_tx0(v), gas_limit),
            spec_script_final_witnesses(v, gas_limit),
        ),
        is_using_predicates: spec_uses_predicates(v.inputs),
    }
}

/// The gas limit decided without the estimator: zero for an empty script,
/// else the caller's explicit limit, else undecided.
pub open spec fn spec_fixed_gas_limit(v: ScriptBuilderV) -> Option<u64> {
    if v.script.len() == 0 {
        Some(0)
    } else {
        v.gas_limit
    }
}

/// What a build needs of its description: a well-formed registry and
/// inputs, and offsets that fit the machine word.
pub open spec fn spec_script_ready(v: ScriptBuilderV) -> bool {
    &&& registry_wf(v.registry)
    &&& forall|j: int| 0 <= j < v.inputs.len() ==> input_wf(#[trigger] v.inputs[j])
    &&& spec_offset_through(v.inputs, v.inputs.len() as int, spec_script_resolve_start(v))
        <= u64::MAX
}

/// Determinism: the finished transaction is a function of the builder's
/// description and the dry run's answer alone, so two builders with equal
/// descriptions finish identically under the same reported gas.
pub proof fn lemma_script_build_deterministic(
    first: ScriptBuilderV,
    second: ScriptBuilderV,
    gas_limit: u64,
)
    requires
        first == second,
    ensures
        spec_finished_script(first, gas_limit) == spec_finished_script(second, gas_limit),
        spec_script_inputs(first) == spec_script_inputs(second),
{
}

impl ScriptTransactionBuilder {
    /// A builder with nothing configured.
    pub fn new(network_info: NetworkInfo) -> (r: ScriptTransactionBuilder)
        ensures
            r@.gas_price is None,
            r@.gas_limit is None,
            r@.witness_limit is None,
            r@.max_fee is None,
            r@.maturity == 0u32,
            r@.script == Seq::<u8>::empty(),
            r@.script_data == Seq::<u8>::empty(),
            r@.inputs == Seq::<TxInputV>::empty(),
            r@.outputs == Seq::<fuel_tx::Output>::empty(),
            r@.witnesses == Seq::<Seq<u8>>::empty(),
            r@.gas_estimation_tolerance == 50u32,
            r@.consensus_parameters == network_info.consensus_parameters,
            r@.min_gas_price == network_info.min_gas_price,
            r@.registry.entries == Seq::<(Seq<u8>, u64)>::empty(),
            r@.registry.secret_keys == Seq::<fuel_crypto::SecretKey>::empty(),
            registry_wf(r@.registry),
    {
        let r = ScriptTransactionBuilder {
            gas_price: None,
            gas_limit: None,
            witness_limit: None,
            max_fee: None,
            maturity: 0,
            script: Vec::new(),
            script_data: Vec::new(),
            inputs: Vec::new(),
            outputs: Vec::new(),
            witnesses: Vec::new(),
            gas_estimation_tolerance: 50,
            network_info,
            unresolved_signatures: UnresolvedSignatures::new(),
        };
        proof {
            assert(r@.inputs =~= Seq::<TxInputV>::empty());
            assert(r@.witnesses =~= Seq::<Seq<u8>>::empty());
        }
        r
    }

    pub fn with_script(self, script: Vec<u8>) -> (r: Self)
        ensures
            r@ == (ScriptBuilderV { script: script@, ..self@ }),
    {
        ScriptTransactionBuilder { script, ..self }
    }

    pub fn with_script_data(self, script_data: Vec<u8>) -> (r: Self)
        ensures
            r@ == (ScriptBuilderV { script_data: script_data@, ..self@ }),
    {
        ScriptTransactionBuilder { script_data, ..self }
    }

    /// Sets the gas-estimation tolerance, in thousandths.
    pub fn with_gas_estimation_tolerance(self, tolerance: u32) -> (r: Self)
        ensures
            r@ == (ScriptBuilderV { gas_estimation_tolerance: tolerance, ..self@ }),
    {
        ScriptTransactionBuilder { gas_estimation_tolerance: tolerance, ..self }
    }

    /// Sets an explicit gas limit; the estimator is then never consulted.
    pub fn with_gas_limit(self, gas_limit: u64) -> (r: Self)
        ensures
            r@ == (ScriptBuilderV { gas_limit: Some(gas_limit), ..self@ }),
    {
        ScriptTransactionBuilder { gas_limit: Some(gas_limit), ..self }
    }

    pub fn with_maturity(self, maturity: u32) -> (r: Self)
        ensures
            r@ == (ScriptBuilderV { maturity, ..self@ }),
    {
        ScriptTransactionBuilder { maturity, ..self }
    }

    pub fn with_gas_price(self, gas_price: u64) -> (r: Self)
        ensures
            r@ == (ScriptBuilderV { gas_price: Some(gas_price), ..self@ }),
    {
        ScriptTransactionBuilder { gas_price: Some(gas_price), ..self }
    }

    pub fn with_inputs(self, inputs: Vec<TxInput>) -> (r: Self)
        ensures
            r@ == (ScriptBuilderV { inputs: input_views(inputs@), ..self@ }),
    {
        ScriptTransactionBuilder { inputs, ..self }
    }

    pub fn with_outputs(self, outputs: Vec<fuel_tx::Output>) -> (r: Self)
        ensures
            r@ == (ScriptBuilderV { outputs: outputs@, ..self@ }),
    {
        ScriptTransactionBuilder { outputs, ..self }
    }

    pub fn with_witnesses(self, witnesses: Vec<Vec<u8>>) -> (r: Self)
        ensures
            r@ == (ScriptBuilderV {
                witnesses: witnesses@.map(|i: int, w: Vec<u8>| w@),
                ..self@
            }),
    {
        ScriptTransactionBuilder { witnesses, ..self }
    }

    /// Applies a whole declarative policy set, including the optional
    /// explicit gas limit.
    pub fn with_tx_policies(self, tx_policies: TxPolicies) -> (r: Self)
        ensures
            r@ == (ScriptBuilderV {
                gas_limit: tx_policies.script_gas_limit,
                gas_price: tx_policies.gas_price,
                witness_limit: tx_policies.witness_limit,
                max_fee: tx_policies.max_fee,
                maturity: tx_policies.maturity,
                ..self@
            }),
    {
        ScriptTransactionBuilder {
            gas_limit: tx_policies.script_gas_limit,
            gas_price: tx_policies.gas_price,
            witness_limit: tx_policies.witness_limit,
            max_fee: tx_policies.max_fee,
            maturity: tx_policies.maturity,
            ..self
        }
    }

    /// Registers a pending signature: `secret_key` will sign the final
    /// digest on behalf of `owner`.
    pub fn add_unresolved_signature(&mut self, owner: Bech32Address, secret_key:
        fuel_crypto::SecretKey)
        requires
            registry_wf(old(self)@.registry),
        ensures
            final(self)@ == (ScriptBuilderV { registry: final(self)@.registry, ..old(self)@ }),
            final(self)@.registry.secret_keys == old(self)@.registry.secret_keys.push(secret_key),
            registry_wf(final(self)@.registry),
            forall|a: Seq<u8>|
                #[trigger] crate::signatures::spec_lookup(final(self)@.registry.entries, a) == (
                if a == owner@ {
                    Some(old(self)@.registry.secret_keys.len() as u64)
                } else {
                    crate::signatures::spec_lookup(old(self)@.registry.entries, a)
                }),
    {
        self.unresolved_signatures.add(owner, secret_key);
    }

    pub fn inputs(&self) -> (r: &Vec<TxInput>)
        ensures
            r == &self.inputs,
    {
        &self.inputs
    }

    pub fn inputs_mut(&mut self) -> (r: &mut Vec<TxInput>)
        ensures
            *r == old(self).inputs,
            final(self)@ == (ScriptBuilderV { inputs: input_views((*final(r))@), ..old(self)@ }),
    {
        &mut self.inputs
    }

    pub fn outputs_mut(&mut self) -> (r: &mut Vec<fuel_tx::Output>)
        ensures
            *r == old(self).outputs,
            final(self)@ == (ScriptBuilderV { outputs: (*final(r))@, ..old(self)@ }),
    {
        &mut self.outputs
    }

    pub fn witnesses_mut(&mut self) -> (r: &mut Vec<Vec<u8>>)
        ensures
            *r == old(self).witnesses,
            final(self)@ == (ScriptBuilderV {
                witnesses: (*final(r))@.map(|i: int, w: Vec<u8>| w@),
                ..old(self)@
            }),
    {
        &mut self.witnesses
    }

    pub fn outputs(&self) -> (r: &Vec<fuel_tx::Output>)
        ensures
            r == &self.outputs,
    {
        &self.outputs
    }

    pub fn witnesses(&self) -> (r: &Vec<Vec<u8>>)
        ensures
            r == &self.witnesses,
    {
        &self.witnesses
    }

    pub fn consensus_parameters(&self) -> (r: &fuel_tx::ConsensusParameters)
        ensures
            r == &self.network_info.consensus_parameters,
    {
        &self.network_info.consensus_parameters
    }

    /// Whether any configured input is predicate-gated, which decides
    /// whether offsets must be computed at all.
    pub fn is_using_predicates(&self) -> (r: bool)
        ensures
            r == spec_uses_predicates(self@.inputs),
    {
        uses_predicates(&self.inputs)
    }

    /// The explicit witness count, or the over-limit failure when explicit
    /// witnesses plus pending keys exceed the witness limit.
    fn num_witnesses(&self) -> (r: Result<u8, BuildError>)
        ensures
            r is Err <==> spec_witness_overflow(self@.witnesses, self@.registry),
            r is Err ==> r == Err::<u8, BuildError>(BuildError::TooManyWitnesses),
            r matches Ok(n) ==> n == spec_num_witnesses(self@.witnesses),
    {
        num_witnesses_checked(self.witnesses.len(), self.unresolved_signatures.num_keys())
    }

    /// The byte offset of the first input's dynamic region when offsets
    /// matter: the fixed script header plus the padded script and script
    /// data.
    fn base_offset(&self) -> (r: u64)
        requires
            spec_script_ready(self@),
            spec_uses_predicates(self@.inputs),
        ensures
            r as int == spec_script_base_offset(self@),
    {
        proof {
            lemma_offset_bound(self@.inputs, 0, spec_script_resolve_start(self@));
            lemma_padded_len_bounds(self@.script_data.len() as int);
            lemma_padded_len_bounds(self@.script.len() as int);
        }
        fuel_tx_offset(&self.network_info.consensus_parameters) + SCRIPT_STATIC_OFFSET
            + padded_len(self.script_data.len() as u64) + padded_len(self.script.len() as u64)
    }

    /// Empty placeholder witnesses for the dry run: the node checks the
    /// witness count but not signatures, so the total must already match
    /// the expected one, and be at least one.
    fn create_dry_run_witnesses(&self, num_witnesses: u8) -> (r: Vec<fuel_tx::Witness>)
        requires
            registry_wf(self@.registry),
            !spec_witness_overflow(self@.witnesses, self@.registry),
            num_witnesses == spec_num_witnesses(self@.witnesses),
        ensures
            r@ == spec_dry_run_witnesses(self@),
    {
        let pending = self.unresolved_signatures.num_pending();
        let want: usize = if num_witnesses as usize + pending < 1 {
            1
        } else {
            num_witnesses as usize + pending
        };
        let mut dry_run_witnesses: Vec<fuel_tx::Witness> = Vec::new();
        let mut c: usize = 0;
        while c < want
            invariant
                c <= want,
                dry_run_witnesses@.len() == c,
                forall|j: int|
                    0 <= j < c ==> dry_run_witnesses@[j] == witness_of(Seq::<u8>::empty()),
            decreases want - c,
        {
            dry_run_witnesses.push(fuel_witness(Vec::new()));
            c += 1;
        }
        proof {
            assert(dry_run_witnesses@ =~= spec_dry_run_witnesses(self@));
        }
        dry_run_witnesses
    }

    /// Obtains the transaction's real gas consumption from the dry-run
    /// capability and sets it as the gas limit.  The dry run sees a copy
    /// with a provisional budget and one synthetic funding input, so its
    /// fee validation passes even without real inputs; the copy is
    /// discarded afterwards, so the funding input never survives.
    fn set_script_gas_limit_to_gas_used<T: DryRunner>(
        tx: &mut NativeScript,
        provider: &T,
        network_info: &NetworkInfo,
        tolerance: u32,
    ) -> (r: Result<(), BuildError>)
        ensures
            r is Ok ==> exists|g: u64|
                *final(tx) == #[trigger] script_with_gas_limit(*old(tx), g),
            r is Err ==> r == Err::<(), BuildError>(BuildError::DryRunFailed),
    {
        // One more than the non-execution overhead absorbs rounding; half
        // the network budget is kept as inherited headroom.
        let max_gas = fuel_script_max_gas(tx, &network_info.consensus_parameters);
        let max_gas_plus_one: u64 = if max_gas == u64::MAX {
            u64::MAX
        } else {
            max_gas + 1
        };
        let half_budget = fuel_max_gas_per_tx(&network_info.consensus_parameters) / 2;
        let provisional: u64 = if half_budget >= max_gas_plus_one {
            half_budget - max_gas_plus_one
        } else {
            0
        };
        let mut dry_tx = fuel_script_clone(tx);
        fuel_script_set_gas_limit(&mut dry_tx, provisional);
        let zero_id = zeroed_bytes32();
        let zero_owner = zeroed_bytes32();
        let zero_asset = zeroed_bytes32();
        let funding = fuel_coin_signed(&zero_id, 0, &zero_owner, 1000000000, &zero_asset, 0);
        fuel_script_push_input(&mut dry_tx, funding);
        let dry_transaction = fuel_script_into_transaction(dry_tx);
        let gas_used = match provider.dry_run_and_get_used_gas(dry_transaction, tolerance) {
            Ok(g) => g,
            Err(_) => {
                return Err(BuildError::DryRunFailed);
            }
        };
        fuel_script_set_gas_limit(tx, gas_used);
        Ok(())
    }

    /// Builds the transaction.  Fails when the witness limit is exceeded or
    /// a signature is missing; otherwise the result is the deterministic
    /// function of the description and the decided gas limit: the explicit
    /// limit, zero for an empty script, or the dry run's reported usage.
    /// The synthetic funding input of the dry run never appears in the
    /// result.
    pub fn build<T: DryRunner>(self, provider: &T) -> (r: Result<ScriptTransaction, BuildError>)
        requires
            spec_script_ready(self@),
        ensures
            spec_witness_overflow(self@.witnesses, self@.registry) <==> r == Err::<
                ScriptTransaction,
                BuildError,
            >(BuildError::TooManyWitnesses),
            !spec_witness_overflow(self@.witnesses, self@.registry) ==> {
                &&& (spec_script_inputs(self@) is None <==> r == Err::<
                    ScriptTransaction,
                    BuildError,
                >(BuildError::MissingSignature))
                &&& spec_script_inputs(self@) is Some ==> match spec_fixed_gas_limit(self@) {
                    Some(g) => r == Ok::<ScriptTransaction, BuildError>(
                        spec_finished_script(self@, g),
                    ),
                    None => {
                        &&& (r matches Ok(t) ==> exists|g: u64|
                            t == #[trigger] spec_finished_script(self@, g))
                        &&& (r matches Err(e) ==> e == BuildError::DryRunFailed)
                    },
                }
            },
    {
        let ghost v = self@;
        let is_using_predicates = self.is_using_predicates();
        let base_offset: u64 = if is_using_predicates {
            self.base_offset()
        } else {
            0
        };
        let num_witnesses = match self.num_witnesses() {
            Ok(n) => n,
            Err(e) => {
                return Err(e);
            }
        };
        let tx = match self.resolve_fuel_tx_provider(base_offset, num_witnesses, provider) {
            Ok(t) => t,
            Err(e) => {
                return Err(e);
            }
        };
        let result = ScriptTransaction { tx, is_using_predicates };
        proof {
            if spec_script_inputs(v) is Some {
                match spec_fixed_gas_limit(v) {
                    Some(g) => {
                        assert(result == spec_finished_script(v, g));
                    }
                    None => {
                        let g = choose|g: u64|
                            result.tx == #[trigger] spec_finished_script(v, g).tx;
                        assert(result == spec_finished_script(v, g));
                    }
                }
            }
        }
        Ok(result)
    }

    /// Resolves the declarative description into the native transaction:
    /// policies, inputs with their witness indices and offsets, the gas
    /// limit, the digest and the signature witnesses, in that order.
    fn resolve_fuel_tx_provider<T: DryRunner>(
        self,
        base_offset: u64,
        num_witnesses: u8,
        provider: &T,
    ) -> (r: Result<NativeScript, BuildError>)
        requires
            spec_script_ready(self@),
            base_offset as int == spec_script_base_offset(self@),
            num_witnesses == spec_num_witnesses(self@.witnesses),
            !spec_witness_overflow(self@.witnesses, self@.registry),
        ensures
            spec_script_inputs(self@) is None <==> r == Err::<NativeScript, BuildError>(
                BuildError::MissingSignature,
            ),
            spec_script_inputs(self@) is Some ==> match spec_fixed_gas_limit(self@) {
                Some(g) => r == Ok::<NativeScript, BuildError>(
                    spec_finished_script(self@, g).tx,
                ),
                None => {
                    &&& (r matches Ok(t) ==> exists|g: u64|
                        t == #[trigger] spec_finished_script(self@, g).tx)
                    &&& (r matches Err(e) ==> e == BuildError::DryRunFailed)
                },
            },
    {
        let ghost v = self@;
        let has_no_code = self.script.len() == 0;

        // The policies of the final transaction.
        let mut policy_set = crate::policies::generate_shared_fuel_policies(
            self.max_fee,
            self.maturity,
            self.gas_price,
            self.network_info.min_gas_price,
        );
        let witness_limit = match self.witness_limit {
            Some(l) => Some(l),
            None => Some(DEFAULT_SCRIPT_WITNESS_LIMIT),
        };
        policy_set.set(crate::policies::PolicyKind::WitnessLimit, witness_limit);
        proof {
            assert(policy_set == spec_script_policy_set(v));
        }

        // The offset at which input resolution starts.
        proof {
            lemma_offset_bound(v.inputs, 0, spec_script_resolve_start(v));
        }
        let resolve_start = base_offset + policy_set.size_dynamic();

        // Placeholder witnesses so the dry run's witness-count check passes.
        let dry_run_witnesses = self.create_dry_run_witnesses(num_witnesses);

        let natives = match resolve_fuel_inputs(
            self.inputs,
            resolve_start,
            num_witnesses,
            &self.unresolved_signatures,
        ) {
            Ok(n) => n,
            Err(e) => {
                return Err(e);
            }
        };

        let native_policies = fuel_policies(
            policy_set.gas_price,
            policy_set.witness_limit,
            policy_set.maturity,
            policy_set.max_fee,
        );
        let mut tx = fuel_script(
            0,
            self.script,
            self.script_data,
            native_policies,
            natives,
            self.outputs,
            dry_run_witnesses,
        );
        proof {
            assert(tx == spec_script_tx0(v));
        }

        // Decide the gas limit: zero for an empty script, the explicit
        // value when one was given, otherwise the dry run's usage.
        let ghost mut decided: u64 = 0;
        if has_no_code {
            fuel_script_set_gas_limit(&mut tx, 0);
            proof {
                decided = 0;
                assert(tx == script_with_gas_limit(spec_script_tx0(v), decided));
            }
        } else if let Some(gas_limit) = self.gas_limit {
            fuel_script_set_gas_limit(&mut tx, gas_limit);
            proof {
                decided = gas_limit;
                assert(tx == script_with_gas_limit(spec_script_tx0(v), decided));
            }
        } else {
            match Self::set_script_gas_limit_to_gas_used(
                &mut tx,
                provider,
                &self.network_info,
                self.gas_estimation_tolerance,
            ) {
                Ok(u) => u,
                Err(e) => {
                    return Err(e);
                }
            };
            proof {
                decided = choose|g: u64|
                    tx == #[trigger] script_with_gas_limit(spec_script_tx0(v), g);
                assert(tx == script_with_gas_limit(spec_script_tx0(v), decided));
            }
        }
        proof {
            assert(tx == script_with_gas_limit(spec_script_tx0(v), decided));
        }

        let chain_id = fuel_chain_id(&self.network_info.consensus_parameters);
        let digest = fuel_script_id(&tx, chain_id);
        proof {
            assert(digest@ == spec_script_digest(v, decided));
        }

        // The caller's witnesses, followed by one signature witness per
        // pending key.
        let mut missing_witnesses = generate_missing_witnesses(
            &digest,
            &self.unresolved_signatures,
        );
        let mut final_witnesses: Vec<fuel_tx::Witness> = Vec::new();
        let user_count = self.witnesses.len();
        let mut i: usize = 0;
        while i < user_count
            invariant
                i <= user_count,
                user_count == self.witnesses@.len(),
                final_witnesses@.len() == i,
                forall|j: int|
                    0 <= j < i ==> final_witnesses@[j] == witness_of(self.witnesses@[j]@),
            decreases user_count - i,
        {
            let w = crate::resolver::copy_bytes(&self.witnesses[i]);
            final_witnesses.push(fuel_witness(w));
            i += 1;
        }
        final_witnesses.append(&mut missing_witnesses);
        proof {
            assert(final_witnesses@ =~= spec_script_final_witnesses(v, decided));
        }
        fuel_script_set_witnesses(&mut tx, final_witnesses);
        proof {
            assert(tx == spec_finished_script(v, decided).tx);
        }
        Ok(tx)
    }
}

/// One signature witness per pending key, in registry order, produced by
/// signing the transaction digest with each key.
pub fn generate_missing_witnesses(
    id: &Vec<u8>,
    unresolved_signatures: &UnresolvedSignatures,
) -> (r: Vec<fuel_tx::Witness>)
    requires
        id@.len() == 32,
    ensures
        r@ == spec_missing_witnesses(unresolved_signatures@.secret_keys, id@),
{
    let key_count = unresolved_signatures.num_keys();
    let mut witnesses: Vec<fuel_tx::Witness> = Vec::new();
    let mut k: usize = 0;
    while k < key_count
        invariant
            k <= key_count,
            key_count == unresolved_signatures@.secret_keys.len(),
            id@.len() == 32,
            witnesses@.len() == k,
            forall|j: int|
                0 <= j < k ==> witnesses@[j] == witness_of(
                    signature_bytes_of(unresolved_signatures@.secret_keys[j], id@),
                ),
        decreases key_count - k,
    {
        let signature = fuel_sign_digest(&unresolved_signatures.secret_keys[k], id);
        witnesses.push(fuel_witness(signature));
        k += 1;
    }
    proof {
        assert(witnesses@ =~= spec_missing_witnesses(unresolved_signatures@.secret_keys, id@));
    }
    witnesses
}

/// Whether any input in the vector is predicate-gated.
pub fn uses_predicates(inputs: &Vec<TxInput>) -> (r: bool)
    ensures
        r == spec_uses_predicates(input_views(inputs@)),
{
    let ghost views = input_views(inputs@);
    let n = inputs.len();
    let mut i: usize = 0;
    while i < n
        invariant
            n == inputs@.len(),
            views == input_views(inputs@),
            views.len() == n,
            i <= n,
            forall|j: int| 0 <= j < i ==> !((#[trigger] views[j]) is ResourcePredicate),
        decreases n - i,
    {
        let is_pred = match &inputs[i] {
            TxInput::ResourcePredicate { .. } => true,
            _ => false,
        };
        if is_pred {
            proof {
                assert(views[i as int] is ResourcePredicate);
            }
            return true;
        }
        i += 1;
    }
    false
}

/// The explicit witness count, failing when explicit witnesses plus
/// pending keys exceed the 256-slot witness limit, and not before.
pub fn num_witnesses_checked(witness_count: usize, key_count: usize) -> (r: Result<u8, BuildError>)
    ensures
        r is Err <==> witness_count + key_count > 256,
        r is Err ==> r == Err::<u8, BuildError>(BuildError::TooManyWitnesses),
        r matches Ok(n) ==> n as int == witness_count as int % 256,
{
    if witness_count > 256 || key_count > 256 - witness_count {
        Err(BuildError::TooManyWitnesses)
    } else {
        Ok((witness_count % 256) as u8)
    }
}

/// The all-zero 32-byte value: the base asset's identifier, and the
/// placeholder for unset hashes.
pub open spec fn spec_zeroed32() -> Seq<u8> {
    Seq::new(32, |i: int| 0u8)
}

/// A 32-byte zero value.
pub fn zeroed_bytes32() -> (r: Vec<u8>)
    ensures
        r@ == spec_zeroed32(),
        r@.len() == 32,
{
    let mut out: Vec<u8> = Vec::new();
    let mut i: usize = 0;
    while i < 32
        invariant
            out@.len() == i,
            i <= 32,
            forall|j: int| 0 <= j < i ==> out@[j] == 0u8,
        decreases 32 - i,
    {
        out.push(0);
        i += 1;
    }
    proof {
        assert(out@ =~= spec_zeroed32());
    }
    out
}

/// Appends `src` to `dst`.
pub fn append_bytes(dst: &mut Vec<u8>, src: &Vec<u8>)
    ensures
        final(dst)@ == old(dst)@ + src@,
{
    let ghost base = dst@;
    let n = src.len();
    let mut i: usize = 0;
    while i < n
        invariant
            n == src@.len(),
            i <= n,
            dst@ == base + src@.take(i as int),
        decreases n - i,
    {
        dst.push(src[i]);
        i += 1;
        proof {
            assert(dst@ =~= base + src@.take(i as int));
        }
    }
    proof {
        assert(src@.take(n as int) =~= src@);
    }
}

/// The bytecode of the helper script that transfers funds to a contract:
/// it loads a pointer to the contract id, the amount, and a pointer to the
/// asset id into three registers and runs the transfer instruction.
pub open spec fn spec_contract_transfer_script() -> Seq<u8> {
    gtf_script_data_bytes(16, 0) + addi_bytes(17, 16, 32) + lw_bytes(18, 17, 0) + addi_bytes(
        19,
        17,
        8,
    ) + tr_bytes(16, 18, 19) + ret_bytes(1)
}

/// The bytecode of the helper script that sends a message to the base
/// chain: it loads a pointer to the recipient and the amount into two
/// registers and runs the message-send instruction.
pub open spec fn spec_message_output_script() -> Seq<u8> {
    gtf_script_data_bytes(16, 0) + addi_bytes(17, 16, 32) + lw_bytes(17, 17, 0) + smo_bytes(
        16,
        0,
        0,
        17,
    ) + ret_bytes(1)
}

impl ScriptTransactionBuilder {
    /// A plain value transfer: inputs, outputs and policies with no script.
    pub fn prepare_transfer(
        inputs: Vec<TxInput>,
        outputs: Vec<fuel_tx::Output>,
        tx_policies: TxPolicies,
        network_info: NetworkInfo,
    ) -> (r: Self)
        ensures
            r@.inputs == input_views(inputs@),
            r@.outputs == outputs@,
            r@.script == Seq::<u8>::empty(),
            r@.script_data == Seq::<u8>::empty(),
            r@.gas_limit == tx_policies.script_gas_limit,
            r@.gas_price == tx_policies.gas_price,
            r@.witness_limit == tx_policies.witness_limit,
            r@.max_fee == tx_policies.max_fee,
            r@.maturity == tx_policies.maturity,
            r@.witnesses == Seq::<Seq<u8>>::empty(),
            r@.consensus_parameters == network_info.consensus_parameters,
            r@.min_gas_price == network_info.min_gas_price,
            r@.registry.entries == Seq::<(Seq<u8>, u64)>::empty(),
            r@.registry.secret_keys == Seq::<fuel_crypto::SecretKey>::empty(),
            registry_wf(r@.registry),
    {
        ScriptTransactionBuilder::new(network_info).with_inputs(inputs).with_outputs(
            outputs,
        ).with_tx_policies(tx_policies)
    }

    /// A transfer of funds to a contract: a fixed two-phase script that
    /// reads the contract id, amount and asset id from the script data and
    /// runs the transfer instruction.
    pub fn prepare_contract_transfer(
        to: Vec<u8>,
        amount: u64,
        asset_id: Vec<u8>,
        inputs: Vec<TxInput>,
        outputs: Vec<fuel_tx::Output>,
        tx_policies: TxPolicies,
        network_info: NetworkInfo,
    ) -> (r: Self)
        ensures
            r@.script == spec_contract_transfer_script(),
            r@.script_data == to@ + crate::inputs::spec_u64_be(amount) + asset_id@,
            r@.inputs == input_views(inputs@),
            r@.outputs == outputs@,
            r@.gas_limit == tx_policies.script_gas_limit,
            r@.gas_price == tx_policies.gas_price,
            r@.witness_limit == tx_policies.witness_limit,
            r@.max_fee == tx_policies.max_fee,
            r@.maturity == tx_policies.maturity,
            r@.witnesses == Seq::<Seq<u8>>::empty(),
            r@.consensus_parameters == network_info.consensus_parameters,
            r@.min_gas_price == network_info.min_gas_price,
            r@.registry.entries == Seq::<(Seq<u8>, u64)>::empty(),
            r@.registry.secret_keys == Seq::<fuel_crypto::SecretKey>::empty(),
            registry_wf(r@.registry),
    {
        let mut script_data = to;
        crate::inputs::push_u64_be(&mut script_data, amount);
        append_bytes(&mut script_data, &asset_id);

        let mut script = crate::native::fuel_op_gtf_script_data(16, 0);
        let instr = crate::native::fuel_op_addi(17, 16, 32);
        append_bytes(&mut script, &instr);
        let instr = crate::native::fuel_op_lw(18, 17, 0);
        append_bytes(&mut script, &instr);
        let instr = crate::native::fuel_op_addi(19, 17, 8);
        append_bytes(&mut script, &instr);
        let instr = crate::native::fuel_op_tr(16, 18, 19);
        append_bytes(&mut script, &instr);
        let instr = crate::native::fuel_op_ret(1);
        append_bytes(&mut script, &instr);
        proof {
            assert(script@ =~= spec_contract_transfer_script());
        }

        ScriptTransactionBuilder::new(network_info).with_script(script).with_script_data(
            script_data,
        ).with_inputs(inputs).with_outputs(outputs).with_tx_policies(tx_policies)
    }

    /// A transfer of funds to the base chain: a fixed script that reads the
    /// recipient and amount from the script data and runs the message-send
    /// instruction, with one change output to the recipient in the base
    /// asset.
    pub fn prepare_message_to_output(
        to: Vec<u8>,
        amount: u64,
        inputs: Vec<TxInput>,
        tx_policies: TxPolicies,
        network_info: NetworkInfo,
    ) -> (r: Self)
        requires
            to@.len() == 32,
        ensures
            r@.script == spec_message_output_script(),
            r@.script_data == to@ + crate::inputs::spec_u64_be(amount),
            r@.inputs == input_views(inputs@),
            r@.outputs == seq![crate::native::change_output(to@, 0, spec_zeroed32())],
            r@.gas_limit == tx_policies.script_gas_limit,
            r@.gas_price == tx_policies.gas_price,
            r@.witness_limit == tx_policies.witness_limit,
            r@.max_fee == tx_policies.max_fee,
            r@.maturity == tx_policies.maturity,
            r@.witnesses == Seq::<Seq<u8>>::empty(),
            r@.consensus_parameters == network_info.consensus_parameters,
            r@.min_gas_price == network_info.min_gas_price,
            r@.registry.entries == Seq::<(Seq<u8>, u64)>::empty(),
            r@.registry.secret_keys == Seq::<fuel_crypto::SecretKey>::empty(),
            registry_wf(r@.registry),
    {
        let mut script_data = crate::resolver::copy_bytes(&to);
        crate::inputs::push_u64_be(&mut script_data, amount);

        let mut script = crate::native::fuel_op_gtf_script_data(16, 0);
        let instr = crate::native::fuel_op_addi(17, 16, 32);
        append_bytes(&mut script, &instr);
        let instr = crate::native::fuel_op_lw(17, 17, 0);
        append_bytes(&mut script, &instr);
        let instr = crate::native::fuel_op_smo(16, 0, 0, 17);
        append_bytes(&mut script, &instr);
        let instr = crate::native::fuel_op_ret(1);
        append_bytes(&mut script, &instr);
        proof {
            assert(script@ =~= spec_message_output_script());
        }

        let base_asset = zeroed_bytes32();
        let change = crate::native::fuel_change_output(&to, 0, &base_asset);
        let mut outputs: Vec<fuel_tx::Output> = Vec::new();
        outputs.push(change);
        proof {
            assert(outputs@ =~= seq![crate::native::change_output(to@, 0, spec_zeroed32())]);
        }

        ScriptTransactionBuilder::new(network_info).with_tx_policies(tx_policies).with_script(
            script,
        ).with_script_data(script_data).with_inputs(inputs).with_outputs(outputs)
    }
}

} // verus!
