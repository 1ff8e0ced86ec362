//! Optional transaction-level parameters.
//!
//! A policy set is a sparse mapping from policy kind to an optional 64-bit
//! value.  Absent policies contribute zero bytes to the serialized encoding;
//! each present policy contributes one word.

use vstd::prelude::*;
use crate::offsets::WORD_SIZE;

verus! {

/// The kinds of transaction policy.
#[derive(Clone, Copy, Debug, PartialEq, Eq, Structural)]
pub enum PolicyKind {
    MaxFee,
    Maturity,
    GasPrice,
    WitnessLimit,
}

/// A sparse set of transaction policies.
#[derive(Clone, Copy, Debug, PartialEq, Eq, Structural)]
pub struct PolicySet {
    pub max_fee: Option<u64>,
    pub maturity: Option<u64>,
    pub gas_price: Option<u64>,
    pub witness_limit: Option<u64>,
}

/// Serialized bytes contributed by one optional policy value.
pub open spec fn spec_policy_width(v: Option<u64>) -> int {
    if v is Some {
        WORD_SIZE as int
    } else {
        0
    }
}

/// Serialized size of the dynamic part of a policy set: one word per
/// present policy.
pub open spec fn spec_policies_size(p: PolicySet) -> int {
    spec_policy_width(p.max_fee) + spec_policy_width(p.maturity) + spec_policy_width(p.gas_price)
        + spec_policy_width(p.witness_limit)
}

impl PolicySet {
    /// The empty policy set.
    pub fn new() -> (r: Self)
        ensures
            r == (PolicySet {
                max_fee: None,
                maturity: None,
                gas_price: None,
                witness_limit: None,
            }),
    {
        PolicySet { max_fee: None, maturity: None, gas_price: None, witness_limit: None }
    }

    /// Stores `value` under `kind`; `None` removes the policy and its byte
    /// contribution.
    pub fn set(&mut self, kind: PolicyKind, value: Option<u64>)
        ensures
            final(self).max_fee == (if kind is MaxFee {
                value
            } else {
                old(self).max_fee
            }),
            final(self).maturity == (if kind is Maturity {
                value
            } else {
                old(self).maturity
            }),
            final(self).gas_price == (if kind is GasPrice {
                value
            } else {
                old(self).gas_price
            }),
            final(self).witness_limit == (if kind is WitnessLimit {
                value
            } else {
                old(self).witness_limit
            }),
    {
        match kind {
            PolicyKind::MaxFee => self.max_fee = value,
            PolicyKind::Maturity => self.maturity = value,
            PolicyKind::GasPrice => self.gas_price = value,
            PolicyKind::WitnessLimit => self.witness_limit = value,
        }
    }

    /// Serialized size of the dynamic part of the policy set.
    pub fn size_dynamic(&self) -> (r: u64)
        ensures
            r as int == spec_policies_size(*self),
    {
        let mut size: u64 = 0;
        if self.max_fee.is_some() {
            size = size + WORD_SIZE;
        }
        if self.maturity.is_some() {
            size = size + WORD_SIZE;
        }
        if self.gas_price.is_some() {
            size = size + WORD_SIZE;
        }
        if self.witness_limit.is_some() {
            size = size + WORD_SIZE;
        }
        size
    }
}

/// The policies shared by both transaction kinds: the caller's max fee,
/// the maturity, and the gas price or the network minimum.  The witness
/// limit is added afterwards with each kind's own default.
pub fn generate_shared_fuel_policies(
    max_fee: Option<u64>,
    maturity: u32,
    gas_price: Option<u64>,
    min_gas_price: u64,
) -> (r: PolicySet)
    ensures
        r == (PolicySet {
            max_fee,
            maturity: Some(maturity as u64),
            gas_price: if gas_price is Some {
                gas_price
            } else {
                Some(min_gas_price)
            },
            witness_limit: None::<u64>,
        }),
{
    let mut policies = PolicySet::new();
    policies.set(PolicyKind::MaxFee, max_fee);
    policies.set(PolicyKind::Maturity, Some(maturity as u64));
    let price = match gas_price {
        Some(p) => Some(p),
        None => Some(min_gas_price),
    };
    policies.set(PolicyKind::GasPrice, price);
    policies
}

/// The declarative policies a caller hands to a builder, including the
/// optional explicit gas limit of a script transaction.
#[derive(Clone, Copy, Debug, PartialEq, Eq, Structural)]
pub struct TxPolicies {
    pub gas_price: Option<u64>,
    pub witness_limit: Option<u64>,
    pub maturity: u32,
    pub max_fee: Option<u64>,
    pub script_gas_limit: Option<u64>,
}

impl Default for TxPolicies {
    /// Policies with nothing set and a zero maturity.
    fn default() -> (r: Self)
        ensures
            r == (TxPolicies {
                gas_price: None,
                witness_limit: None,
                maturity: 0u32,
                max_fee: None,
                script_gas_limit: None,
            }),
    {
        TxPolicies {
            gas_price: None,
            witness_limit: None,
            maturity: 0,
            max_fee: None,
            script_gas_limit: None,
        }
    }
}

} // verus!
