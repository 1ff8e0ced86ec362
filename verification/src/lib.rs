//! Builders that assemble, resolve and finalize transactions for a
//! UTXO-style virtual-machine chain.
//!
//! A caller describes a transaction declaratively (inputs, outputs, script
//! bytecode, policies) and registers secret keys for the inputs that need
//! signatures.  The builders compute witness indices, byte offsets for
//! self-locating predicate data, and the gas limit (explicit, zero for an
//! empty script, or taken from a dry run), then sign the transaction digest
//! with every pending key and return the chain's native transaction.

pub mod create_builder;
pub mod errors;
pub mod inputs;
pub mod native;
pub mod offsets;
pub mod policies;
pub mod resolver;
pub mod script_builder;
pub mod signatures;
