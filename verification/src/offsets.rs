//! Serialized sizes of the chain's canonical input encodings, and the
//! word-padding rule used throughout the transaction format.
//!
//! Every dynamically sized field of the canonical encoding is padded to a
//! multiple of the 8-byte word size.  The fixed sizes below follow the
//! canonical transaction format: each input starts with a one-word type
//! discriminant, fixed-width fields are one word or 32 bytes, and lengths of
//! dynamic parts are carried as one word each.

use vstd::prelude::*;

verus! {

/// Number of bytes in one virtual-machine word.
pub const WORD_SIZE: u64 = 8;

/// Serialized size of the fixed part of a coin input: discriminant (8),
/// UTXO id (40), owner (32), amount (8), asset id (32), transaction pointer
/// (16), witness index (8), predicate length (8), predicate data length (8),
/// predicate gas (8).
pub const INPUT_COIN_FIXED_SIZE: u64 = 168;

/// Serialized size of the fixed part of a message input: discriminant (8),
/// sender (32), recipient (32), amount (8), nonce (32), witness index (8),
/// data length (8), predicate length (8), predicate data length (8),
/// predicate gas (8).
pub const INPUT_MESSAGE_FIXED_SIZE: u64 = 152;

/// Serialized size of a contract input: discriminant (8), UTXO id (40),
/// balance root (32), state root (32), transaction pointer (16),
/// contract id (32).
pub const INPUT_CONTRACT_SIZE: u64 = 160;

/// Serialized size of one storage slot: a 32-byte key and a 32-byte value.
pub const STORAGE_SLOT_SIZE: u64 = 64;

/// Bytes of a script transaction that precede the script bytecode:
/// discriminant (8), gas limit (8), receipts root (32), and six length
/// words for script, script data, policies, inputs, outputs and witnesses.
pub const SCRIPT_STATIC_OFFSET: u64 = 96;

/// Bytes of a deployment transaction that precede the storage slots:
/// discriminant (8), bytecode witness index (8), salt (32), and five length
/// words for storage slots, policies, inputs, outputs and witnesses.
pub const CREATE_STATIC_OFFSET: u64 = 88;

/// A length rounded up to the next multiple of the word size.
pub open spec fn spec_padded_len(len: int) -> int {
    if len % 8 == 0 {
        len
    } else {
        len + (8 - len % 8)
    }
}

pub proof fn lemma_padded_len_bounds(len: int)
    requires
        len >= 0,
    ensures
        spec_padded_len(len) >= len,
        spec_padded_len(len) <= len + 7,
        spec_padded_len(len) % 8 == 0,
{
}

/// Rounds `len` up to the next multiple of the word size.
pub fn padded_len(len: u64) -> (r: u64)
    requires
        spec_padded_len(len as int) <= u64::MAX,
    ensures
        r as int == spec_padded_len(len as int),
{
    let rem: u64 = len % 8;
    if rem == 0 {
        len
    } else {
        len + (8 - rem)
    }
}

/// Serialized size of a signed coin input.
pub open spec fn spec_coin_signed_size() -> int {
    INPUT_COIN_FIXED_SIZE as int
}

/// Serialized size of a signed message input carrying `data_len` bytes of
/// message payload.
pub open spec fn spec_message_signed_size(data_len: int) -> int {
    INPUT_MESSAGE_FIXED_SIZE as int + spec_padded_len(data_len)
}

/// Size of the header of a predicate-gated coin input with `code_len` bytes
/// of predicate bytecode; the predicate data itself follows this header.
pub open spec fn spec_coin_predicate_header_size(code_len: int) -> int {
    INPUT_COIN_FIXED_SIZE as int + spec_padded_len(code_len)
}

/// Size of the header of a predicate-gated message input with `data_len`
/// bytes of message payload and `code_len` bytes of predicate bytecode.
pub open spec fn spec_message_predicate_header_size(data_len: int, code_len: int) -> int {
    INPUT_MESSAGE_FIXED_SIZE as int + spec_padded_len(data_len) + spec_padded_len(code_len)
}

/// Serialized size of a contract input.
pub open spec fn spec_contract_input_size() -> int {
    INPUT_CONTRACT_SIZE as int
}

} // verus!
