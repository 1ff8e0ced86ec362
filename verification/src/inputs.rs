//! The declarative model of transaction inputs.
//!
//! A declarative input is either a signed resource (a coin or a message,
//! authorized by a signature supplied later), a predicate-gated resource
//! (authorized by predicate bytecode whose data may reference its own final
//! byte offset), or a reference to contract state.

use vstd::prelude::*;

verus! {

/// A bech32-style account address, carried as its 32-byte hash.
pub struct Bech32Address {
    pub hash: Vec<u8>,
}

impl View for Bech32Address {
    type V = Seq<u8>;

    open spec fn view(&self) -> Seq<u8> {
        self.hash@
    }
}

impl Bech32Address {
    pub fn new(hash: Vec<u8>) -> (r: Self)
        ensures
            r@ == hash@,
    {
        Bech32Address { hash }
    }
}

/// An address hash is well formed when it is exactly 32 bytes long.
pub open spec fn addr_wf(a: Seq<u8>) -> bool {
    a.len() == 32
}

/// A 32-byte field of the chain format (a hash, an asset id, a nonce).
pub open spec fn b256_wf(b: Seq<u8>) -> bool {
    b.len() == 32
}

/// The identifier of an unspent output: the creating transaction's id and
/// the output's index within it.
pub struct UtxoId {
    pub tx_id: Vec<u8>,
    pub output_index: u16,
}

pub struct UtxoIdV {
    pub tx_id: Seq<u8>,
    pub output_index: u16,
}

impl View for UtxoId {
    type V = UtxoIdV;

    open spec fn view(&self) -> UtxoIdV {
        UtxoIdV { tx_id: self.tx_id@, output_index: self.output_index }
    }
}

pub open spec fn utxo_id_wf(u: UtxoIdV) -> bool {
    u.tx_id.len() == 32
}

/// A reference to the block and intra-block position a contract input was
/// created at.
#[derive(Clone, Copy, PartialEq, Eq, Structural)]
pub struct TxPointer {
    pub block_height: u32,
    pub tx_index: u16,
}

/// A coin to be spent.
pub struct Coin {
    pub utxo_id: UtxoId,
    pub owner: Bech32Address,
    pub amount: u64,
    pub asset_id: Vec<u8>,
}

pub struct CoinV {
    pub utxo_id: UtxoIdV,
    pub owner: Seq<u8>,
    pub amount: u64,
    pub asset_id: Seq<u8>,
}

impl View for Coin {
    type V = CoinV;

    open spec fn view(&self) -> CoinV {
        CoinV {
            utxo_id: self.utxo_id@,
            owner: self.owner@,
            amount: self.amount,
            asset_id: self.asset_id@,
        }
    }
}

pub open spec fn coin_wf(c: CoinV) -> bool {
    &&& utxo_id_wf(c.utxo_id)
    &&& addr_wf(c.owner)
    &&& b256_wf(c.asset_id)
}

/// A bridged message to be spent.  A message with an empty payload encodes
/// as the coin-like message variant; a non-empty payload selects the
/// data-bearing variant.
pub struct Message {
    pub sender: Bech32Address,
    pub recipient: Bech32Address,
    pub nonce: Vec<u8>,
    pub amount: u64,
    pub data: Vec<u8>,
}

pub struct MessageV {
    pub sender: Seq<u8>,
    pub recipient: Seq<u8>,
    pub nonce: Seq<u8>,
    pub amount: u64,
    pub data: Seq<u8>,
}

impl View for Message {
    type V = MessageV;

    open spec fn view(&self) -> MessageV {
        MessageV {
            sender: self.sender@,
            recipient: self.recipient@,
            nonce: self.nonce@,
            amount: self.amount,
            data: self.data@,
        }
    }
}

pub open spec fn message_wf(m: MessageV) -> bool {
    &&& addr_wf(m.sender)
    &&& addr_wf(m.recipient)
    &&& b256_wf(m.nonce)
}

/// A spendable resource: a coin or a message.
pub enum CoinType {
    Coin(Coin),
    Message(Message),
}

pub enum CoinTypeV {
    Coin(CoinV),
    Message(MessageV),
}

impl View for CoinType {
    type V = CoinTypeV;

    open spec fn view(&self) -> CoinTypeV {
        match self {
            CoinType::Coin(c) => CoinTypeV::Coin(c@),
            CoinType::Message(m) => CoinTypeV::Message(m@),
        }
    }
}

pub open spec fn coin_type_wf(r: CoinTypeV) -> bool {
    match r {
        CoinTypeV::Coin(c) => coin_wf(c),
        CoinTypeV::Message(m) => message_wf(m),
    }
}

/// One piece of a lazily resolved byte buffer: either fixed bytes, or a
/// placeholder for the buffer's own final byte offset.
pub enum ByteSegment {
    Fixed(Vec<u8>),
    SelfOffset,
}

pub enum ByteSegmentV {
    Fixed(Seq<u8>),
    SelfOffset,
}

impl View for ByteSegment {
    type V = ByteSegmentV;

    open spec fn view(&self) -> ByteSegmentV {
        match self {
            ByteSegment::Fixed(b) => ByteSegmentV::Fixed(b@),
            ByteSegment::SelfOffset => ByteSegmentV::SelfOffset,
        }
    }
}

/// Predicate input data whose concrete bytes depend on the final byte
/// offset at which the data will live.  Resolution substitutes that offset,
/// as a big-endian word, for every placeholder segment.
pub struct UnresolvedBytes {
    pub segments: Vec<ByteSegment>,
}

impl View for UnresolvedBytes {
    type V = Seq<ByteSegmentV>;

    open spec fn view(&self) -> Seq<ByteSegmentV> {
        self.segments@.map(|i: int, s: ByteSegment| s@)
    }
}

/// The big-endian byte encoding of a word.
pub open spec fn spec_u64_be(x: u64) -> Seq<u8> {
    seq![
        (x >> 56) as u8,
        (x >> 48) as u8,
        (x >> 40) as u8,
        (x >> 32) as u8,
        (x >> 24) as u8,
        (x >> 16) as u8,
        (x >> 8) as u8,
        x as u8,
    ]
}

/// The bytes a segment list resolves to once its final offset is known.
pub open spec fn spec_resolve_segments(segs: Seq<ByteSegmentV>, offset: u64) -> Seq<u8>
    decreases segs.len(),
{
    if segs.len() == 0 {
        Seq::empty()
    } else {
        (match segs[0] {
            ByteSegmentV::Fixed(b) => b,
            ByteSegmentV::SelfOffset => spec_u64_be(offset),
        }) + spec_resolve_segments(segs.drop_first(), offset)
    }
}

/// The length of the resolved bytes; it does not depend on the offset.
pub open spec fn spec_segments_len(segs: Seq<ByteSegmentV>) -> int
    decreases segs.len(),
{
    if segs.len() == 0 {
        0
    } else {
        (match segs[0] {
            ByteSegmentV::Fixed(b) => b.len() as int,
            ByteSegmentV::SelfOffset => 8,
        }) + spec_segments_len(segs.drop_first())
    }
}

pub proof fn lemma_resolved_len(segs: Seq<ByteSegmentV>, offset: u64)
    ensures
        spec_resolve_segments(segs, offset).len() == spec_segments_len(segs),
        spec_segments_len(segs) >= 0,
    decreases segs.len(),
{
    if segs.len() > 0 {
        lemma_resolved_len(segs.drop_first(), offset);
    }
}

impl UnresolvedBytes {
    /// A buffer with no placeholders: it resolves to `bytes` at any offset.
    pub fn fixed(bytes: Vec<u8>) -> (r: Self)
        ensures
            r@ == seq![ByteSegmentV::Fixed(bytes@)],
    {
        let segments = vec![ByteSegment::Fixed(bytes)];
        let r = UnresolvedBytes { segments };
        proof {
            assert(r@ =~= seq![ByteSegmentV::Fixed(bytes@)]);
        }
        r
    }

    /// An empty buffer.
    pub fn empty() -> (r: Self)
        ensures
            r@ == Seq::<ByteSegmentV>::empty(),
    {
        let r = UnresolvedBytes { segments: Vec::new() };
        proof {
            assert(r@ =~= Seq::<ByteSegmentV>::empty());
        }
        r
    }

    /// Substitutes `offset` for every placeholder and concatenates the
    /// segments into the concrete buffer.
    pub fn resolve(&self, offset: u64) -> (r: Vec<u8>)
        ensures
            r@ == spec_resolve_segments(self@, offset),
    {
        let mut out: Vec<u8> = Vec::new();
        let n = self.segments.len();
        proof {
            assert(self@.skip(0) == self@);
        }
        for i in 0..n
            invariant
                n == self.segments.len(),
                self@.len() == n,
                spec_resolve_segments(self@, offset) == out@ + spec_resolve_segments(
                    self@.skip(i as int),
                    offset,
                ),
        {
            let ghost prev = out@;
            let ghost rest = self@.skip(i as int);
            proof {
                assert(rest[0] == self@[i as int]);
                assert(rest.drop_first() =~= self@.skip(i as int + 1));
            }
            let seg = &self.segments[i];
            match seg {
                ByteSegment::Fixed(b) => {
                    let m = b.len();
                    let mut j: usize = 0;
                    while j < m
                        invariant
                            m == b@.len(),
                            j <= m,
                            out@ == prev + b@.take(j as int),
                        decreases m - j,
                    {
                        out.push(b[j]);
                        j += 1;
                        proof {
                            assert(out@ =~= prev + b@.take(j as int));
                        }
                    }
                    proof {
                        assert(b@.take(m as int) =~= b@);
                    }
                }
                ByteSegment::SelfOffset => {
                    push_u64_be(&mut out, offset);
                }
            }
            proof {
                let seg_bytes = match self@[i as int] {
                    ByteSegmentV::Fixed(bb) => bb,
                    ByteSegmentV::SelfOffset => spec_u64_be(offset),
                };
                assert(out@ == prev + seg_bytes);
                assert(spec_resolve_segments(rest, offset) == seg_bytes + spec_resolve_segments(
                    self@.skip(i as int + 1),
                    offset,
                ));
                assert(prev + (seg_bytes + spec_resolve_segments(self@.skip(i as int + 1), offset))
                    =~= (prev + seg_bytes) + spec_resolve_segments(
                    self@.skip(i as int + 1),
                    offset,
                ));
            }
        }
        proof {
            assert(self@.skip(n as int) =~= Seq::<ByteSegmentV>::empty());
            assert(out@ + Seq::<u8>::empty() =~= out@);
        }
        out
    }
}

/// Appends the big-endian encoding of `x`.
pub fn push_u64_be(out: &mut Vec<u8>, x: u64)
    ensures
        final(out)@ == old(out)@ + spec_u64_be(x),
{
    out.push((x >> 56) as u8);
    out.push((x >> 48) as u8);
    out.push((x >> 40) as u8);
    out.push((x >> 32) as u8);
    out.push((x >> 24) as u8);
    out.push((x >> 16) as u8);
    out.push((x >> 8) as u8);
    out.push(x as u8);
    proof {
        assert(out@ =~= old(out)@ + spec_u64_be(x));
    }
}

/// A declarative transaction input.
pub enum TxInput {
    /// A coin or message spent under a signature that is supplied later.
    ResourceSigned { resource: CoinType },
    /// A coin or message gated by predicate bytecode; `data` may reference
    /// its own final byte offset and is resolved during the build.
    ResourcePredicate { resource: CoinType, code: Vec<u8>, data: UnresolvedBytes },
    /// A reference to contract state; never signed.
    Contract {
        utxo_id: UtxoId,
        balance_root: Vec<u8>,
        state_root: Vec<u8>,
        tx_pointer: TxPointer,
        contract_id: Vec<u8>,
    },
}

pub enum TxInputV {
    ResourceSigned { resource: CoinTypeV },
    ResourcePredicate { resource: CoinTypeV, code: Seq<u8>, data: Seq<ByteSegmentV> },
    Contract {
        utxo_id: UtxoIdV,
        balance_root: Seq<u8>,
        state_root: Seq<u8>,
        tx_pointer: TxPointer,
        contract_id: Seq<u8>,
    },
}

impl View for TxInput {
    type V = TxInputV;

    open spec fn view(&self) -> TxInputV {
        match self {
            TxInput::ResourceSigned { resource } => TxInputV::ResourceSigned { resource: resource@ },
            TxInput::ResourcePredicate { resource, code, data } => TxInputV::ResourcePredicate {
                resource: resource@,
                code: code@,
                data: data@,
            },
            TxInput::Contract { utxo_id, balance_root, state_root, tx_pointer, contract_id } => {
                TxInputV::Contract {
                    utxo_id: utxo_id@,
                    balance_root: balance_root@,
                    state_root: state_root@,
                    tx_pointer: *tx_pointer,
                    contract_id: contract_id@,
                }
            }
        }
    }
}

pub open spec fn input_wf(i: TxInputV) -> bool {
    match i {
        TxInputV::ResourceSigned { resource } => coin_type_wf(resource),
        TxInputV::ResourcePredicate { resource, code, data } => coin_type_wf(resource),
        TxInputV::Contract { utxo_id, balance_root, state_root, tx_pointer, contract_id } => {
            &&& utxo_id_wf(utxo_id)
            &&& b256_wf(balance_root)
            &&& b256_wf(state_root)
            &&& b256_wf(contract_id)
        }
    }
}

/// Whether a declarative input is predicate-gated.
pub open spec fn is_predicate(i: TxInputV) -> bool {
    i is ResourcePredicate
}

} // verus!
