//! Block proposals from validators, and the consensus state they stand for.
use tendermint_proto::google::protobuf::Timestamp;
use tendermint_proto::types as raw;
use vstd::prelude::*;

verus! {

/// Block height.
pub type Height = i64;

/// Consensus round.
pub type Round = u32;

/// The consensus step at which a block is proposed.
pub const PROPOSE_STEP: i8 = 3;

/// Message type of a proposal.
#[derive(Clone, Copy, Debug, PartialEq, Eq, Structural)]
pub enum Type {
    Proposal,
}

/// A block or part-set hash; `Empty` where there is none.
#[derive(Clone, Copy, Debug, PartialEq, Eq)]
pub enum BlockHash {
    Sha256([u8; 32]),
    Empty,
}

/// Header of the set of parts a block was split into.
#[derive(Clone, Copy, Debug, PartialEq, Eq)]
pub struct PartSetHeader {
    pub total: u32,
    pub hash: BlockHash,
}

/// Identifies a block by its hash and its part set.
#[derive(Clone, Copy, Debug, PartialEq, Eq)]
pub struct BlockId {
    pub hash: BlockHash,
    pub parts: Option<PartSetHeader>,
}

/// A point in time: seconds since the Unix epoch and nanoseconds
/// (0 to 999,999,999) past them.
#[derive(Clone, Copy, Debug, PartialEq, Eq, Structural)]
pub struct Time {
    pub seconds: i64,
    pub nanos: i32,
}

/// A proposal.
#[derive(Clone, Debug, PartialEq, Eq)]
pub struct Proposal {
    /// Proposal message type
    pub msg_type: Type,
    pub height: Height,
    pub round: Round,
    /// Proof-of-lock round, if any
    pub pol_round: Option<Round>,
    pub block_id: Option<BlockId>,
    pub timestamp: Option<Time>,
    /// Signature bytes
    pub signature: Vec<u8>,
}

/// Where consensus stands: height, round, step and the block being decided.
#[derive(Clone, Copy, Debug, PartialEq, Eq)]
pub struct ConsensusState {
    pub height: Height,
    pub round: Round,
    pub step: i8,
    pub block_id: Option<BlockId>,
}

impl Proposal {
    /// The consensus state this proposal stands for: its height, round and
    /// block, at the propose step.
    pub fn consensus_state(&self) -> (r: ConsensusState)
        ensures
            r == (ConsensusState {
                height: self.height,
                round: self.round,
                step: PROPOSE_STEP,
                block_id: self.block_id,
            }),
    {
        ConsensusState {
            height: self.height,
            round: self.round,
            step: PROPOSE_STEP,
            block_id: self.block_id,
        }
    }
}

/// Header of a part set in the canonical form that is signed.
pub struct CanonicalPartSetHeader {
    pub total: u32,
    pub hash: Vec<u8>,
}

/// A block id in the canonical form that is signed.
pub struct CanonicalBlockId {
    pub hash: Vec<u8>,
    pub part_set_header: Option<CanonicalPartSetHeader>,
}

/// A proposal in the canonical form that validators sign, with the chain it
/// is for. An absent proof-of-lock round is written as -1.
pub struct CanonicalProposal {
    pub msg_type: Type,
    pub height: i64,
    pub round: i64,
    pub pol_round: i64,
    pub block_id: Option<CanonicalBlockId>,
    pub timestamp: Option<Time>,
    pub chain_id: String,
}

impl View for CanonicalPartSetHeader {
    type V = (u32, Seq<u8>);

    open spec fn view(&self) -> (u32, Seq<u8>) {
        (self.total, self.hash@)
    }
}

impl View for CanonicalBlockId {
    type V = (Seq<u8>, Option<(u32, Seq<u8>)>);

    open spec fn view(&self) -> (Seq<u8>, Option<(u32, Seq<u8>)>) {
        (
            self.hash@,
            match self.part_set_header {
                Some(p) => Some(p@),
                None => None,
            },
        )
    }
}

/// The protobuf code of a message type.
pub open spec fn type_code(t: Type) -> i32 {
    match t {
        Type::Proposal => 32,
    }
}

impl View for CanonicalProposal {
    type V = (i32, i64, i64, i64, Option<(Seq<u8>, Option<(u32, Seq<u8>)>)>, Option<(i64, i32)>, Seq<char>);

    /// The fields as protobuf writes them: type code, height, round,
    /// proof-of-lock round, block id, timestamp and chain id.
    open spec fn view(&self) -> (i32, i64, i64, i64, Option<(Seq<u8>, Option<(u32, Seq<u8>)>)>, Option<(i64, i32)>, Seq<char>) {
        (
            type_code(self.msg_type),
            self.height,
            self.round,
            self.pol_round,
            match self.block_id {
                Some(b) => Some(b@),
                None => None,
            },
            match self.timestamp {
                Some(t) => Some((t.seconds, t.nanos)),
                None => None,
            },
            self.chain_id@,
        )
    }
}

/// The length-delimited protobuf encoding of a canonical proposal with the
/// given fields.
pub uninterp spec fn canonical_proposal_encoding(
    fields: (i32, i64, i64, i64, Option<(Seq<u8>, Option<(u32, Seq<u8>)>)>, Option<(i64, i32)>, Seq<char>),
) -> Seq<u8>;

/// Relies on prost's `Message::encode_length_delimited_to_vec`, applied to
/// tendermint_proto's `CanonicalProposal` (and `SignedMsgType` and `Timestamp`
/// for its fields): the bytes depend on the field values alone.
#[verifier::external_body]
fn encode_length_delimited(c: CanonicalProposal) -> (r: Vec<u8>)
    ensures
        r@ == canonical_proposal_encoding(c@),
{
    let mut m = raw::CanonicalProposal {
        height: c.height,
        round: c.round,
        pol_round: c.pol_round,
        block_id: c.block_id.map(|b| raw::CanonicalBlockId {
            hash: b.hash,
            part_set_header: b.part_set_header.map(|p| raw::CanonicalPartSetHeader { total: p.total, hash: p.hash }),
        }),
        timestamp: c.timestamp.map(|t| Timestamp { seconds: t.seconds, nanos: t.nanos }),
        chain_id: c.chain_id,
        ..Default::default()
    };
    m.set_type(match c.msg_type { Type::Proposal => raw::SignedMsgType::Proposal });
    prost::Message::encode_length_delimited_to_vec(&m)
}

/// The bytes of a hash, empty where there is none.
pub open spec fn hash_bytes(h: BlockHash) -> Seq<u8> {
    match h {
        BlockHash::Sha256(bytes) => bytes@,
        BlockHash::Empty => Seq::empty(),
    }
}

/// The view of the canonical form of `p` for the chain `chain_id`.
pub open spec fn canonical_view(p: Proposal, chain_id: Seq<char>) -> (i32, i64, i64, i64, Option<(Seq<u8>, Option<(u32, Seq<u8>)>)>, Option<(i64, i32)>, Seq<char>) {
    (
        type_code(p.msg_type),
        p.height,
        p.round as i64,
        match p.pol_round {
            Some(r) => r as i64,
            None => -1i64,
        },
        match p.block_id {
            Some(b) => Some((
                hash_bytes(b.hash),
                match b.parts {
                    Some(h) => Some((h.total, hash_bytes(h.hash))),
                    None => None,
                },
            )),
            None => None,
        },
        match p.timestamp {
            Some(t) => Some((t.seconds, t.nanos)),
            None => None,
        },
        chain_id,
    )
}

fn hash_to_vec(h: &BlockHash) -> (r: Vec<u8>)
    ensures
        r@ == hash_bytes(*h),
{
    let mut r: Vec<u8> = Vec::new();
    match h {
        BlockHash::Sha256(bytes) => {
            let mut i: usize = 0;
            while i < 32
                invariant
                    i <= 32,
                    bytes@.len() == 32,
                    r@ == bytes@.subrange(0, i as int),
                decreases 32 - i,
            {
                r.push(bytes[i]);
                i = i + 1;
            }
            assert(r@ =~= bytes@);
        },
        BlockHash::Empty => {},
    }
    r
}

impl CanonicalProposal {
    /// The canonical form of `proposal` for the chain `chain_id`.
    pub fn new(proposal: &Proposal, chain_id: String) -> (r: CanonicalProposal)
        ensures
            r@ == canonical_view(*proposal, chain_id@),
    {
        let block_id = match proposal.block_id {
            Some(b) => Some(CanonicalBlockId {
                hash: hash_to_vec(&b.hash),
                part_set_header: match b.parts {
                    Some(h) => Some(CanonicalPartSetHeader { total: h.total, hash: hash_to_vec(&h.hash) }),
                    None => None,
                },
            }),
            None => None,
        };
        CanonicalProposal {
            msg_type: proposal.msg_type,
            height: proposal.height,
            round: proposal.round as i64,
            pol_round: match proposal.pol_round {
                Some(r) => r as i64,
                None => -1,
            },
            block_id,
            timestamp: proposal.timestamp,
            chain_id,
        }
    }
}

impl Proposal {
    /// The bytes a validator signs for this proposal on the chain `chain_id`:
    /// its canonical form, protobuf-encoded with a length prefix.
    pub fn to_signable_vec(&self, chain_id: String) -> (r: Vec<u8>)
        ensures
            r@ == canonical_proposal_encoding(canonical_view(*self, chain_id@)),
    {
        encode_length_delimited(CanonicalProposal::new(self, chain_id))
    }

    /// Appends the bytes of `to_signable_vec` to `sign_bytes`.
    pub fn to_signable_bytes(&self, chain_id: String, sign_bytes: &mut Vec<u8>)
        ensures
            final(sign_bytes)@ == old(sign_bytes)@ + canonical_proposal_encoding(
                canonical_view(*self, chain_id@),
            ),
    {
        let mut bytes = self.to_signable_vec(chain_id);
        sign_bytes.append(&mut bytes);
    }
}

} // verus!
