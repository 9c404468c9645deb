use p2p::proposal::{
    BlockHash, BlockId, CanonicalProposal, ConsensusState, PartSetHeader, Proposal, Time, Type,
    PROPOSE_STEP,
};

fn sample(block_id: Option<BlockId>) -> Proposal {
    Proposal {
        msg_type: Type::Proposal,
        height: 12345,
        round: 23456,
        pol_round: None,
        block_id,
        timestamp: Some(Time { seconds: 1518332962, nanos: 765_000_000 }),
        signature: vec![0; 64],
    }
}

#[test]
fn consensus_state_of_a_proposal() {
    let block_id = BlockId {
        hash: BlockHash::Sha256([0xde; 32]),
        parts: Some(PartSetHeader { total: 65535, hash: BlockHash::Sha256([0x11; 32]) }),
    };
    let state = sample(Some(block_id)).consensus_state();
    assert_eq!(
        state,
        ConsensusState { height: 12345, round: 23456, step: 3, block_id: Some(block_id) }
    );
    assert_eq!(PROPOSE_STEP, 3);
}

#[test]
fn consensus_state_without_block() {
    let state = sample(None).consensus_state();
    assert_eq!(state.block_id, None);
    assert_eq!((state.height, state.round, state.step), (12345, 23456, 3));
}

fn serialization_proposal() -> Proposal {
    Proposal {
        msg_type: Type::Proposal,
        height: 12345,
        round: 23456,
        pol_round: None,
        block_id: Some(BlockId {
            hash: BlockHash::Sha256(*b"DEADBEEFDEADBEEFBAFBAFBAFBAFBAFA"),
            parts: Some(PartSetHeader {
                total: 65535,
                hash: BlockHash::Sha256(*b"0022446688AACCEE1133557799BBDDFF"),
            }),
        }),
        // 2018-02-11T07:09:22.765Z
        timestamp: Some(Time { seconds: 1518332962, nanos: 765_000_000 }),
        signature: vec![0; 64],
    }
}

#[test]
fn test_serialization() {
    let mut got = vec![];
    serialization_proposal().to_signable_bytes("test_chain_id".to_string(), &mut got);

    let want = vec![
        136, 1, 8, 32, 17, 57, 48, 0, 0, 0, 0, 0, 0, 25, 160, 91, 0, 0, 0, 0, 0, 0, 32, 255,
        255, 255, 255, 255, 255, 255, 255, 255, 1, 42, 74, 10, 32, 68, 69, 65, 68, 66, 69, 69,
        70, 68, 69, 65, 68, 66, 69, 69, 70, 66, 65, 70, 66, 65, 70, 66, 65, 70, 66, 65, 70, 66,
        65, 70, 65, 18, 38, 8, 255, 255, 3, 18, 32, 48, 48, 50, 50, 52, 52, 54, 54, 56, 56, 65,
        65, 67, 67, 69, 69, 49, 49, 51, 51, 53, 53, 55, 55, 57, 57, 66, 66, 68, 68, 70, 70, 50,
        12, 8, 162, 216, 255, 211, 5, 16, 192, 242, 227, 236, 2, 58, 13, 116, 101, 115, 116,
        95, 99, 104, 97, 105, 110, 95, 105, 100,
    ];

    assert_eq!(got, want)
}

#[test]
fn signable_bytes_append_to_existing_buffer() {
    let p = serialization_proposal();
    let vec = p.to_signable_vec("test_chain_id".to_string());
    let mut buf = vec![7, 7];
    p.to_signable_bytes("test_chain_id".to_string(), &mut buf);
    assert_eq!(&buf[..2], &[7, 7]);
    assert_eq!(&buf[2..], &vec[..]);
}

#[test]
fn signable_vec_of_minimal_proposal() {
    let p = Proposal {
        msg_type: Type::Proposal,
        height: 1,
        round: 0,
        pol_round: Some(2),
        block_id: None,
        timestamp: None,
        signature: vec![],
    };
    // type 32, height 1 as sfixed64, round 0 omitted, pol_round 2, chain id "c"
    let want = vec![16, 8, 32, 17, 1, 0, 0, 0, 0, 0, 0, 0, 32, 2, 58, 1, 99];
    assert_eq!(p.to_signable_vec("c".to_string()), want);
}

#[test]
fn canonical_form_of_a_proposal() {
    let c = CanonicalProposal::new(&serialization_proposal(), "chain".to_string());
    assert_eq!(c.msg_type, Type::Proposal);
    assert_eq!((c.height, c.round, c.pol_round), (12345, 23456, -1));
    let b = c.block_id.unwrap();
    assert_eq!(b.hash, b"DEADBEEFDEADBEEFBAFBAFBAFBAFBAFA".to_vec());
    let parts = b.part_set_header.unwrap();
    assert_eq!(parts.total, 65535);
    assert_eq!(parts.hash, b"0022446688AACCEE1133557799BBDDFF".to_vec());
    assert_eq!(c.chain_id, "chain");

    let empty = Proposal {
        block_id: Some(BlockId { hash: BlockHash::Empty, parts: None }),
        ..serialization_proposal()
    };
    let c = CanonicalProposal::new(&empty, "chain".to_string());
    let b = c.block_id.unwrap();
    assert!(b.hash.is_empty());
    assert!(b.part_set_header.is_none());
}
