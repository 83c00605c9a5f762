use ledger_core::chain::block::{Block, BlockBody, BlockError, BlockHeaders, ValidationError};
use ledger_core::chain::{BlockChain, DEFAULT_TARGET};
use ledger_core::util::hash;
use ledger_core::util::keys::SecretKey;
use ledger_core::util::transaction::{Amount, Signed, Transaction};

fn transfer(seed: u8, nonce: u64) -> Transaction<Signed> {
    let secret = SecretKey::from_bytes([seed; 32]);
    Transaction::new(
        secret.public_key(),
        hash::Hash::raw(b"payee"),
        None,
        1,
        5,
        nonce,
        Amount::new(3).unwrap(),
        Amount::new(1).unwrap(),
    )
    .sign(&secret)
}

fn chain_at(target: usize, start: i64, id: u64) -> BlockChain {
    let genesis = Block::new_at(target, Vec::new(), hash::Hash::default(), start).unwrap();
    BlockChain::from_blocks(vec![genesis], id).unwrap()
}

fn restamped(block: Block, previous_block_hash: hash::Hash) -> Block {
    let (headers, body, stored) = block.into_parts();
    let headers = BlockHeaders::from_parts(
        headers.version().clone(),
        headers.time_stamp(),
        previous_block_hash,
        *headers.payload_hash(),
        headers.target(),
        headers.nonce(),
    )
    .unwrap();
    Block::from_parts(headers, body, stored)
}

#[test]
fn new_chain_holds_one_valid_genesis_block() {
    let chain = BlockChain::new().unwrap();
    assert_eq!(chain.len(), 1);
    assert_eq!(chain.get_blocks().len(), 1);
    assert!(chain.validate_chain());
    let genesis = chain.tip();
    assert_eq!(genesis.headers().target(), DEFAULT_TARGET);
    assert_eq!(DEFAULT_TARGET, 2);
    assert_eq!(genesis.data().len(), 0);
    assert_eq!(*genesis.previous_block_hash(), hash::Hash::default());
    assert_eq!(&genesis.block_hash().get_bytes()[..2], &[0, 0]);
}

#[test]
fn new_chains_get_different_identifiers() {
    let ids: Vec<u64> = (0..4).map(|_| BlockChain::with_target(0).unwrap().chain_id()).collect();
    assert!(ids.iter().any(|id| *id != ids[0]));
}

#[test]
fn genesis_chain_with_target_zero_is_valid_and_stays_valid_as_it_grows() {
    let chain = chain_at(0, 1_700_000_000, 1);
    assert!(chain.validate_chain());
    let chain = chain.add_block_at(Vec::new(), 1_700_000_001).unwrap();
    assert!(chain.validate_chain());
    let chain = chain.add_block_at(Vec::new(), 1_700_000_002).unwrap();
    assert!(chain.validate_chain());
    assert_eq!(chain.len(), 3);
    for index in 0..3 {
        assert_eq!(chain.validate_block(index), Ok(()));
        assert_eq!(chain.get_blocks()[index].headers().nonce(), 0);
    }
}

#[test]
fn zeroed_previous_hash_breaks_the_link_of_that_block() {
    let chain = chain_at(0, 1_700_000_000, 1)
        .add_block_at(Vec::new(), 1_700_000_001)
        .unwrap()
        .add_block_at(Vec::new(), 1_700_000_002)
        .unwrap();
    let mut blocks = chain.into_blocks();
    let second = blocks.pop().unwrap();
    let stored = *second.block_hash();
    let forged_headers_hash;
    {
        let forged = restamped(second, hash::Hash::default());
        forged_headers_hash = hash::Hash::from(forged.headers());
        blocks.push(forged);
    }
    let first_hash = *blocks[1].block_hash();
    let chain = BlockChain::from_blocks(blocks, 1).unwrap();
    assert_eq!(
        chain.validate_previous_hash(2),
        Err(ValidationError::PreviousHash { expected: first_hash, found: hash::Hash::default() })
    );
    let forged = &chain.get_blocks()[2];
    // the stored hashes are what they were, and the body still hashes to
    // the stored payload hash
    assert_eq!(*forged.block_hash(), stored);
    assert_eq!(forged.validate_payload_hash(), Ok(()));
    assert_eq!(chain.validate_time(2), Ok(()));
    // the hash of the headers is recomputed over the changed headers
    assert_eq!(
        forged.validate_block_hash(),
        Err(ValidationError::BlockHash { expected: forged_headers_hash, found: stored })
    );
    assert!(!chain.validate_chain());
    assert_eq!(chain.validate_block(0), Ok(()));
    assert_eq!(chain.validate_block(1), Ok(()));
    assert_eq!(chain.validate_previous_hash(1), Ok(()));
    assert_eq!(chain.validate_previous_hash(0), Ok(()));
}

#[test]
fn chain_grown_with_increasing_time_is_valid() {
    let mut chain = chain_at(1, 100, 9);
    for step in 1..=6u64 {
        let txns = (0..step).map(|n| transfer(step as u8, n)).collect();
        chain = chain.add_block_at(txns, 100 + step as i64).unwrap();
        assert!(chain.validate_chain());
        assert_eq!(chain.len(), 1 + step as usize);
    }
    for (index, block) in chain.get_blocks().iter().enumerate() {
        assert_eq!(block.data().len(), index);
        assert_eq!(block.time_stamp(), 100 + index as i64);
        assert_eq!(block.headers().target(), 1);
        assert_eq!(block.block_hash().get_bytes()[0], 0);
        if index > 0 {
            assert_eq!(block.previous_block_hash(), chain.get_blocks()[index - 1].block_hash());
        }
    }
}

#[test]
fn equal_time_stamps_break_the_rule_of_time_for_the_later_block() {
    let chain = chain_at(0, 100, 9)
        .add_block_at(Vec::new(), 101)
        .unwrap()
        .add_block_at(Vec::new(), 101)
        .unwrap()
        .add_block_at(Vec::new(), 102)
        .unwrap();
    assert_eq!(chain.validate_time(0), Ok(()));
    assert_eq!(chain.validate_time(1), Ok(()));
    assert_eq!(
        chain.validate_time(2),
        Err(ValidationError::Time { previous: 101, stamp: 101 })
    );
    assert_eq!(chain.validate_time(3), Ok(()));
    assert_eq!(
        chain.validate_block(2),
        Err(vec![ValidationError::Time { previous: 101, stamp: 101 }])
    );
    assert_eq!(chain.validate_previous_hash(2), Ok(()));
    assert!(!chain.validate_chain());
}

#[test]
fn earlier_time_stamp_breaks_the_rule_of_time() {
    let chain = chain_at(0, 100, 9).add_block_at(Vec::new(), 50).unwrap();
    assert_eq!(
        chain.validate_time(1),
        Err(ValidationError::Time { previous: 100, stamp: 50 })
    );
    assert!(!chain.validate_chain());
}

#[test]
fn iteration_visits_every_block_once_from_the_tip() {
    let mut chain = chain_at(0, 0, 3);
    assert_eq!(chain.iter().len(), 1);
    for step in 1..=5i64 {
        chain = chain.add_block_at(Vec::new(), step).unwrap();
    }
    let visited = chain.iter();
    assert_eq!(visited.len(), 6);
    let stamps: Vec<i64> = visited.iter().map(|b| b.time_stamp()).collect();
    assert_eq!(stamps, vec![5, 4, 3, 2, 1, 0]);
    assert_eq!(visited[0].block_hash(), chain.tip().block_hash());
    assert_eq!(*visited[5].previous_block_hash(), hash::Hash::default());
    // the chain is as it was, and can be walked again
    assert_eq!(chain.iter().len(), 6);
    assert!(chain.validate_chain());
}

#[test]
fn added_block_is_linked_to_the_old_tip_and_mined_against_its_target() {
    let chain = chain_at(1, 10, 3);
    let old_tip = *chain.tip().block_hash();
    let chain = chain.add_block_at(vec![transfer(1, 1), transfer(2, 2)], 11).unwrap();
    let tip = chain.tip();
    assert_eq!(*tip.previous_block_hash(), old_tip);
    assert_eq!(tip.headers().target(), 1);
    assert_eq!(tip.data().len(), 2);
    assert_eq!(tip.time_stamp(), 11);
    assert_eq!(tip.block_hash().get_bytes()[0], 0);
    assert_eq!(*chain.get_blocks()[0].block_hash(), old_tip);
    assert_eq!(chain.chain_id(), 3);
    let expected = Block::new_at(1, vec![transfer(1, 1), transfer(2, 2)], old_tip, 11).unwrap();
    assert_eq!(tip.block_hash(), expected.block_hash());
    assert_eq!(tip.headers().nonce(), expected.headers().nonce());
}

#[test]
fn block_added_by_the_clock_keeps_its_own_hashes_and_link() {
    let chain = BlockChain::with_target(1).unwrap();
    let id = chain.chain_id();
    let chain = chain.add_block(vec![transfer(1, 1)]).unwrap();
    assert_eq!(chain.len(), 2);
    assert_eq!(chain.chain_id(), id);
    assert_eq!(chain.tip().validate_block_hash(), Ok(()));
    assert_eq!(chain.tip().validate_payload_hash(), Ok(()));
    assert_eq!(chain.validate_previous_hash(1), Ok(()));
    assert!(chain.tip().time_stamp() >= chain.get_blocks()[0].time_stamp());
    assert_eq!(chain.validate_block(0), Ok(()));
    let later = chain.tip().time_stamp() > chain.get_blocks()[0].time_stamp();
    assert_eq!(chain.validate_chain(), later);
}

#[test]
fn chain_that_cannot_be_mined_reports_it() {
    let made = BlockChain::with_target(33);
    assert!(matches!(made, Err(BlockError::NonceExhausted)));
    let genesis = Block::new_at(0, Vec::new(), hash::Hash::default(), 1).unwrap();
    let (headers, body, stored) = genesis.into_parts();
    let headers = BlockHeaders::from_parts(
        headers.version().clone(),
        1,
        hash::Hash::default(),
        *headers.payload_hash(),
        64,
        0,
    )
    .unwrap();
    let chain =
        BlockChain::from_blocks(vec![Block::from_parts(headers, body, stored)], 77).unwrap();
    match chain.add_block_at(vec![transfer(1, 1)], 2) {
        Err((back, error)) => {
            assert_eq!(error, BlockError::NonceExhausted);
            // the chain comes back as it was
            assert_eq!(back.len(), 1);
            assert_eq!(back.chain_id(), 77);
            assert_eq!(*back.tip().block_hash(), stored);
            assert_eq!(back.tip().headers().target(), 64);
            let again = back.add_block(Vec::new());
            assert!(matches!(again, Err((_, BlockError::NonceExhausted))));
        }
        Ok(_) => panic!("a target of 64 bytes cannot be met"),
    }
}

#[test]
fn chain_of_no_blocks_cannot_be_assembled() {
    assert!(BlockChain::from_blocks(Vec::new(), 5).is_none());
}

#[test]
fn assembled_chain_keeps_blocks_and_identifier() {
    let a = Block::new_at(0, Vec::new(), hash::Hash::default(), 1).unwrap();
    let b = Block::new_at(0, Vec::new(), hash::Hash::raw(b"unrelated"), 2).unwrap();
    let a_hash = *a.block_hash();
    let chain = BlockChain::from_blocks(vec![a, b], 0xfeed).unwrap();
    assert_eq!(chain.chain_id(), 0xfeed);
    assert_eq!(chain.len(), 2);
    assert_eq!(*chain.get_blocks()[0].block_hash(), a_hash);
    assert_eq!(
        chain.validate_previous_hash(1),
        Err(ValidationError::PreviousHash {
            expected: a_hash,
            found: hash::Hash::raw(b"unrelated"),
        })
    );
    assert!(!chain.validate_chain());
    assert_eq!(chain.into_blocks().len(), 2);
}

#[test]
fn changed_block_hash_in_the_middle_breaks_that_block_and_the_link_after_it() {
    let chain = chain_at(0, 1, 0)
        .add_block_at(Vec::new(), 2)
        .unwrap()
        .add_block_at(Vec::new(), 3)
        .unwrap()
        .add_block_at(Vec::new(), 4)
        .unwrap();
    let mut blocks = chain.into_blocks();
    let last = blocks.pop().unwrap();
    let after = blocks.pop().unwrap();
    let middle = blocks.pop().unwrap();
    let (headers, _, stored) = middle.into_parts();
    let recomputed = hash::Hash::from(&headers);
    assert_eq!(recomputed, stored);
    let mut raw = *stored.get_bytes();
    raw[31] ^= 1;
    let forged_hash = hash::Hash::from_bytes(raw);
    blocks.push(Block::from_parts(headers, BlockBody::new(Vec::new()), forged_hash));
    blocks.push(after);
    blocks.push(last);
    let chain = BlockChain::from_blocks(blocks, 0).unwrap();
    assert_eq!(chain.validate_block(0), Ok(()));
    assert_eq!(
        chain.validate_block(1),
        Err(vec![ValidationError::BlockHash { expected: stored, found: forged_hash }])
    );
    assert_eq!(
        chain.validate_block(2),
        Err(vec![ValidationError::PreviousHash { expected: forged_hash, found: stored }])
    );
    assert_eq!(chain.validate_block(3), Ok(()));
    assert!(!chain.validate_chain());
}
