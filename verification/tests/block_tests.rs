use ledger_core::chain::block::{
    leading_zero_bytes, Block, BlockBody, BlockError, BlockHeaders, ValidationError,
};
use ledger_core::util::encoding::to_bytes;
use ledger_core::util::hash;
use ledger_core::util::keys::SecretKey;
use ledger_core::util::transaction::{Amount, Signed, Transaction};

fn paid(seed: u8, nonce: u64) -> Transaction<Signed> {
    let secret = SecretKey::from_bytes([seed; 32]);
    Transaction::new(
        secret.public_key(),
        hash::Hash::raw(b"to"),
        None,
        1,
        77,
        nonce,
        Amount::new(10).unwrap(),
        Amount::new(2).unwrap(),
    )
    .sign(&secret)
}

fn headers_with_nonce(of: &BlockHeaders, nonce: u64) -> BlockHeaders {
    BlockHeaders::from_parts(
        of.version().clone(),
        of.time_stamp(),
        *of.previous_block_hash(),
        *of.payload_hash(),
        of.target(),
        nonce,
    )
    .unwrap()
}

#[test]
fn leading_zero_bytes_counts_from_the_front() {
    let mut raw = [0xffu8; 32];
    raw[0] = 0;
    raw[1] = 0;
    let h = hash::Hash::from_bytes(raw);
    assert!(leading_zero_bytes(&h, 0));
    assert!(leading_zero_bytes(&h, 1));
    assert!(leading_zero_bytes(&h, 2));
    assert!(!leading_zero_bytes(&h, 3));
    assert!(!leading_zero_bytes(&h, 32));
    let mut late = [0u8; 32];
    late[0] = 1;
    assert!(!leading_zero_bytes(&hash::Hash::from_bytes(late), 1));
}

#[test]
fn no_hash_meets_a_target_beyond_its_length() {
    let zero = hash::Hash::default();
    assert!(leading_zero_bytes(&zero, 32));
    assert!(!leading_zero_bytes(&zero, 33));
    assert!(!leading_zero_bytes(&zero, usize::MAX));
}

#[test]
fn fresh_headers_are_version_one_with_nonce_zero() {
    let prev = hash::Hash::raw(b"prev");
    let payload = hash::Hash::raw(b"payload");
    let headers = BlockHeaders::new(123, prev, payload, 2);
    assert_eq!(headers.version(), "v1.0");
    assert_eq!(headers.time_stamp(), 123);
    assert_eq!(*headers.previous_block_hash(), prev);
    assert_eq!(*headers.payload_hash(), payload);
    assert_eq!(headers.target(), 2);
    assert_eq!(headers.nonce(), 0);
}

#[test]
fn headers_encoding_byte_for_byte() {
    let headers = BlockHeaders::from_parts(
        String::from("v1.0"),
        0x0102_0304,
        hash::Hash::from_bytes([0xaa; 32]),
        hash::Hash::from_bytes([0xbb; 32]),
        2,
        0x0a0b,
    )
    .unwrap();
    let mut expected = vec![4u8, b'v', b'1', b'.', b'0'];
    expected.extend_from_slice(&[4, 3, 2, 1, 0, 0, 0, 0]);
    expected.push(32);
    expected.extend_from_slice(&[0xaa; 32]);
    expected.push(32);
    expected.extend_from_slice(&[0xbb; 32]);
    expected.extend_from_slice(&[2, 0, 0, 0, 0, 0, 0, 0]);
    expected.extend_from_slice(&[0x0b, 0x0a, 0, 0, 0, 0, 0, 0]);
    assert_eq!(expected.len(), 95);
    assert_eq!(to_bytes(&headers), expected);
}

#[test]
fn headers_encoding_agrees_with_bcs() {
    for (version, time_stamp, target, nonce) in [
        ("v1.0", 1_700_000_000i64, 2usize, 70_000u64),
        ("", -5, 0, 0),
        ("version two \u{e9}\u{4e16}", i64::MAX, 31, u64::MAX),
    ] {
        let headers = BlockHeaders::from_parts(
            String::from(version),
            time_stamp,
            hash::Hash::raw(b"p"),
            hash::Hash::raw(b"q"),
            target,
            nonce,
        )
        .unwrap();
        let theirs = bcs::to_bytes(&(
            version,
            time_stamp,
            serde_bytes::ByteArray::<32>::new(*hash::Hash::raw(b"p").get_bytes()),
            serde_bytes::ByteArray::<32>::new(*hash::Hash::raw(b"q").get_bytes()),
            target,
            nonce,
        ))
        .unwrap();
        assert_eq!(to_bytes(&headers), theirs);
    }
}

#[test]
fn empty_body_is_one_zero_byte() {
    let body = BlockBody::new(Vec::new());
    assert_eq!(to_bytes(&body), vec![0u8]);
    assert_eq!(body.transactions().len(), 0);
}

#[test]
fn body_encoding_is_count_then_transactions_in_order() {
    let first = to_bytes(&paid(1, 1));
    let second = to_bytes(&paid(2, 2));
    let body = BlockBody::new(vec![paid(1, 1), paid(2, 2)]);
    let mut expected = vec![2u8];
    expected.extend_from_slice(&first);
    expected.extend_from_slice(&second);
    assert_eq!(to_bytes(&body), expected);
    let swapped = BlockBody::new(vec![paid(2, 2), paid(1, 1)]);
    assert_ne!(to_bytes(&swapped), expected);
    assert_eq!(body.into_transactions().len(), 2);
}

#[test]
fn body_of_many_transactions_frames_its_count_as_uleb128() {
    let txns: Vec<Transaction<Signed>> = (0..130).map(|n| paid(1, n)).collect();
    let body = BlockBody::new(txns);
    let bytes = to_bytes(&body);
    assert_eq!(&bytes[0..2], &[0x82, 0x01]);
    assert_eq!(bytes.len(), 2 + 130 * 165);
}

#[test]
fn target_zero_accepts_the_first_nonce() {
    let block = Block::new_at(0, vec![paid(1, 1)], hash::Hash::default(), 50).unwrap();
    assert_eq!(block.headers().nonce(), 0);
    assert_eq!(block.headers().target(), 0);
    assert_eq!(block.time_stamp(), 50);
    assert_eq!(block.data().len(), 1);
    assert_eq!(*block.previous_block_hash(), hash::Hash::default());
}

#[test]
fn mined_hash_begins_with_target_zero_bytes() {
    for target in [1usize, 2] {
        let block = Block::new_at(target, Vec::new(), hash::Hash::raw(b"tip"), 1_700_000_000)
            .unwrap();
        let recomputed = hash::Hash::from(block.headers());
        assert_eq!(recomputed, *block.block_hash());
        assert!(recomputed.get_bytes()[..target].iter().all(|b| *b == 0));
        assert!(leading_zero_bytes(block.block_hash(), target));
    }
}

#[test]
fn mined_nonce_is_the_first_that_meets_the_target() {
    let block = Block::new_at(1, Vec::new(), hash::Hash::raw(b"tip"), 1_700_000_001).unwrap();
    let found = block.headers().nonce();
    for nonce in 0..found {
        let candidate = headers_with_nonce(block.headers(), nonce);
        assert!(!leading_zero_bytes(&hash::Hash::from(&candidate), 1));
    }
    let again = headers_with_nonce(block.headers(), found);
    assert!(leading_zero_bytes(&hash::Hash::from(&again), 1));
}

#[test]
fn compute_nonce_searches_upwards_from_the_stored_nonce() {
    let mut headers = BlockHeaders::from_parts(
        String::from("v1.0"),
        9,
        hash::Hash::raw(b"a"),
        hash::Hash::raw(b"b"),
        1,
        123_456_789,
    )
    .unwrap();
    assert!(headers.compute_nonce());
    assert!(headers.nonce() >= 123_456_789);
    assert!(leading_zero_bytes(&hash::Hash::from(&headers), 1));
    assert_eq!(headers.time_stamp(), 9);
    assert_eq!(headers.target(), 1);
    assert_eq!(headers.version(), "v1.0");
    assert_eq!(*headers.previous_block_hash(), hash::Hash::raw(b"a"));
    assert_eq!(*headers.payload_hash(), hash::Hash::raw(b"b"));
    for nonce in 123_456_789..headers.nonce() {
        let candidate = headers_with_nonce(&headers, nonce);
        assert!(!leading_zero_bytes(&hash::Hash::from(&candidate), 1));
    }
}

#[test]
fn compute_nonce_keeps_a_stored_nonce_that_meets_the_target() {
    let mut headers = BlockHeaders::from_parts(
        String::from("v1.0"),
        9,
        hash::Hash::raw(b"a"),
        hash::Hash::raw(b"b"),
        0,
        5,
    )
    .unwrap();
    assert!(headers.compute_nonce());
    assert_eq!(headers.nonce(), 5);
    let mined = Block::new_at(1, Vec::new(), hash::Hash::raw(b"a"), 9).unwrap();
    let found = mined.headers().nonce();
    let mut again = headers_with_nonce(mined.headers(), found);
    assert!(again.compute_nonce());
    assert_eq!(again.nonce(), found);
}

#[test]
fn compute_nonce_from_fresh_headers_finds_what_a_new_block_holds() {
    let body = BlockBody::new(Vec::new());
    let mut headers = BlockHeaders::new(9, hash::Hash::raw(b"a"), hash::Hash::from(&body), 1);
    assert!(headers.compute_nonce());
    let block = Block::new_at(1, Vec::new(), hash::Hash::raw(b"a"), 9).unwrap();
    assert_eq!(headers.nonce(), block.headers().nonce());
    assert_eq!(hash::Hash::from(&headers), *block.block_hash());
}

#[test]
fn compute_nonce_stops_at_the_last_nonce() {
    let start = u64::MAX - 3;
    for seed in 0u8..8 {
        let stored = BlockHeaders::from_parts(
            String::from("v1.0"),
            seed as i64,
            hash::Hash::raw(&[seed]),
            hash::Hash::raw(b"b"),
            1,
            start,
        )
        .unwrap();
        let mut expected = None;
        for nonce in start..=u64::MAX {
            let candidate = headers_with_nonce(&stored, nonce);
            if leading_zero_bytes(&hash::Hash::from(&candidate), 1) {
                expected = Some(nonce);
                break;
            }
        }
        let mut headers = headers_with_nonce(&stored, start);
        let found = headers.compute_nonce();
        match expected {
            Some(nonce) => {
                assert!(found);
                assert_eq!(headers.nonce(), nonce);
            }
            None => {
                assert!(!found);
                assert_eq!(headers.nonce(), start);
            }
        }
        assert_eq!(headers.time_stamp(), seed as i64);
        assert_eq!(headers.target(), 1);
    }
}

#[test]
fn target_beyond_the_hash_length_finds_no_nonce() {
    let made = Block::new_at(33, Vec::new(), hash::Hash::default(), 5);
    assert_eq!(made.err(), Some(BlockError::NonceExhausted));
    let made = Block::new_at(usize::MAX, Vec::new(), hash::Hash::default(), 5);
    assert_eq!(made.err(), Some(BlockError::NonceExhausted));
    let made = Block::new(40, Vec::new(), hash::Hash::default());
    assert_eq!(made.err(), Some(BlockError::NonceExhausted));
}

#[test]
fn payload_hash_is_the_hash_of_the_body() {
    let block = Block::new_at(0, vec![paid(1, 1), paid(2, 5)], hash::Hash::default(), 7).unwrap();
    let body = BlockBody::new(vec![paid(1, 1), paid(2, 5)]);
    assert_eq!(*block.payload_hash(), hash::Hash::from(&body));
    assert_eq!(*block.payload_hash(), hash::Hash::raw(&to_bytes(&body)));
    assert_eq!(block.headers().payload_hash(), block.payload_hash());
}

#[test]
fn payload_hash_agrees_with_bcs_of_the_body() {
    let block = Block::new_at(0, vec![paid(1, 1), paid(2, 5)], hash::Hash::default(), 7).unwrap();
    let mirror: Vec<_> = block
        .data()
        .iter()
        .map(|t| {
            (
                ed25519_dalek::Signature::from_bytes(&t.get_sig().to_bytes()),
                ed25519_dalek::VerifyingKey::from_bytes(&t.get_sender_pub_key().to_bytes())
                    .unwrap(),
                serde_bytes::ByteArray::<32>::new(*hash::Hash::raw(b"to").get_bytes()),
                None::<serde_bytes::ByteArray<256>>,
                1u16,
                77u64,
                if t.get_sender_pub_key() == SecretKey::from_bytes([1u8; 32]).public_key() {
                    1u64
                } else {
                    5u64
                },
                10u64,
                2u64,
            )
        })
        .collect();
    assert_eq!(*block.payload_hash(), hash::Hash::raw(&bcs::to_bytes(&mirror).unwrap()));
    let empty = Block::new_at(0, Vec::new(), hash::Hash::default(), 7).unwrap();
    assert_eq!(*empty.payload_hash(), hash::Hash::raw(&[0]));
}

#[test]
fn block_hash_is_the_hash_of_the_headers() {
    let block = Block::new_at(1, vec![paid(3, 3)], hash::Hash::raw(b"x"), 11).unwrap();
    assert_eq!(*block.block_hash(), hash::Hash::from(block.headers()));
    assert_eq!(*block.block_hash(), hash::Hash::raw(&to_bytes(block.headers())));
}

#[test]
fn fresh_block_keeps_every_rule() {
    let block = Block::new_at(1, vec![paid(1, 1)], hash::Hash::raw(b"x"), 11).unwrap();
    assert_eq!(block.validate_block_hash(), Ok(()));
    assert_eq!(block.validate_payload_hash(), Ok(()));
    assert_eq!(block.validate_previous_hash(None), Ok(()));
    assert_eq!(block.validate_time(None), Ok(()));
    assert_eq!(block.validate_block(None), Ok(()));
}

#[test]
fn block_mined_by_the_clock_keeps_every_rule() {
    let block = Block::new(1, vec![paid(1, 1)], hash::Hash::raw(b"x")).unwrap();
    assert!(block.time_stamp() > 1_600_000_000);
    assert_eq!(block.validate_block(None), Ok(()));
    assert!(leading_zero_bytes(block.block_hash(), 1));
    assert_eq!(block.headers().version(), "v1.0");
    assert_eq!(*block.previous_block_hash(), hash::Hash::raw(b"x"));
}

#[test]
fn genesis_block_has_no_transactions_and_the_zero_hash_before_it() {
    let genesis = Block::new_genesis_block(1).unwrap();
    assert_eq!(genesis.data().len(), 0);
    assert_eq!(*genesis.previous_block_hash(), hash::Hash::default());
    assert_eq!(genesis.headers().target(), 1);
    assert_eq!(genesis.validate_block(None), Ok(()));
    assert_eq!(*genesis.payload_hash(), hash::Hash::raw(&[0]));
}

#[test]
fn changed_block_hash_breaks_only_the_rule_of_the_block_hash() {
    let block = Block::new_at(1, vec![paid(1, 1)], hash::Hash::raw(b"x"), 11).unwrap();
    let (headers, body, stored) = block.into_parts();
    for index in [0usize, 13, 31] {
        let mut raw = *stored.get_bytes();
        raw[index] ^= 0x10;
        let forged_hash = hash::Hash::from_bytes(raw);
        let forged = Block::from_parts(
            headers_with_nonce(&headers, headers.nonce()),
            BlockBody::new(vec![paid(1, 1)]),
            forged_hash,
        );
        assert_eq!(
            forged.validate_block_hash(),
            Err(ValidationError::BlockHash { expected: stored, found: forged_hash })
        );
        assert_eq!(forged.validate_payload_hash(), Ok(()));
        assert_eq!(forged.validate_previous_hash(None), Ok(()));
        assert_eq!(forged.validate_time(None), Ok(()));
        assert_eq!(
            forged.validate_block(None),
            Err(vec![ValidationError::BlockHash { expected: stored, found: forged_hash }])
        );
    }
    assert_eq!(body.transactions().len(), 1);
}

#[test]
fn changed_payload_hash_breaks_the_rule_of_the_payload_hash() {
    let block = Block::new_at(0, vec![paid(1, 1)], hash::Hash::raw(b"x"), 11).unwrap();
    let (headers, body, stored) = block.into_parts();
    let true_payload = *headers.payload_hash();
    let mut raw = *true_payload.get_bytes();
    raw[5] = raw[5].wrapping_add(1);
    let forged_payload = hash::Hash::from_bytes(raw);
    let forged_headers = BlockHeaders::from_parts(
        headers.version().clone(),
        headers.time_stamp(),
        *headers.previous_block_hash(),
        forged_payload,
        headers.target(),
        headers.nonce(),
    )
    .unwrap();
    let recomputed = hash::Hash::from(&forged_headers);
    let forged = Block::from_parts(forged_headers, body, stored);
    assert_eq!(
        forged.validate_payload_hash(),
        Err(ValidationError::PayloadHash { expected: true_payload, found: forged_payload })
    );
    assert_eq!(forged.validate_previous_hash(None), Ok(()));
    assert_eq!(forged.validate_time(None), Ok(()));
    // the headers hold the payload hash, so their hash has changed as well
    assert_eq!(
        forged.validate_block_hash(),
        Err(ValidationError::BlockHash { expected: recomputed, found: stored })
    );
    assert_eq!(
        forged.validate_block(None),
        Err(vec![
            ValidationError::BlockHash { expected: recomputed, found: stored },
            ValidationError::PayloadHash { expected: true_payload, found: forged_payload },
        ])
    );
}

#[test]
fn changed_body_breaks_the_rule_of_the_payload_hash() {
    let block = Block::new_at(0, vec![paid(1, 1)], hash::Hash::raw(b"x"), 11).unwrap();
    let (headers, _, stored) = block.into_parts();
    let payload = *headers.payload_hash();
    let other_body = BlockBody::new(vec![paid(1, 2)]);
    let other_hash = hash::Hash::from(&other_body);
    let forged = Block::from_parts(headers, other_body, stored);
    assert_eq!(forged.validate_block_hash(), Ok(()));
    assert_eq!(
        forged.validate_payload_hash(),
        Err(ValidationError::PayloadHash { expected: other_hash, found: payload })
    );
}

#[test]
fn link_rule_compares_with_the_hash_of_the_block_before() {
    let first = Block::new_at(0, Vec::new(), hash::Hash::default(), 10).unwrap();
    let linked = Block::new_at(0, Vec::new(), *first.block_hash(), 11).unwrap();
    let stray = Block::new_at(0, Vec::new(), hash::Hash::raw(b"elsewhere"), 11).unwrap();
    assert_eq!(linked.validate_previous_hash(Some(&first)), Ok(()));
    assert_eq!(
        stray.validate_previous_hash(Some(&first)),
        Err(ValidationError::PreviousHash {
            expected: *first.block_hash(),
            found: hash::Hash::raw(b"elsewhere"),
        })
    );
    assert_eq!(stray.validate_previous_hash(None), Ok(()));
}

#[test]
fn time_rule_asks_for_a_strictly_later_stamp() {
    let first = Block::new_at(0, Vec::new(), hash::Hash::default(), 10).unwrap();
    let later = Block::new_at(0, Vec::new(), *first.block_hash(), 11).unwrap();
    let same = Block::new_at(0, Vec::new(), *first.block_hash(), 10).unwrap();
    let earlier = Block::new_at(0, Vec::new(), *first.block_hash(), 9).unwrap();
    assert_eq!(later.validate_time(Some(&first)), Ok(()));
    assert_eq!(
        same.validate_time(Some(&first)),
        Err(ValidationError::Time { previous: 10, stamp: 10 })
    );
    assert_eq!(
        earlier.validate_time(Some(&first)),
        Err(ValidationError::Time { previous: 10, stamp: 9 })
    );
    assert_eq!(same.validate_time(None), Ok(()));
}

#[test]
fn validate_block_reports_every_broken_rule_in_order() {
    let first = Block::new_at(0, Vec::new(), hash::Hash::default(), 10).unwrap();
    let block = Block::new_at(0, vec![paid(1, 1)], hash::Hash::raw(b"elsewhere"), 10).unwrap();
    let (headers, _, _) = block.into_parts();
    let payload = *headers.payload_hash();
    let headers_hash = hash::Hash::from(&headers);
    let other_body = BlockBody::new(Vec::new());
    let forged = Block::from_parts(headers, other_body, hash::Hash::default());
    assert_eq!(
        forged.validate_block(Some(&first)),
        Err(vec![
            ValidationError::BlockHash { expected: headers_hash, found: hash::Hash::default() },
            ValidationError::PayloadHash { expected: hash::Hash::raw(&[0]), found: payload },
            ValidationError::PreviousHash {
                expected: *first.block_hash(),
                found: hash::Hash::raw(b"elsewhere"),
            },
            ValidationError::Time { previous: 10, stamp: 10 },
        ])
    );
}

#[test]
fn headers_with_any_short_version_can_be_assembled() {
    let headers = BlockHeaders::from_parts(
        String::from("v2.7-beta"),
        1,
        hash::Hash::default(),
        hash::Hash::default(),
        0,
        5,
    )
    .unwrap();
    assert_eq!(headers.version(), "v2.7-beta");
    assert_eq!(headers.nonce(), 5);
    assert_eq!(to_bytes(&headers)[0], 9);
}
