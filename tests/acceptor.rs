use casper_node::acceptor::{BlockAcceptor, Error};
use casper_node::types::{
    Block, BlockAdded, BlockHash, BlockHeader, Digest, FinalitySignature, ProtocolVersion,
};
use casper_node::weights::{EraValidatorWeights, SignatureWeight};

const A: u64 = 1;
const B: u64 = 2;
const C: u64 = 3;

fn hash(n: u8) -> BlockHash {
    let mut bytes = [0u8; 32];
    bytes[0] = n;
    BlockHash { digest: Digest { bytes } }
}

fn block(n: u8, era: u64, height: u64) -> Block {
    let h = hash(n);
    Block {
        hash: h,
        header: BlockHeader {
            hash: h,
            parent_hash: hash(0),
            state_root_hash: Digest { bytes: [7u8; 32] },
            accumulated_seed: Digest { bytes: [9u8; 32] },
            timestamp: 1_000,
            era_id: era,
            next_block_era_id: era,
            height,
            protocol_version: ProtocolVersion { major: 1, minor: 0, patch: 0 },
        },
    }
}

fn block_added(n: u8, era: u64) -> BlockAdded {
    BlockAdded { block: block(n, era, 10), is_valid: true }
}

fn sig(n: u8, era: u64, key: u64, body: u8) -> FinalitySignature {
    FinalitySignature {
        block_hash: hash(n),
        era_id: era,
        public_key: key,
        signature: [body; 64],
        verified: true,
    }
}

fn abc(era: u64) -> EraValidatorWeights {
    EraValidatorWeights::new(era, vec![(A, 50), (B, 40), (C, 30)]).unwrap()
}

#[test]
fn weight_crossing_makes_block_executable_once() {
    // total 120, threshold 81: A alone (50) and A with C (80) fall short,
    // A with B (90) crosses it
    let w = abc(4);
    let mut acc = BlockAcceptor::new_from_block_added(block_added(1, 4)).unwrap();
    assert_eq!(acc.register_signature(sig(1, 4, A, 1), Some(&w)), Ok(false));
    assert!(!acc.can_execute(Some(&w)));
    assert_eq!(acc.register_signature(sig(1, 4, B, 1), Some(&w)), Ok(true));
    assert!(acc.can_execute(Some(&w)));
    assert_eq!(acc.register_signature(sig(1, 4, C, 1), Some(&w)), Ok(false));
    assert_eq!(acc.register_signature(sig(1, 4, A, 2), Some(&w)), Ok(false));
    assert!(acc.can_execute(Some(&w)));
}

#[test]
fn weight_just_below_threshold_is_not_enough() {
    let w = abc(4);
    let mut acc = BlockAcceptor::new_from_block_added(block_added(1, 4)).unwrap();
    assert_eq!(acc.register_signature(sig(1, 4, A, 1), Some(&w)), Ok(false));
    assert_eq!(acc.register_signature(sig(1, 4, C, 1), Some(&w)), Ok(false));
    assert!(!acc.can_execute(Some(&w)));
    let w81 = EraValidatorWeights::new(4, vec![(A, 50), (B, 39), (C, 31)]).unwrap();
    assert!(acc.can_execute(Some(&w81)));
}

#[test]
fn latch_stays_set_without_weights() {
    let w = abc(4);
    let mut acc = BlockAcceptor::new_from_block_added(block_added(1, 4)).unwrap();
    for k in [A, B, C] {
        let _ = acc.register_signature(sig(1, 4, k, 1), None);
    }
    assert!(!acc.can_execute(None));
    assert!(acc.can_execute(Some(&w)));
    assert!(acc.can_execute(None));
    let empty = EraValidatorWeights::new(4, vec![(9, 1000)]).unwrap();
    assert!(acc.can_execute(Some(&empty)));
}

#[test]
fn wrong_era_signature_is_refused() {
    let mut acc = BlockAcceptor::new_from_block_added(block_added(1, 7)).unwrap();
    assert_eq!(acc.register_signature(sig(1, 7, A, 1), None), Ok(false));
    let bad = sig(1, 8, B, 1);
    assert_eq!(
        acc.register_signature(bad, None),
        Err(Error::FinalitySignatureWithWrongEra { finality_signature: bad, correct_era: 7 })
    );
    assert_eq!(acc.signature_count(), 1);
    assert_eq!(acc.signature_of(B), None);
    assert_eq!(acc.signature_of(A), Some(sig(1, 7, A, 1)));
}

#[test]
fn block_after_mixed_era_signatures_keeps_its_era() {
    let first = sig(1, 5, A, 1);
    let mut acc = BlockAcceptor::new_from_finality_signature(first, None).unwrap();
    assert_eq!(acc.register_signature(sig(1, 6, B, 1), None), Ok(false));
    assert_eq!(acc.register_signature(sig(1, 5, C, 1), None), Ok(false));
    assert_eq!(acc.signature_count(), 3);
    assert_eq!(acc.register_block(block_added(1, 6), None), Ok(false));
    assert_eq!(acc.signature_count(), 1);
    assert_eq!(acc.signature_of(B), Some(sig(1, 6, B, 1)));
    assert_eq!(acc.signature_of(A), None);
    assert_eq!(acc.signature_of(C), None);
    // the acceptor keeps the era it was created with
    assert_eq!(acc.era_id(), 5);
    assert_eq!(acc.block_era_and_height(), Some((5, 10)));
    assert_eq!(acc.register_signature(sig(1, 5, A, 1), None).is_err(), true);
}

#[test]
fn block_completing_weight_reports_edge() {
    let w = abc(3);
    let mut acc = BlockAcceptor::new_from_finality_signature(sig(1, 3, A, 1), Some(&w)).unwrap();
    assert_eq!(acc.register_signature(sig(1, 3, B, 1), Some(&w)), Ok(false));
    assert!(!acc.can_execute(Some(&w)));
    assert_eq!(acc.register_block(block_added(1, 3), Some(&w)), Ok(true));
    assert!(acc.can_execute(None));
}

#[test]
fn duplicate_block_is_not_an_error() {
    let mut acc = BlockAcceptor::new_from_finality_signature(sig(1, 2, A, 1), None).unwrap();
    assert_eq!(acc.register_block(block_added(1, 2), None), Ok(false));
    assert_eq!(acc.signature_count(), 1);
    assert_eq!(acc.register_block(block_added(1, 2), None), Ok(false));
    assert_eq!(acc.signature_count(), 1);
    assert!(acc.has_block_added());
    assert_eq!(acc.block(), Some(block(1, 2, 10)));
    assert_eq!(acc.block_height(), Some(10));
}

#[test]
fn invalid_block_is_refused_and_leaves_acceptor_usable() {
    let mut bad = block_added(1, 2);
    bad.is_valid = false;
    assert!(matches!(BlockAcceptor::new_from_block_added(bad), Err(Error::InvalidBlockAdded)));
    let mut acc = BlockAcceptor::new_from_finality_signature(sig(1, 2, A, 1), None).unwrap();
    assert_eq!(acc.register_block(bad, None), Err(Error::InvalidBlockAdded));
    assert!(!acc.has_block_added());
    assert_eq!(acc.register_block(block_added(1, 2), None), Ok(false));
    assert!(acc.has_block_added());
}

#[test]
fn same_validator_signs_twice_counts_once() {
    let w = abc(4);
    let mut acc = BlockAcceptor::new_from_block_added(block_added(1, 4)).unwrap();
    assert_eq!(acc.register_signature(sig(1, 4, A, 1), Some(&w)), Ok(false));
    assert_eq!(acc.register_signature(sig(1, 4, A, 2), Some(&w)), Ok(false));
    assert_eq!(acc.signature_count(), 1);
    assert_eq!(acc.signature_of(A), Some(sig(1, 4, A, 2)));
    assert_eq!(acc.register_signature(sig(1, 4, C, 1), Some(&w)), Ok(false));
    assert!(!acc.can_execute(Some(&w)));
}

#[test]
fn invalid_signature_and_wrong_era_weights_are_refused() {
    let mut unverified = sig(1, 4, A, 1);
    unverified.verified = false;
    assert!(matches!(
        BlockAcceptor::new_from_finality_signature(unverified, None),
        Err(Error::InvalidFinalitySignature)
    ));
    let w = abc(5);
    assert!(matches!(
        BlockAcceptor::new_from_finality_signature(sig(1, 4, A, 1), Some(&w)),
        Err(Error::WrongEraWeights { block_era: 4, validator_weights_era: 5 })
    ));
    let acc = BlockAcceptor::new_from_finality_signature(sig(1, 4, A, 1), None).unwrap();
    assert_eq!(acc.block_hash(), hash(1));
    assert_eq!(acc.era_id(), 4);
    assert_eq!(acc.block(), None);
}

#[test]
fn weight_classification_thresholds() {
    let w = abc(1);
    assert_eq!(w.total_weight(), 120);
    assert_eq!(w.has_sufficient_weight(&vec![]), SignatureWeight::Insufficient);
    assert_eq!(w.has_sufficient_weight(&vec![C]), SignatureWeight::Insufficient);
    assert_eq!(w.has_sufficient_weight(&vec![A]), SignatureWeight::Weak);
    assert_eq!(w.has_sufficient_weight(&vec![A, C]), SignatureWeight::Weak);
    assert_eq!(w.has_sufficient_weight(&vec![A, B]), SignatureWeight::Sufficient);
    assert_eq!(w.has_sufficient_weight(&vec![B, C, 99]), SignatureWeight::Weak);
    assert_eq!(w.signed_weight(&vec![A, 99, A]), 50);
    // total 3: strictly more than two thirds needs 3, more than one third needs 2
    let even = EraValidatorWeights::new(1, vec![(A, 1), (B, 1), (C, 1)]).unwrap();
    assert_eq!(even.has_sufficient_weight(&vec![A, B]), SignatureWeight::Weak);
    assert_eq!(even.has_sufficient_weight(&vec![A]), SignatureWeight::Insufficient);
    assert_eq!(even.has_sufficient_weight(&vec![A, B, C]), SignatureWeight::Sufficient);
    let big = EraValidatorWeights::new(1, vec![(A, u64::MAX as u128), (B, 1u128 << 70)]).unwrap();
    assert_eq!(big.total_weight(), (u64::MAX as u128) + (1u128 << 70));
    assert_eq!(big.has_sufficient_weight(&vec![A]), SignatureWeight::Insufficient);
    assert_eq!(big.has_sufficient_weight(&vec![B]), SignatureWeight::Sufficient);
    assert!(EraValidatorWeights::new(1, vec![(A, u128::MAX), (B, 1)]).is_none());
    assert!(EraValidatorWeights::new(1, vec![(A, u128::MAX), (B, 0)]).is_some());
    assert!(EraValidatorWeights::new(1, vec![(A, 1), (A, 2)]).is_none());
    assert_eq!(w.era_id(), 1);
}

#[test]
fn bogus_validators_are_the_unknown_keys() {
    let w = abc(1);
    assert_eq!(w.bogus_validators(&vec![A, 7, B, 8, 7]), vec![7, 8, 7]);
    assert_eq!(w.bogus_validators(&vec![A, B, C]), Vec::<u64>::new());
    assert_eq!(w.bogus_validators(&vec![]), Vec::<u64>::new());
}
