use vstd::prelude::*;

use crate::latch::Latch;
use crate::types::{Block, BlockAdded, BlockHash, EraId, FinalitySignature, PublicKey};
use crate::weights::{lemma_weight_monotone, EraValidatorWeights, SignatureWeight};

verus! {

/// Why a piece of gossip was not accepted.
#[derive(Clone, Copy, Debug, PartialEq, Eq)]
pub enum Error {
    /// The block failed its self-consistency check.
    InvalidBlockAdded,
    /// The finality signature failed verification.
    InvalidFinalitySignature,
    /// The validator weights supplied belong to another era.
    WrongEraWeights { block_era: EraId, validator_weights_era: EraId },
    /// The signature's era disagrees with the era of the known block.
    FinalitySignatureWithWrongEra { finality_signature: FinalitySignature, correct_era: EraId },
}

/// No two signatures come from the same validator.
pub open spec fn unique_signers(s: Seq<FinalitySignature>) -> bool {
    forall|i: int, j: int|
        0 <= i < s.len() && 0 <= j < s.len() && i != j
            ==> #[trigger] s[i].public_key != #[trigger] s[j].public_key
}

pub open spec fn has_signer(s: Seq<FinalitySignature>, k: PublicKey) -> bool {
    exists|j: int| 0 <= j < s.len() && #[trigger] s[j].public_key == k
}

/// The validators that signed.
pub open spec fn keys_of(s: Seq<FinalitySignature>) -> Set<PublicKey> {
    Set::new(|k: PublicKey| has_signer(s, k))
}

/// The signatures keyed by the validator that made them.
pub open spec fn map_of(s: Seq<FinalitySignature>) -> Map<PublicKey, FinalitySignature> {
    Map::new(
        |k: PublicKey| has_signer(s, k),
        |k: PublicKey| s[choose|j: int| 0 <= j < s.len() && #[trigger] s[j].public_key == k],
    )
}

/// The signatures of `s` made in era `e`, in their order.
pub open spec fn keep_era(s: Seq<FinalitySignature>, e: EraId) -> Seq<FinalitySignature>
    decreases s.len(),
{
    if s.len() == 0 {
        Seq::empty()
    } else {
        let rest = keep_era(s.drop_last(), e);
        if s.last().era_id == e {
            rest.push(s.last())
        } else {
            rest
        }
    }
}

proof fn lemma_map_entry(s: Seq<FinalitySignature>, j: int)
    requires
        unique_signers(s),
        0 <= j < s.len(),
    ensures
        map_of(s).contains_key(s[j].public_key),
        map_of(s)[s[j].public_key] == s[j],
{
    let k = s[j].public_key;
    assert(has_signer(s, k));
    let c = choose|c: int| 0 <= c < s.len() && #[trigger] s[c].public_key == k;
    assert(c == j);
}

proof fn lemma_keep_era(s: Seq<FinalitySignature>, e: EraId)
    ensures
        forall|i: int| 0 <= i < keep_era(s, e).len() ==> (#[trigger] keep_era(s, e)[i]).era_id == e,
        forall|i: int|
            0 <= i < keep_era(s, e).len() ==> exists|j: int|
                0 <= j < s.len() && s[j] == #[trigger] keep_era(s, e)[i],
        (forall|i: int| 0 <= i < s.len() ==> (#[trigger] s[i]).era_id == e) ==> keep_era(s, e) == s,
        unique_signers(s) ==> unique_signers(keep_era(s, e)),
    decreases s.len(),
{
    if s.len() > 0 {
        let p = s.drop_last();
        lemma_keep_era(p, e);
        let r = keep_era(s, e);
        assert forall|i: int| 0 <= i < r.len() implies exists|j: int|
            0 <= j < s.len() && s[j] == #[trigger] r[i] by {
            if i < keep_era(p, e).len() {
                let j = choose|j: int| 0 <= j < p.len() && p[j] == keep_era(p, e)[i];
                assert(s[j] == r[i]);
            } else {
                assert(s[s.len() - 1] == r[i]);
            }
        }
        if forall|i: int| 0 <= i < s.len() ==> (#[trigger] s[i]).era_id == e {
            assert forall|i: int| 0 <= i < p.len() implies (#[trigger] p[i]).era_id == e by {
                assert(s[i] == p[i]);
            }
            assert(p.push(s.last()) == s);
        }
        if unique_signers(s) {
            assert forall|i: int, j: int|
                0 <= i < p.len() && 0 <= j < p.len() && i != j
                    implies #[trigger] p[i].public_key != #[trigger] p[j].public_key by {
                assert(s[i] == p[i] && s[j] == p[j]);
            }
            let q = keep_era(p, e);
            if s.last().era_id == e {
                assert forall|i: int, j: int|
                    0 <= i < r.len() && 0 <= j < r.len() && i != j
                        implies #[trigger] r[i].public_key != #[trigger] r[j].public_key by {
                    if i < q.len() && j < q.len() {
                        assert(r[i] == q[i] && r[j] == q[j]);
                    } else if i < q.len() {
                        let a = choose|a: int| 0 <= a < p.len() && p[a] == q[i];
                        assert(s[a] == r[i]);
                        assert(r[j] == s[s.len() - 1]);
                    } else {
                        let a = choose|a: int| 0 <= a < p.len() && p[a] == q[j];
                        assert(s[a] == r[j]);
                        assert(r[i] == s[s.len() - 1]);
                    }
                }
            }
        }
    }
}

/// Gathers a gossiped block and the finality signatures for its hash, and
/// latches, once and for ever, that the block may be executed.
pub struct BlockAcceptor {
    block_hash: BlockHash,
    era_id: EraId,
    block_added: Option<BlockAdded>,
    signatures: Vec<FinalitySignature>,
    can_execute: Latch,
}

impl BlockAcceptor {
    pub closed spec fn hash(&self) -> BlockHash {
        self.block_hash
    }

    pub closed spec fn era(&self) -> EraId {
        self.era_id
    }

    pub closed spec fn block_added_spec(&self) -> Option<BlockAdded> {
        self.block_added
    }

    /// The signatures held, one per validator.
    pub closed spec fn sigs(&self) -> Seq<FinalitySignature> {
        self.signatures@
    }

    /// Whether the executable latch is set.
    pub closed spec fn executable(&self) -> bool {
        self.can_execute@
    }

    pub open spec fn signers(&self) -> Set<PublicKey> {
        keys_of(self.sigs())
    }

    pub open spec fn signature_map(&self) -> Map<PublicKey, FinalitySignature> {
        map_of(self.sigs())
    }

    pub open spec fn wf(&self) -> bool {
        &&& unique_signers(self.sigs())
        &&& self.executable() ==> self.block_added_spec() is Some
        &&& self.block_added_spec() matches Some(b) ==> {
            &&& b.block.hash == self.hash()
            &&& forall|i: int| 0 <= i < self.sigs().len()
                ==> (#[trigger] self.sigs()[i]).era_id == b.block.header.era_id
        }
    }

    /// The block body is present and the signers hold strictly more than
    /// two thirds of the weight in `weights`.
    pub open spec fn meets_threshold(&self, weights: Option<&EraValidatorWeights>) -> bool {
        &&& self.block_added_spec() is Some
        &&& weights matches Some(w)
        &&& w.sufficient_for(self.signers())
    }

    /// The known block's era disagrees with `sig`'s.
    pub open spec fn rejects_era(&self, sig: FinalitySignature) -> bool {
        self.block_added_spec() matches Some(b) && b.block.header.era_id != sig.era_id
    }

    /// `after` is `before` with `sig` stored under its validator's key.
    pub open spec fn signature_registered(before: BlockAcceptor, after: BlockAcceptor, sig: FinalitySignature) -> bool {
        &&& after.hash() == before.hash()
        &&& after.era() == before.era()
        &&& after.block_added_spec() == before.block_added_spec()
        &&& after.signature_map() == before.signature_map().insert(sig.public_key, sig)
        &&& after.signers() == before.signers().insert(sig.public_key)
    }

    /// The executable latch of `after` is what the edge-reporting mutators
    /// leave: set if it was set before or if the threshold is now met.
    pub open spec fn latch_updated(before: BlockAcceptor, after: BlockAcceptor, weights: Option<&EraValidatorWeights>) -> bool {
        after.executable() == (before.executable() || after.meets_threshold(weights))
    }

    /// What a mutator reports: whether it made the block executable.
    pub open spec fn edge(before: BlockAcceptor, after: BlockAcceptor, weights: Option<&EraValidatorWeights>) -> bool {
        after.executable() && !(before.executable() || before.meets_threshold(weights))
    }

    /// Starts an acceptor from a gossiped block.
    pub fn new_from_block_added(block_added: BlockAdded) -> (r: Result<BlockAcceptor, Error>)
        ensures
            !block_added.is_valid ==> r == Err::<BlockAcceptor, Error>(Error::InvalidBlockAdded),
            block_added.is_valid ==> r is Ok,
            r matches Ok(a) ==> {
                &&& a.wf()
                &&& a.hash() == block_added.block.hash
                &&& a.era() == block_added.block.header.era_id
                &&& a.block_added_spec() == Some(block_added)
                &&& a.sigs().len() == 0
                &&& !a.executable()
            },
    {
        if !block_added.validate() {
            return Err(Error::InvalidBlockAdded);
        }
        Ok(BlockAcceptor {
            block_hash: block_added.block.hash,
            era_id: block_added.block.header.era_id,
            block_added: Some(block_added),
            signatures: Vec::new(),
            can_execute: Latch::new(false),
        })
    }

    /// Starts an acceptor from a gossiped finality signature.
    pub fn new_from_finality_signature(
        finality_signature: FinalitySignature,
        era_validator_weights: Option<&EraValidatorWeights>,
    ) -> (r: Result<BlockAcceptor, Error>)
        ensures
            !finality_signature.verified ==> r == Err::<BlockAcceptor, Error>(Error::InvalidFinalitySignature),
            finality_signature.verified && era_validator_weights is Some
                && era_validator_weights.unwrap().era() != finality_signature.era_id
                ==> r == Err::<BlockAcceptor, Error>(
                (Error::WrongEraWeights {
                    block_era: finality_signature.era_id,
                    validator_weights_era: era_validator_weights.unwrap().era(),
                }),
            ),
            r is Ok <==> finality_signature.verified && (era_validator_weights is Some
                ==> era_validator_weights.unwrap().era() == finality_signature.era_id),
            r matches Ok(a) ==> {
                &&& a.wf()
                &&& a.hash() == finality_signature.block_hash
                &&& a.era() == finality_signature.era_id
                &&& a.block_added_spec() is None
                &&& a.sigs() == seq![finality_signature]
                &&& a.signature_map() == map![finality_signature.public_key => finality_signature]
                &&& !a.executable()
            },
    {
        if !finality_signature.is_verified() {
            return Err(Error::InvalidFinalitySignature);
        }
        if let Some(weights) = era_validator_weights {
            if weights.era_id() != finality_signature.era_id {
                return Err(
                    Error::WrongEraWeights {
                        block_era: finality_signature.era_id,
                        validator_weights_era: weights.era_id(),
                    },
                );
            }
        }
        let mut signatures = Vec::new();
        signatures.push(finality_signature);
        proof {
            lemma_map_entry(signatures@, 0);
            assert(map_of(signatures@) =~= map![finality_signature.public_key => finality_signature]);
        }
        Ok(BlockAcceptor {
            block_hash: finality_signature.block_hash,
            era_id: finality_signature.era_id,
            block_added: None,
            signatures,
            can_execute: Latch::new(false),
        })
    }

    fn signer_keys(&self) -> (r: Vec<PublicKey>)
        ensures
            r@.to_set() == self.signers(),
    {
        let mut keys: Vec<PublicKey> = Vec::new();
        let n = self.signatures.len();
        let mut i: usize = 0;
        while i < n
            invariant
                n == self.signatures@.len(),
                i <= n,
                keys@.len() == i,
                forall|j: int| 0 <= j < i ==> keys@[j] == #[trigger] self.signatures@[j].public_key,
            decreases n - i,
        {
            keys.push(self.signatures[i].public_key);
            i += 1;
        }
        assert forall|k: PublicKey| keys@.to_set().contains(k) <==> self.signers().contains(k) by {
            if self.signers().contains(k) {
                let j = choose|j: int| 0 <= j < self.sigs().len() && #[trigger] self.sigs()[j].public_key == k;
                assert(keys@[j] == k);
            }
            if keys@.to_set().contains(k) {
                let j = choose|j: int| 0 <= j < keys@.len() && keys@[j] == k;
                assert(self.sigs()[j].public_key == k);
            }
        }
        assert(keys@.to_set() =~= self.signers());
        keys
    }

    /// Whether the block may be executed. Sets the latch the first time the
    /// block body is present and the signers hold sufficient weight; once
    /// set, it stays set whatever the weights.
    pub fn can_execute(&mut self, era_validator_weights: Option<&EraValidatorWeights>) -> (r: bool)
        requires
            old(self).wf(),
        ensures
            final(self).wf(),
            r == final(self).executable(),
            final(self).executable() == (old(self).executable() || old(self).meets_threshold(era_validator_weights)),
            old(self).executable() ==> r,
            final(self).hash() == old(self).hash(),
            final(self).era() == old(self).era(),
            final(self).block_added_spec() == old(self).block_added_spec(),
            final(self).sigs() == old(self).sigs(),
    {
        if self.can_execute.get() {
            return true;
        }
        if self.block_added.is_none() {
            return false;
        }
        match era_validator_weights {
            None => {
                return false;
            },
            Some(weights) => {
                let keys = self.signer_keys();
                if weights.has_sufficient_weight(&keys) == SignatureWeight::Sufficient {
                    let updated = self.can_execute.set();
                    assert(updated);
                }
            },
        }
        self.can_execute.get()
    }

    /// Stores `sig` under its validator's key, replacing an earlier one.
    fn insert_signature(&mut self, sig: FinalitySignature)
        requires
            unique_signers(old(self).sigs()),
        ensures
            unique_signers(final(self).sigs()),
            final(self).signature_map() == old(self).signature_map().insert(sig.public_key, sig),
            final(self).signers() == old(self).signers().insert(sig.public_key),
            (forall|i: int| 0 <= i < old(self).sigs().len() ==> (#[trigger] old(self).sigs()[i]).era_id == sig.era_id)
                ==> forall|i: int| 0 <= i < final(self).sigs().len() ==> (#[trigger] final(self).sigs()[i]).era_id == sig.era_id,
            final(self).block_hash == old(self).block_hash,
            final(self).era_id == old(self).era_id,
            final(self).block_added == old(self).block_added,
            final(self).can_execute == old(self).can_execute,
    {
        let ghost s = self.signatures@;
        let n = self.signatures.len();
        let mut i: usize = 0;
        while i < n
            invariant
                n == s.len(),
                i <= n,
                self.signatures@ == s,
                s == old(self).signatures@,
                unique_signers(s),
                self.block_hash == old(self).block_hash,
                self.era_id == old(self).era_id,
                self.block_added == old(self).block_added,
                self.can_execute == old(self).can_execute,
                forall|j: int| 0 <= j < i ==> (#[trigger] s[j]).public_key != sig.public_key,
            decreases n - i,
        {
            if self.signatures[i].public_key == sig.public_key {
                self.signatures.set(i, sig);
                proof {
                    let t = self.signatures@;
                    assert(t == s.update(i as int, sig));
                    assert(unique_signers(t)) by {
                        assert forall|a: int, b: int| 0 <= a < t.len() && 0 <= b < t.len() && a != b
                            implies #[trigger] t[a].public_key != #[trigger] t[b].public_key by {
                            if a != i && b != i {
                                assert(t[a] == s[a] && t[b] == s[b]);
                            } else if a == i {
                                assert(t[b] == s[b]);
                                assert(s[i as int].public_key == sig.public_key);
                            } else {
                                assert(t[a] == s[a]);
                                assert(s[i as int].public_key == sig.public_key);
                            }
                        }
                    }
                    assert forall|k: PublicKey| has_signer(t, k) <==> has_signer(s, k) || k == sig.public_key by {
                        if has_signer(s, k) {
                            let j = choose|j: int| 0 <= j < s.len() && #[trigger] s[j].public_key == k;
                            assert(t[j].public_key == k);
                        }
                        if has_signer(t, k) {
                            let j = choose|j: int| 0 <= j < t.len() && #[trigger] t[j].public_key == k;
                            if j != i {
                                assert(s[j].public_key == k);
                            }
                        }
                        if k == sig.public_key {
                            assert(t[i as int].public_key == k);
                        }
                    }
                    assert(keys_of(t) =~= keys_of(s).insert(sig.public_key));
                    assert forall|k: PublicKey| #[trigger] map_of(t).contains_key(k) implies map_of(t)[k]
                        == map_of(s).insert(sig.public_key, sig)[k] by {
                        let j = choose|j: int| 0 <= j < t.len() && #[trigger] t[j].public_key == k;
                        lemma_map_entry(t, j);
                        if j != i {
                            assert(t[j] == s[j]);
                            lemma_map_entry(s, j);
                        }
                    }
                    assert(map_of(t) =~= map_of(s).insert(sig.public_key, sig));
                }
                return;
            }
            i += 1;
        }
        self.signatures.push(sig);
        proof {
            let t = self.signatures@;
            assert(t == s.push(sig));
            assert(unique_signers(t)) by {
                assert forall|a: int, b: int| 0 <= a < t.len() && 0 <= b < t.len() && a != b
                    implies #[trigger] t[a].public_key != #[trigger] t[b].public_key by {
                    if a < n && b < n {
                        assert(t[a] == s[a] && t[b] == s[b]);
                    } else if a < n {
                        assert(t[a] == s[a]);
                    } else {
                        assert(t[b] == s[b]);
                    }
                }
            }
            assert forall|k: PublicKey| has_signer(t, k) <==> has_signer(s, k) || k == sig.public_key by {
                if has_signer(s, k) {
                    let j = choose|j: int| 0 <= j < s.len() && #[trigger] s[j].public_key == k;
                    assert(t[j].public_key == k);
                }
                if has_signer(t, k) {
                    let j = choose|j: int| 0 <= j < t.len() && #[trigger] t[j].public_key == k;
                    if j < n {
                        assert(s[j].public_key == k);
                    }
                }
                if k == sig.public_key {
                    assert(t[n as int].public_key == k);
                }
            }
            assert(keys_of(t) =~= keys_of(s).insert(sig.public_key));
            assert forall|k: PublicKey| #[trigger] map_of(t).contains_key(k) implies map_of(t)[k]
                == map_of(s).insert(sig.public_key, sig)[k] by {
                let j = choose|j: int| 0 <= j < t.len() && #[trigger] t[j].public_key == k;
                lemma_map_entry(t, j);
                if j < n {
                    assert(t[j] == s[j]);
                    lemma_map_entry(s, j);
                }
            }
            assert(map_of(t) =~= map_of(s).insert(sig.public_key, sig));
        }
    }

    /// Adds a finality signature. Returns whether this call made the block
    /// executable; a signature whose era disagrees with the known block's is
    /// refused and not stored.
    pub fn register_signature(
        &mut self,
        finality_signature: FinalitySignature,
        era_validator_weights: Option<&EraValidatorWeights>,
    ) -> (r: Result<bool, Error>)
        requires
            old(self).wf(),
        ensures
            final(self).wf(),
            old(self).executable() ==> final(self).executable(),
            old(self).rejects_era(finality_signature) ==> {
                &&& r == Err::<bool, Error>(
                    (Error::FinalitySignatureWithWrongEra {
                        finality_signature,
                        correct_era: old(self).block_added_spec().unwrap().block.header.era_id,
                    }),
                )
                &&& *final(self) == *old(self)
            },
            !old(self).rejects_era(finality_signature) ==> {
                &&& r == Ok::<bool, Error>(Self::edge(*old(self), *final(self), era_validator_weights))
                &&& Self::signature_registered(*old(self), *final(self), finality_signature)
                &&& Self::latch_updated(*old(self), *final(self), era_validator_weights)
            },
    {
        if let Some(block_added) = &self.block_added {
            if block_added.block.header.era_id != finality_signature.era_id {
                return Err(
                    Error::FinalitySignatureWithWrongEra {
                        finality_signature,
                        correct_era: block_added.block.header.era_id,
                    },
                );
            }
        }
        let ghost before = *self;
        let could_execute = self.can_execute(era_validator_weights);
        self.insert_signature(finality_signature);
        proof {
            if let Some(w) = era_validator_weights {
                lemma_weight_monotone(w.validators(), before.signers(), self.signers());
            }
        }
        let can_execute = self.can_execute(era_validator_weights);
        Ok(can_execute && !could_execute)
    }

    /// Adds the block body, which callers route here by its hash. A second
    /// body is ignored (`Ok(false)`); signatures of another era than the
    /// body's are dropped, and the acceptor keeps the era it was created
    /// with. Returns whether this call made the block executable.
    pub fn register_block(
        &mut self,
        block_added: BlockAdded,
        era_validator_weights: Option<&EraValidatorWeights>,
    ) -> (r: Result<bool, Error>)
        requires
            old(self).wf(),
            old(self).block_added_spec() is None && block_added.is_valid ==> block_added.block.hash
                == old(self).hash(),
        ensures
            final(self).wf(),
            old(self).executable() ==> final(self).executable(),
            old(self).block_added_spec() is Some ==> r == Ok::<bool, Error>(false) && *final(self) == *old(self),
            old(self).block_added_spec() is None && !block_added.is_valid ==> {
                &&& r == Err::<bool, Error>(Error::InvalidBlockAdded)
                &&& *final(self) == *old(self)
            },
            old(self).block_added_spec() is None && block_added.is_valid ==> {
                &&& r == Ok::<bool, Error>(Self::edge(*old(self), *final(self), era_validator_weights))
                &&& final(self).hash() == old(self).hash()
                &&& final(self).era() == old(self).era()
                &&& final(self).block_added_spec() == Some(block_added)
                &&& final(self).sigs() == keep_era(old(self).sigs(), block_added.block.header.era_id)
                &&& forall|i: int| 0 <= i < final(self).sigs().len()
                    ==> (#[trigger] final(self).sigs()[i]).era_id == block_added.block.header.era_id
                &&& Self::latch_updated(*old(self), *final(self), era_validator_weights)
            },
    {
        if self.block_added.is_some() {
            return Ok(false);
        }
        if !block_added.validate() {
            return Err(Error::InvalidBlockAdded);
        }
        let era_id = block_added.block.header.era_id;
        let ghost s = self.signatures@;
        let mut kept: Vec<FinalitySignature> = Vec::new();
        let n = self.signatures.len();
        let mut i: usize = 0;
        while i < n
            invariant
                n == s.len(),
                s == self.signatures@,
                i <= n,
                kept@ == keep_era(s.take(i as int), era_id),
            decreases n - i,
        {
            assert(s.take(i as int + 1).drop_last() == s.take(i as int));
            let sig = self.signatures[i];
            if sig.era_id == era_id {
                kept.push(sig);
            }
            i += 1;
        }
        assert(s.take(n as int) == s);
        proof {
            lemma_keep_era(s, era_id);
        }
        self.signatures = kept;
        let could_execute = self.can_execute(era_validator_weights);
        self.block_added = Some(block_added);
        let can_execute = self.can_execute(era_validator_weights);
        Ok(can_execute && !could_execute)
    }

    pub fn has_block_added(&self) -> (r: bool)
        ensures
            r == self.block_added_spec() is Some,
    {
        self.block_added.is_some()
    }

    /// The block body, if it has arrived.
    pub fn block(&self) -> (r: Option<Block>)
        ensures
            r == (match self.block_added_spec() {
                Some(b) => Some(b.block),
                None => None,
            }),
    {
        match &self.block_added {
            Some(block_added) => Some(block_added.block),
            None => None,
        }
    }

    pub fn block_era_and_height(&self) -> (r: Option<(EraId, u64)>)
        ensures
            r == (match self.block_added_spec() {
                Some(b) => Some((self.era(), b.block.header.height)),
                None => None,
            }),
    {
        match &self.block_added {
            Some(block_added) => Some((self.era_id, block_added.block.header.height)),
            None => None,
        }
    }

    pub fn block_height(&self) -> (r: Option<u64>)
        ensures
            r == (match self.block_added_spec() {
                Some(b) => Some(b.block.header.height),
                None => None,
            }),
    {
        match &self.block_added {
            Some(block_added) => Some(block_added.block.header.height),
            None => None,
        }
    }

    pub fn era_id(&self) -> (r: EraId)
        ensures
            r == self.era(),
    {
        self.era_id
    }

    pub fn block_hash(&self) -> (r: BlockHash)
        ensures
            r == self.hash(),
    {
        self.block_hash
    }

    /// The number of validators that have signed.
    pub fn signature_count(&self) -> (r: usize)
        ensures
            r == self.sigs().len(),
    {
        self.signatures.len()
    }

    /// The signature held for validator `key`, if any.
    pub fn signature_of(&self, key: PublicKey) -> (r: Option<FinalitySignature>)
        requires
            self.wf(),
        ensures
            r == (if self.signature_map().contains_key(key) {
                Some(self.signature_map()[key])
            } else {
                None
            }),
    {
        let n = self.signatures.len();
        let mut i: usize = 0;
        while i < n
            invariant
                n == self.sigs().len(),
                i <= n,
                self.wf(),
                forall|j: int| 0 <= j < i ==> (#[trigger] self.sigs()[j]).public_key != key,
            decreases n - i,
        {
            if self.signatures[i].public_key == key {
                proof {
                    lemma_map_entry(self.sigs(), i as int);
                }
                return Some(self.signatures[i]);
            }
            i += 1;
        }
        None
    }

    /// `after` is executable and `before` was not.
    pub open spec fn became_executable(before: BlockAcceptor, after: BlockAcceptor) -> bool {
        !before.executable() && after.executable()
    }

    /// Across any run of operations on one acceptor, each of which keeps a
    /// set latch set (as every mutator here ensures), at most one step makes
    /// the acceptor executable; in particular at most one `register_signature`
    /// or `register_block` call returns `Ok(true)`, since each returns
    /// `Ok(true)` only on such a step.
    pub proof fn lemma_at_most_one_edge(states: Seq<BlockAcceptor>, i: int, j: int)
        requires
            forall|k: int| 0 <= k < states.len() - 1 ==> (#[trigger] states[k].executable() ==> states[k + 1].executable()),
            0 <= i < j,
            j < states.len() - 1,
        ensures
            !(Self::became_executable(states[i], states[i + 1]) && Self::became_executable(states[j], states[j + 1])),
        decreases j - i,
    {
        if i + 1 < j {
            if Self::became_executable(states[i], states[i + 1]) {
                assert(states[i + 1].executable());
                Self::lemma_latch_persists(states, i + 1, j);
            }
        }
    }

    proof fn lemma_latch_persists(states: Seq<BlockAcceptor>, i: int, j: int)
        requires
            forall|k: int| 0 <= k < states.len() - 1 ==> (#[trigger] states[k].executable() ==> states[k + 1].executable()),
            0 <= i <= j < states.len(),
            states[i].executable(),
        ensures
            states[j].executable(),
        decreases j - i,
    {
        if i < j {
            assert(states[i + 1].executable());
            Self::lemma_latch_persists(states, i + 1, j);
        }
    }

    /// Two signatures from one validator leave a single entry for that
    /// validator, holding the later one, and the signer set (and so the
    /// weight it holds under any validator weights) counts that validator
    /// once.
    pub proof fn lemma_signature_dedup(
        a0: BlockAcceptor,
        a1: BlockAcceptor,
        a2: BlockAcceptor,
        first: FinalitySignature,
        second: FinalitySignature,
        weights: EraValidatorWeights,
    )
        requires
            Self::signature_registered(a0, a1, first),
            Self::signature_registered(a1, a2, second),
            first.public_key == second.public_key,
        ensures
            a2.signature_map() == a0.signature_map().insert(second.public_key, second),
            a2.signature_map().dom() == a0.signature_map().dom().insert(second.public_key),
            a2.signers() == a1.signers(),
            weights.weight_of(a2.signers()) == weights.weight_of(a0.signers().insert(second.public_key)),
    {
        assert(a2.signature_map() =~= a0.signature_map().insert(second.public_key, second));
        assert(a2.signers() =~= a1.signers());
    }

    /// With its body present, an acceptor meets the threshold under `weights`
    /// exactly when its signers' weight is at least `ceil(2 * total / 3) + 1`;
    /// `can_execute` sets the latch exactly then.
    pub proof fn lemma_weight_threshold(acceptor: BlockAcceptor, weights: EraValidatorWeights)
        requires
            acceptor.block_added_spec() is Some,
        ensures
            acceptor.meets_threshold(Some(&weights)) <==> weights.weight_of(acceptor.signers())
                >= crate::weights::ceil_third(2 * weights.total()) + 1,
    {
    }
}

} // verus!
