use vstd::prelude::*;

use crate::types::{EraId, PublicKey};

verus! {

/// How much of an era's validator weight a set of signers holds.
#[derive(Clone, Copy, Debug, PartialEq, Eq, Structural)]
pub enum SignatureWeight {
    Insufficient,
    Weak,
    Sufficient,
}

/// `a / 3` rounded up.
pub open spec fn ceil_third(a: int) -> int {
    (a + 2) / 3
}

/// Strictly more than two thirds: `weight >= ceil(2 * total / 3) + 1`.
pub open spec fn is_sufficient(weight: int, total: int) -> bool {
    weight >= ceil_third(2 * total) + 1
}

/// Strictly more than one third: `weight >= ceil(total / 3) + 1`.
pub open spec fn is_weak(weight: int, total: int) -> bool {
    weight >= ceil_third(total) + 1
}

pub open spec fn classify(weight: int, total: int) -> SignatureWeight {
    if is_sufficient(weight, total) {
        SignatureWeight::Sufficient
    } else if is_weak(weight, total) {
        SignatureWeight::Weak
    } else {
        SignatureWeight::Insufficient
    }
}

/// Sum of the weights of the validators whose key is in `keys`.
pub open spec fn weight_of(validators: Seq<(PublicKey, u128)>, keys: Set<PublicKey>) -> int
    decreases validators.len(),
{
    if validators.len() == 0 {
        0
    } else {
        let last = validators.last();
        weight_of(validators.drop_last(), keys) + if keys.contains(last.0) {
            last.1 as int
        } else {
            0
        }
    }
}

/// Sum of all the weights.
pub open spec fn total_of(validators: Seq<(PublicKey, u128)>) -> int
    decreases validators.len(),
{
    if validators.len() == 0 {
        0
    } else {
        total_of(validators.drop_last()) + validators.last().1 as int
    }
}

pub open spec fn keys_unique(validators: Seq<(PublicKey, u128)>) -> bool {
    forall|i: int, j: int|
        0 <= i < validators.len() && 0 <= j < validators.len() && i != j
            ==> #[trigger] validators[i].0 != #[trigger] validators[j].0
}

pub proof fn lemma_weight_bounds(validators: Seq<(PublicKey, u128)>, keys: Set<PublicKey>)
    ensures
        0 <= weight_of(validators, keys) <= total_of(validators),
    decreases validators.len(),
{
    if validators.len() > 0 {
        lemma_weight_bounds(validators.drop_last(), keys);
    }
}

/// A prefix of the validators holds no more than all of them.
pub proof fn lemma_prefix_total(validators: Seq<(PublicKey, u128)>, i: int)
    requires
        0 <= i <= validators.len(),
    ensures
        total_of(validators.take(i)) <= total_of(validators),
    decreases validators.len(),
{
    if i < validators.len() {
        let p = validators.drop_last();
        assert(p.take(i) == validators.take(i));
        lemma_prefix_total(p, i);
    } else {
        assert(validators.take(i) == validators);
    }
}

/// A signer set that holds another one holds at least its weight.
pub proof fn lemma_weight_monotone(
    validators: Seq<(PublicKey, u128)>,
    small: Set<PublicKey>,
    large: Set<PublicKey>,
)
    requires
        small.subset_of(large),
    ensures
        weight_of(validators, small) <= weight_of(validators, large),
    decreases validators.len(),
{
    if validators.len() > 0 {
        lemma_weight_monotone(validators.drop_last(), small, large);
    }
}

pub open spec fn is_listed(validators: Seq<(PublicKey, u128)>, k: PublicKey) -> bool {
    exists|i: int| 0 <= i < validators.len() && #[trigger] validators[i].0 == k
}

/// The keys of `keys` that no validator has, in their order.
pub open spec fn unknown_keys(validators: Seq<(PublicKey, u128)>, keys: Seq<PublicKey>) -> Seq<PublicKey>
    decreases keys.len(),
{
    if keys.len() == 0 {
        Seq::empty()
    } else {
        let rest = unknown_keys(validators, keys.drop_last());
        if is_listed(validators, keys.last()) {
            rest
        } else {
            rest.push(keys.last())
        }
    }
}

/// The weights of the validators of one era, keyed by public key. The keys
/// are distinct and the total weight fits in a `u128`.
#[derive(Debug)]
pub struct EraValidatorWeights {
    era_id: EraId,
    validators: Vec<(PublicKey, u128)>,
}

impl EraValidatorWeights {
    pub closed spec fn era(&self) -> EraId {
        self.era_id
    }

    pub closed spec fn validators(&self) -> Seq<(PublicKey, u128)> {
        self.validators@
    }

    pub open spec fn wf(&self) -> bool {
        keys_unique(self.validators()) && total_of(self.validators()) <= u128::MAX
    }

    #[verifier::type_invariant]
    spec fn inv(&self) -> bool {
        self.wf()
    }

    pub open spec fn total(&self) -> int {
        total_of(self.validators())
    }

    /// Weight held by the signers in `keys`; unknown keys add nothing.
    pub open spec fn weight_of(&self, keys: Set<PublicKey>) -> int {
        weight_of(self.validators(), keys)
    }

    pub open spec fn sufficient_for(&self, keys: Set<PublicKey>) -> bool {
        is_sufficient(self.weight_of(keys), self.total())
    }

    /// Builds the weights of an era; `None` when a key is listed twice or
    /// the total weight does not fit in a `u128`.
    pub fn new(era_id: EraId, validators: Vec<(PublicKey, u128)>) -> (r: Option<EraValidatorWeights>)
        ensures
            r is Some <==> keys_unique(validators@) && total_of(validators@) <= u128::MAX,
            r matches Some(w) ==> w.wf() && w.era() == era_id && w.validators() == validators@,
    {
        let n = validators.len();
        let mut i: usize = 0;
        while i < n
            invariant
                n == validators@.len(),
                i <= n,
                forall|a: int, b: int|
                    0 <= a < i && 0 <= b < n && a != b ==> validators@[a].0 != validators@[b].0,
            decreases n - i,
        {
            let mut j: usize = 0;
            while j < n
                invariant
                    n == validators@.len(),
                    i < n,
                    j <= n,
                    forall|b: int| 0 <= b < j && i != b ==> validators@[i as int].0 != validators@[b].0,
                decreases n - j,
            {
                if j != i && validators[i].0 == validators[j].0 {
                    return None;
                }
                j += 1;
            }
            i += 1;
        }
        let mut sum: u128 = 0;
        let mut k: usize = 0;
        while k < n
            invariant
                n == validators@.len(),
                k <= n,
                sum as int == total_of(validators@.take(k as int)),
            decreases n - k,
        {
            assert(validators@.take(k as int + 1).drop_last() == validators@.take(k as int));
            match sum.checked_add(validators[k].1) {
                Some(s) => {
                    sum = s;
                },
                None => {
                    proof {
                        lemma_prefix_total(validators@, k as int + 1);
                    }
                    return None;
                },
            }
            k += 1;
        }
        assert(validators@.take(n as int) == validators@);
        Some(EraValidatorWeights { era_id, validators })
    }

    pub fn era_id(&self) -> (r: EraId)
        ensures
            r == self.era(),
    {
        self.era_id
    }

    /// Sum of all weights of the era.
    pub fn total_weight(&self) -> (r: u128)
        ensures
            r as int == self.total(),
    {
        proof {
            use_type_invariant(self);
        }
        let mut sum: u128 = 0;
        let mut i: usize = 0;
        let n = self.validators.len();
        while i < n
            invariant
                n == self.validators@.len(),
                i <= n,
                total_of(self.validators@) <= u128::MAX,
                sum as int == total_of(self.validators@.take(i as int)),
            decreases n - i,
        {
            assert(self.validators@.take(i as int + 1).drop_last() == self.validators@.take(i as int));
            proof {
                lemma_prefix_total(self.validators@, i as int + 1);
            }
            sum = sum + self.validators[i].1;
            i += 1;
        }
        assert(self.validators@.take(i as int) == self.validators@);
        sum
    }

    /// Sum of the weights of the validators among `keys`.
    pub fn signed_weight(&self, keys: &Vec<PublicKey>) -> (r: u128)
        ensures
            r as int == self.weight_of(keys@.to_set()),
    {
        proof {
            use_type_invariant(self);
        }
        let mut sum: u128 = 0;
        let mut i: usize = 0;
        let n = self.validators.len();
        while i < n
            invariant
                n == self.validators@.len(),
                i <= n,
                total_of(self.validators@) <= u128::MAX,
                sum as int == weight_of(self.validators@.take(i as int), keys@.to_set()),
            decreases n - i,
        {
            let ghost s = self.validators@.take(i as int + 1);
            assert(s.drop_last() == self.validators@.take(i as int));
            let (key, weight) = self.validators[i];
            let mut found = false;
            let mut j: usize = 0;
            while j < keys.len()
                invariant
                    j <= keys@.len(),
                    found <==> exists|b: int| 0 <= b < j && keys@[b] == key,
                decreases keys@.len() - j,
            {
                if keys[j] == key {
                    found = true;
                }
                j += 1;
            }
            assert(found <==> keys@.to_set().contains(key)) by {
                if keys@.to_set().contains(key) {
                    assert(keys@.contains(key));
                }
            }
            proof {
                lemma_weight_bounds(s, keys@.to_set());
                lemma_prefix_total(self.validators@, i as int + 1);
            }
            if found {
                sum = sum + weight;
            }
            i += 1;
        }
        assert(self.validators@.take(i as int) == self.validators@);
        sum
    }

    /// Classifies the weight held by the signers in `keys`.
    pub fn has_sufficient_weight(&self, keys: &Vec<PublicKey>) -> (r: SignatureWeight)
        ensures
            r == classify(self.weight_of(keys@.to_set()), self.total()),
    {
        let signed = self.signed_weight(keys);
        let total = self.total_weight();
        let third = total / 3;
        let rem = total % 3;
        proof {
            assert(ceil_third(2 * total) == total - third) by (nonlinear_arith)
                requires third == total / 3;
            assert(ceil_third(total as int) == third + if rem == 0 { 0int } else { 1int }) by (nonlinear_arith)
                requires third == total / 3, rem == total % 3;
        }
        if signed > total - third {
            SignatureWeight::Sufficient
        } else if signed > third + if rem == 0 { 0 } else { 1 } {
            SignatureWeight::Weak
        } else {
            SignatureWeight::Insufficient
        }
    }

    /// The keys among `keys` that are not validators of this era.
    pub fn bogus_validators(&self, keys: &Vec<PublicKey>) -> (r: Vec<PublicKey>)
        ensures
            r@ == unknown_keys(self.validators(), keys@),
    {
        let mut bogus: Vec<PublicKey> = Vec::new();
        let n = keys.len();
        let m = self.validators.len();
        let mut i: usize = 0;
        while i < n
            invariant
                n == keys@.len(),
                m == self.validators@.len(),
                i <= n,
                bogus@ == unknown_keys(self.validators@, keys@.take(i as int)),
            decreases n - i,
        {
            assert(keys@.take(i as int + 1).drop_last() == keys@.take(i as int));
            let key = keys[i];
            let mut listed = false;
            let mut j: usize = 0;
            while j < m
                invariant
                    m == self.validators@.len(),
                    j <= m,
                    listed <==> exists|b: int| 0 <= b < j && #[trigger] self.validators@[b].0 == key,
                decreases m - j,
            {
                if self.validators[j].0 == key {
                    listed = true;
                }
                j += 1;
            }
            if !listed {
                bogus.push(key);
            }
            i += 1;
        }
        assert(keys@.take(n as int) == keys@);
        bogus
    }
}

} // verus!
