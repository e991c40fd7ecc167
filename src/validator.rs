use vstd::prelude::*;

verus! {

/// A validator of the counterparty chain: its address and voting power.
#[derive(Clone, Copy, PartialEq, Eq, Structural, Debug)]
pub struct Validator {
    pub address: u64,
    pub voting_power: u64,
}

/// A validator set with the hash the counterparty chain commits it under.
#[derive(Clone, Debug)]
pub struct ValidatorSet {
    pub validators: Vec<Validator>,
    pub hash: Vec<u8>,
}

/// The summed voting power of `vals`.
pub open spec fn total_power(vals: Seq<Validator>) -> nat
    decreases vals.len(),
{
    if vals.len() == 0 {
        0
    } else {
        total_power(vals.drop_last()) + vals.last().voting_power as nat
    }
}

/// The voting power of the members of `vals` whose address is among `signers`.
pub open spec fn signed_power(vals: Seq<Validator>, signers: Seq<u64>) -> nat
    decreases vals.len(),
{
    if vals.len() == 0 {
        0
    } else {
        signed_power(vals.drop_last(), signers) + if signers.contains(vals.last().address) {
            vals.last().voting_power as nat
        } else {
            0nat
        }
    }
}

/// More than one third of the total power signed.
pub open spec fn exceeds_one_third(signed: nat, total: nat) -> bool {
    3 * signed > total
}

/// More than two thirds of the total power signed.
pub open spec fn exceeds_two_thirds(signed: nat, total: nat) -> bool {
    3 * signed > 2 * total
}

pub proof fn lemma_signed_le_total(vals: Seq<Validator>, signers: Seq<u64>)
    ensures
        signed_power(vals, signers) <= total_power(vals),
    decreases vals.len(),
{
    if vals.len() > 0 {
        lemma_signed_le_total(vals.drop_last(), signers);
    }
}

proof fn lemma_total_bound(vals: Seq<Validator>)
    ensures
        total_power(vals) <= vals.len() * (u64::MAX as nat),
    decreases vals.len(),
{
    if vals.len() > 0 {
        lemma_total_bound(vals.drop_last());
        assert((vals.len() - 1) * (u64::MAX as nat) + u64::MAX as nat == vals.len() * (
        u64::MAX as nat)) by (nonlinear_arith);
    }
}

/// Whether `signers` lists `address`.
pub fn contains_address(signers: &Vec<u64>, address: u64) -> (r: bool)
    ensures
        r == signers@.contains(address),
{
    let mut i: usize = 0;
    while i < signers.len()
        invariant
            i <= signers@.len(),
            forall|j: int| 0 <= j < i ==> signers@[j] != address,
        decreases signers@.len() - i,
    {
        if signers[i] == address {
            assert(signers@[i as int] == address);
            return true;
        }
        i = i + 1;
    }
    false
}

impl ValidatorSet {
    /// The summed voting power of the set.
    pub fn total_voting_power(&self) -> (r: u128)
        ensures
            r == total_power(self.validators@),
    {
        let mut acc: u128 = 0;
        let mut i: usize = 0;
        while i < self.validators.len()
            invariant
                i <= self.validators@.len(),
                acc == total_power(self.validators@.subrange(0, i as int)),
            decreases self.validators@.len() - i,
        {
            let ghost pre = self.validators@.subrange(0, i as int);
            assert(self.validators@.subrange(0, i + 1).drop_last() =~= pre);
            proof {
                lemma_total_bound(self.validators@.subrange(0, i + 1));
                assert((i + 1) * (u64::MAX as nat) <= u128::MAX) by (nonlinear_arith)
                    requires
                        i + 1 <= usize::MAX,
                ;
            }
            acc = acc + self.validators[i].voting_power as u128;
            i = i + 1;
        }
        assert(self.validators@.subrange(0, i as int) =~= self.validators@);
        acc
    }

    /// The voting power of the members whose address is among `signers`.
    pub fn signed_voting_power(&self, signers: &Vec<u64>) -> (r: u128)
        ensures
            r == signed_power(self.validators@, signers@),
    {
        let mut acc: u128 = 0;
        let mut i: usize = 0;
        while i < self.validators.len()
            invariant
                i <= self.validators@.len(),
                acc == signed_power(self.validators@.subrange(0, i as int), signers@),
            decreases self.validators@.len() - i,
        {
            let ghost pre = self.validators@.subrange(0, i as int);
            assert(self.validators@.subrange(0, i + 1).drop_last() =~= pre);
            proof {
                lemma_signed_le_total(self.validators@.subrange(0, i + 1), signers@);
                lemma_total_bound(self.validators@.subrange(0, i + 1));
                assert((i + 1) * (u64::MAX as nat) <= u128::MAX) by (nonlinear_arith)
                    requires
                        i + 1 <= usize::MAX,
                ;
            }
            let v = self.validators[i];
            if contains_address(signers, v.address) {
                acc = acc + v.voting_power as u128;
            }
            i = i + 1;
        }
        assert(self.validators@.subrange(0, i as int) =~= self.validators@);
        acc
    }

    /// Whether the members among `signers` hold more than one third of the power.
    pub fn signed_by_more_than_one_third(&self, signers: &Vec<u64>) -> (r: bool)
        ensures
            r == exceeds_one_third(
                signed_power(self.validators@, signers@),
                total_power(self.validators@),
            ),
    {
        let total = self.total_voting_power();
        let signed = self.signed_voting_power(signers);
        proof {
            lemma_signed_le_total(self.validators@, signers@);
        }
        let rest = total - signed;
        signed > rest / 2
    }

    /// Whether the members among `signers` hold more than two thirds of the power.
    pub fn signed_by_more_than_two_thirds(&self, signers: &Vec<u64>) -> (r: bool)
        ensures
            r == exceeds_two_thirds(
                signed_power(self.validators@, signers@),
                total_power(self.validators@),
            ),
    {
        let total = self.total_voting_power();
        let signed = self.signed_voting_power(signers);
        proof {
            lemma_signed_le_total(self.validators@, signers@);
        }
        let rest = total - signed;
        if rest > u128::MAX / 2 {
            false
        } else {
            signed > 2 * rest
        }
    }
}

/// Whether two byte strings are equal.
pub fn bytes_eq(a: &Vec<u8>, b: &Vec<u8>) -> (r: bool)
    ensures
        r == (a@ == b@),
{
    if a.len() != b.len() {
        return false;
    }
    let mut i: usize = 0;
    while i < a.len()
        invariant
            a@.len() == b@.len(),
            i <= a@.len(),
            forall|j: int| 0 <= j < i ==> a@[j] == b@[j],
        decreases a@.len() - i,
    {
        if a[i] != b[i] {
            return false;
        }
        i = i + 1;
    }
    assert(a@ =~= b@);
    true
}

} // verus!
