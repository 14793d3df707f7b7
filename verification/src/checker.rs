//! The exclusivity check: counting how many optional slots of an instance are
//! present and demanding that exactly one is.

use vstd::prelude::*;
use crate::analyzer::OptionalSlotField;

verus! {

/// How many entries of a presence pattern are set.
pub open spec fn num_present(p: Seq<bool>) -> nat
    decreases p.len(),
{
    if p.len() == 0 {
        0
    } else {
        num_present(p.drop_last()) + if p.last() {
            1nat
        } else {
            0nat
        }
    }
}

/// No presence pattern has more set entries than it has slots.
pub proof fn lemma_num_present_le_len(p: Seq<bool>)
    ensures
        num_present(p) <= p.len(),
    decreases p.len(),
{
    if p.len() > 0 {
        lemma_num_present_le_len(p.drop_last());
    }
}

/// Counting is idempotent: any two results that `count` may report for the
/// same unmutated presence pattern are identical, since each equals the number
/// of set entries of that pattern.
pub proof fn lemma_count_idempotent(p: Seq<bool>, c1: nat, c2: nat)
    requires
        c1 == num_present(p),
        c2 == num_present(p),
    ensures
        c1 == c2,
{
}

/// Validation is idempotent: any two verdicts that `validate` may report for
/// the same unmutated presence pattern agree, both in whether they succeed and
/// in the failure message they carry.
pub proof fn lemma_validate_idempotent(
    p: Seq<bool>,
    r1: Result<(), &'static str>,
    r2: Result<(), &'static str>,
)
    requires
        r1 is Ok <==> num_present(p) == 1,
        r2 is Ok <==> num_present(p) == 1,
        r1 matches Err(m) ==> m@ == failure_message(),
        r2 matches Err(m) ==> m@ == failure_message(),
    ensures
        r1 is Ok <==> r2 is Ok,
        r1 is Err && r2 is Err ==> r1->Err_0@ == r2->Err_0@,
{
}

/// The count and the verdict agree: for one instance, a count that meets
/// `count`'s contract is one exactly when a verdict that meets `validate`'s
/// contract succeeds.
pub proof fn lemma_count_validate_agree(p: Seq<bool>, c: nat, r: Result<(), &'static str>)
    requires
        c == num_present(p),
        r is Ok <==> num_present(p) == 1,
    ensures
        r is Ok <==> c == 1,
{
}

/// The failure that `validate` reports: fixed, never parameterized by which
/// fields were set.
pub open spec fn failure_message() -> Seq<char> {
    "Exactly one field must be Some"@
}

/// A checker bound to one accepted record type: it carries the type's
/// optional slots, in declaration order, as the analyzer produced them.
pub struct OneOfChecker {
    slots: Vec<OptionalSlotField>,
}

impl OneOfChecker {
    /// The slots this checker is bound to, one per entry of a presence
    /// pattern, in the same order.
    pub closed spec fn spec_slots(&self) -> Seq<OptionalSlotField> {
        self.slots@
    }

    /// Binds a checker to the slot list an analysis produced.
    pub fn new(slots: Vec<OptionalSlotField>) -> (c: Self)
        ensures
            c.spec_slots() == slots@,
    {
        OneOfChecker { slots }
    }

    /// How many slots this checker reads of an instance.
    pub fn slot_count(&self) -> (n: usize)
        ensures
            n == self.spec_slots().len(),
    {
        self.slots.len()
    }

    /// The name of slot `i`.
    pub fn slot_name(&self, i: usize) -> (name: &String)
        requires
            i < self.spec_slots().len(),
        ensures
            name@ == self.spec_slots()[i as int].name@,
    {
        &self.slots[i].name
    }

    /// Counts how many slots of an instance are present. The instance is
    /// given as its presence pattern: one entry per slot, in slot order,
    /// set when the slot holds a value.
    pub fn count(&self, presence: &Vec<bool>) -> (c: usize)
        requires
            presence@.len() == self.spec_slots().len(),
        ensures
            c == num_present(presence@),
            c <= self.spec_slots().len(),
    {
        let mut c: usize = 0;
        let mut i: usize = 0;
        while i < presence.len()
            invariant
                i <= presence@.len(),
                c <= i,
                c == num_present(presence@.take(i as int)),
            decreases presence@.len() - i,
        {
            if presence[i] {
                c = c + 1;
            }
            proof {
                assert(presence@.take(i + 1).drop_last() =~= presence@.take(i as int));
                assert(presence@.take(i + 1).last() == presence@[i as int]);
            }
            i = i + 1;
        }
        proof {
            assert(presence@.take(presence@.len() as int) =~= presence@);
            lemma_num_present_le_len(presence@);
        }
        c
    }

    /// Checks the exclusivity invariant: succeeds if and only if exactly one
    /// slot of the instance is present, and otherwise reports the fixed
    /// failure message. The verdict is derived from the same count that
    /// `count` reports.
    pub fn validate(&self, presence: &Vec<bool>) -> (r: Result<(), &'static str>)
        requires
            presence@.len() == self.spec_slots().len(),
        ensures
            r is Ok <==> num_present(presence@) == 1,
            r matches Err(m) ==> m@ == failure_message(),
    {
        let c = self.count(presence);
        if c == 1 {
            Ok(())
        } else {
            Err("Exactly one field must be Some")
        }
    }
}

} // verus!
