//! The escrow's books: what the amounts and counters of a contract record,
//! and the invariant that every operation keeps.
use vstd::prelude::*;

use crate::types::{ContractStatus, EscrowContractData, Milestone, Rejection};

verus! {

/// Sum of `f` over the milestones.
pub open spec fn sum_by(ms: Seq<Milestone>, f: spec_fn(Milestone) -> int) -> int
    decreases ms.len(),
{
    if ms.len() == 0 {
        0
    } else {
        sum_by(ms.drop_last(), f) + f(ms.last())
    }
}

/// A milestone weighed by its amount.
pub open spec fn amount_of() -> spec_fn(Milestone) -> int {
    |m: Milestone| m.amount as int
}

/// A milestone weighed by its amount once released, else by nothing.
pub open spec fn released_amount_of() -> spec_fn(Milestone) -> int {
    |m: Milestone|
        if m.released {
            m.amount as int
        } else {
            0
        }
}

/// A milestone counted once released.
pub open spec fn released_unit() -> spec_fn(Milestone) -> int {
    |m: Milestone|
        if m.released {
            1
        } else {
            0
        }
}

/// The sum of all milestone amounts.
pub open spec fn milestones_total(ms: Seq<Milestone>) -> int {
    sum_by(ms, amount_of())
}

/// The sum of the amounts of released milestones.
pub open spec fn released_total(ms: Seq<Milestone>) -> int {
    sum_by(ms, released_amount_of())
}

/// The number of released milestones.
pub open spec fn released_count(ms: Seq<Milestone>) -> int {
    sum_by(ms, released_unit())
}

pub open spec fn all_released(ms: Seq<Milestone>) -> bool {
    forall|i: int| 0 <= i < ms.len() ==> #[trigger] ms[i].released
}

/// The invariant of a contract as `create_contract` makes it and every
/// operation keeps it: the books match the milestones, no more is released
/// than was funded and no more is funded than the milestones total, the
/// status agrees with the funding and the releases, and reputation is issued
/// only for a completed contract.
pub open spec fn contract_wf(c: EscrowContractData) -> bool {
    let ms = c.milestones@;
    &&& 0 < ms.len() <= u32::MAX
    &&& forall|i: int| 0 <= i < ms.len() ==> #[trigger] ms[i].amount > 0
    &&& c.total_amount == milestones_total(ms)
    &&& c.released_amount == released_total(ms)
    &&& c.released_milestones == released_count(ms)
    &&& 0 <= c.released_amount <= c.funded_amount <= c.total_amount
    &&& (c.status == ContractStatus::Created) == (c.funded_amount < c.total_amount)
    &&& c.status == ContractStatus::Created ==> released_count(ms) == 0
    &&& (c.status == ContractStatus::Completed) == all_released(ms)
    &&& c.reputation_issued ==> c.status == ContractStatus::Completed
    &&& c.client@ != c.freelancer@
}

pub proof fn lemma_sum_by_update(ms: Seq<Milestone>, i: int, m: Milestone, f: spec_fn(Milestone) -> int)
    requires
        0 <= i < ms.len(),
    ensures
        sum_by(ms.update(i, m), f) == sum_by(ms, f) - f(ms[i]) + f(m),
    decreases ms.len(),
{
    let u = ms.update(i, m);
    if i == ms.len() - 1 {
        assert(u.drop_last() =~= ms.drop_last());
    } else {
        assert(u.drop_last() =~= ms.drop_last().update(i, m));
        lemma_sum_by_update(ms.drop_last(), i, m, f);
    }
}

pub proof fn lemma_sum_by_congruent(a: Seq<Milestone>, b: Seq<Milestone>, f: spec_fn(Milestone) -> int)
    requires
        a.len() == b.len(),
        forall|i: int| 0 <= i < a.len() ==> f(#[trigger] a[i]) == f(b[i]),
    ensures
        sum_by(a, f) == sum_by(b, f),
    decreases a.len(),
{
    if a.len() > 0 {
        assert(f(a[a.len() - 1]) == f(b[b.len() - 1]));
        lemma_sum_by_congruent(a.drop_last(), b.drop_last(), f);
    }
}

pub proof fn lemma_sum_by_zero(ms: Seq<Milestone>, f: spec_fn(Milestone) -> int)
    requires
        forall|i: int| 0 <= i < ms.len() ==> f(#[trigger] ms[i]) == 0,
    ensures
        sum_by(ms, f) == 0,
    decreases ms.len(),
{
    if ms.len() > 0 {
        assert(f(ms[ms.len() - 1]) == 0);
        lemma_sum_by_zero(ms.drop_last(), f);
    }
}

pub proof fn lemma_sum_by_positive(ms: Seq<Milestone>, f: spec_fn(Milestone) -> int)
    requires
        forall|i: int| 0 <= i < ms.len() ==> f(#[trigger] ms[i]) > 0,
    ensures
        sum_by(ms, f) >= ms.len(),
    decreases ms.len(),
{
    if ms.len() > 0 {
        assert(f(ms[ms.len() - 1]) > 0);
        lemma_sum_by_positive(ms.drop_last(), f);
    }
}


/// Milestone lists that agree on every amount and release flag have the same
/// books.
pub proof fn lemma_same_books(a: Seq<Milestone>, b: Seq<Milestone>)
    requires
        a.len() == b.len(),
        forall|i: int|
            0 <= i < a.len() ==> (#[trigger] a[i]).amount == b[i].amount && a[i].released == b[i].released,
    ensures
        milestones_total(a) == milestones_total(b),
        released_total(a) == released_total(b),
        released_count(a) == released_count(b),
        all_released(a) == all_released(b),
        (forall|i: int| 0 <= i < a.len() ==> #[trigger] a[i].amount > 0) == (forall|i: int|
            0 <= i < b.len() ==> #[trigger] b[i].amount > 0),
{
    assert forall|i: int| 0 <= i < a.len() implies (amount_of())(#[trigger] a[i]) == (amount_of())(b[i]) by {}
    assert forall|i: int| 0 <= i < a.len() implies (released_amount_of())(#[trigger] a[i]) == (released_amount_of())(b[i]) by {}
    assert forall|i: int| 0 <= i < a.len() implies (released_unit())(#[trigger] a[i]) == (released_unit())(b[i]) by {}
    lemma_sum_by_congruent(a, b, amount_of());
    lemma_sum_by_congruent(a, b, released_amount_of());
    lemma_sum_by_congruent(a, b, released_unit());
    if all_released(a) {
        assert forall|i: int| 0 <= i < b.len() implies #[trigger] b[i].released by {
            assert(a[i].released);
        }
    }
    if all_released(b) {
        assert forall|i: int| 0 <= i < a.len() implies #[trigger] a[i].released by {
            assert(b[i].released);
        }
    }
    if forall|i: int| 0 <= i < a.len() ==> #[trigger] a[i].amount > 0 {
        assert forall|i: int| 0 <= i < b.len() implies #[trigger] b[i].amount > 0 by {
            assert(a[i].amount > 0);
        }
    }
    if forall|i: int| 0 <= i < b.len() ==> #[trigger] b[i].amount > 0 {
        assert forall|i: int| 0 <= i < a.len() implies #[trigger] a[i].amount > 0 by {
            assert(b[i].amount > 0);
        }
    }
}


/// Releasing an unreleased milestone adds its amount to the released total
/// and one to the released count, and leaves the milestones' total alone.
pub proof fn lemma_release_books(ms: Seq<Milestone>, i: int)
    requires
        0 <= i < ms.len(),
        !ms[i].released,
    ensures
        ({
            let u = ms.update(i, Milestone { released: true, ..ms[i] });
            &&& milestones_total(u) == milestones_total(ms)
            &&& released_total(u) == released_total(ms) + ms[i].amount
            &&& released_count(u) == released_count(ms) + 1
        }),
{
    let m = Milestone { released: true, ..ms[i] };
    lemma_sum_by_update(ms, i, m, amount_of());
    lemma_sum_by_update(ms, i, m, released_amount_of());
    lemma_sum_by_update(ms, i, m, released_unit());
}


/// The sum of a sequence of amounts.
pub open spec fn seq_sum(a: Seq<i128>) -> int
    decreases a.len(),
{
    if a.len() == 0 {
        0
    } else {
        seq_sum(a.drop_last()) + a.last()
    }
}

/// Checking milestone amounts in order while adding them up: each must be
/// positive, and the running total must stay within `i128`.
pub open spec fn amounts_outcome(a: Seq<i128>) -> Result<int, Rejection>
    decreases a.len(),
{
    if a.len() == 0 {
        Ok(0)
    } else {
        match amounts_outcome(a.drop_last()) {
            Err(e) => Err(e),
            Ok(t) => if a.last() <= 0 {
                Err(Rejection::NonPositiveMilestoneAmount)
            } else if t + a.last() > i128::MAX {
                Err(Rejection::ArithmeticOverflow)
            } else {
                Ok(t + a.last())
            },
        }
    }
}

/// Amounts are accepted exactly when all are positive and their sum fits in
/// `i128`; the total is then their sum.
pub proof fn lemma_amounts_accepted(a: Seq<i128>)
    ensures
        amounts_outcome(a) is Ok <==> ((forall|i: int| 0 <= i < a.len() ==> #[trigger] a[i] > 0) && seq_sum(a)
            <= i128::MAX),
        amounts_outcome(a) is Ok ==> amounts_outcome(a) == Ok::<int, Rejection>(seq_sum(a)),
    decreases a.len(),
{
    if a.len() > 0 {
        let p = a.drop_last();
        lemma_amounts_accepted(p);
        lemma_seq_sum_nonneg(p);
        if amounts_outcome(a) is Ok {
            assert forall|i: int| 0 <= i < a.len() implies #[trigger] a[i] > 0 by {
                if i < p.len() {
                    assert(p[i] == a[i]);
                }
            }
        }
        if (forall|i: int| 0 <= i < a.len() ==> #[trigger] a[i] > 0) && seq_sum(a) <= i128::MAX {
            assert forall|i: int| 0 <= i < p.len() implies #[trigger] p[i] > 0 by {
                assert(a[i] > 0);
            }
            assert(a[a.len() - 1] > 0);
        }
    }
}

proof fn lemma_seq_sum_nonneg(a: Seq<i128>)
    ensures
        (forall|i: int| 0 <= i < a.len() ==> #[trigger] a[i] > 0) ==> seq_sum(a) >= 0,
    decreases a.len(),
{
    if a.len() > 0 {
        let p = a.drop_last();
        lemma_seq_sum_nonneg(p);
        if forall|i: int| 0 <= i < a.len() ==> #[trigger] a[i] > 0 {
            assert forall|i: int| 0 <= i < p.len() implies #[trigger] p[i] > 0 by {
                assert(a[i] > 0);
            }
            assert(a[a.len() - 1] > 0);
        }
    }
}

/// A rejection among the first `k` amounts is the rejection of all of them.
pub proof fn lemma_amounts_prefix_error(a: Seq<i128>, k: int)
    requires
        0 <= k <= a.len(),
        amounts_outcome(a.take(k)) is Err,
    ensures
        amounts_outcome(a) == amounts_outcome(a.take(k)),
    decreases a.len(),
{
    if k == a.len() {
        assert(a.take(k) =~= a);
    } else {
        assert(a.drop_last().take(k) =~= a.take(k));
        lemma_amounts_prefix_error(a.drop_last(), k);
    }
}

/// Milestones carrying the given amounts total their sum.
pub proof fn lemma_total_matches(ms: Seq<Milestone>, a: Seq<i128>)
    requires
        ms.len() == a.len(),
        forall|i: int| 0 <= i < ms.len() ==> (#[trigger] ms[i]).amount == a[i],
    ensures
        milestones_total(ms) == seq_sum(a),
    decreases ms.len(),
{
    if ms.len() > 0 {
        let p = ms.drop_last();
        let q = a.drop_last();
        assert forall|i: int| 0 <= i < p.len() implies (#[trigger] p[i]).amount == q[i] by {
            assert(ms[i].amount == a[i]);
        }
        assert(ms[ms.len() - 1].amount == a[a.len() - 1]);
        lemma_total_matches(p, q);
    }
}


pub proof fn lemma_sum_by_le(ms: Seq<Milestone>, f: spec_fn(Milestone) -> int, g: spec_fn(Milestone) -> int)
    requires
        forall|i: int| 0 <= i < ms.len() ==> f(#[trigger] ms[i]) <= g(ms[i]),
    ensures
        sum_by(ms, f) <= sum_by(ms, g),
    decreases ms.len(),
{
    if ms.len() > 0 {
        assert(f(ms[ms.len() - 1]) <= g(ms[ms.len() - 1]));
        lemma_sum_by_le(ms.drop_last(), f, g);
    }
}

/// With positive amounts, the released total plus the amount of any
/// unreleased milestone stays within the milestones' total.
pub proof fn lemma_unreleased_fits(ms: Seq<Milestone>, i: int)
    requires
        0 <= i < ms.len(),
        !ms[i].released,
        forall|k: int| 0 <= k < ms.len() ==> #[trigger] ms[k].amount > 0,
    ensures
        released_total(ms) + ms[i].amount <= milestones_total(ms),
{
    let u = ms.update(i, Milestone { released: true, ..ms[i] });
    lemma_release_books(ms, i);
    assert forall|k: int| 0 <= k < u.len() implies (released_amount_of())(#[trigger] u[k]) <= (amount_of())(u[k]) by {
        assert(u[k].amount > 0);
    }
    lemma_sum_by_le(u, released_amount_of(), amount_of());
}

} // verus!
