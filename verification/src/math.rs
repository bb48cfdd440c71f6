//! Costs and the figures that the engine reports of a cost array.

use vstd::prelude::*;

verus! {

/// The cost of a genome, in a unit of the caller's choosing. Lower is better.
pub type Cost = i64;

/// The sum of the costs.
pub open spec fn total(costs: Seq<Cost>) -> int
    decreases costs.len(),
{
    if costs.len() == 0 {
        0
    } else {
        total(costs.drop_last()) + costs.last()
    }
}

/// Whether `index` is the first place that holds the lowest of the costs.
pub open spec fn first_lowest(costs: Seq<Cost>, index: int) -> bool {
    &&& 0 <= index < costs.len()
    &&& forall|i: int| 0 <= i < costs.len() ==> costs[index] <= costs[i]
    &&& forall|i: int| 0 <= i < index ==> costs[index] < costs[i]
}

/// Whether `cost` is the highest of the costs.
pub open spec fn highest(costs: Seq<Cost>, cost: Cost) -> bool {
    &&& exists|i: int| 0 <= i < costs.len() && costs[i] == cost
    &&& forall|i: int| 0 <= i < costs.len() ==> costs[i] <= cost
}

/// The arithmetic mean of the costs, rounded down to a whole cost.
pub open spec fn average(costs: Seq<Cost>) -> int
    recommends
        costs.len() > 0,
{
    total(costs) / (costs.len() as int)
}

/// The lowest cost has one first place.
pub proof fn lemma_one_first_lowest(costs: Seq<Cost>, first: int, second: int)
    requires
        first_lowest(costs, first),
        first_lowest(costs, second),
    ensures
        first == second,
{
    if first < second {
        assert(costs[second] < costs[first]);
        assert(costs[first] <= costs[second]);
    } else if second < first {
        assert(costs[first] < costs[second]);
        assert(costs[second] <= costs[first]);
    }
}

/// The sum of costs that all lie between two bounds lies between the bounds
/// taken once for each cost.
pub proof fn lemma_total_between(costs: Seq<Cost>, low: int, high: int)
    requires
        forall|i: int| 0 <= i < costs.len() ==> low <= #[trigger] costs[i] <= high,
    ensures
        costs.len() * low <= total(costs) <= costs.len() * high,
    decreases costs.len(),
{
    if costs.len() > 0 {
        let front = costs.drop_last();
        assert forall|i: int| 0 <= i < front.len() implies low <= #[trigger] front[i] <= high by {
            assert(front[i] == costs[i]);
        }
        lemma_total_between(front, low, high);
        assert(front.len() == costs.len() - 1);
        assert(costs.len() * low == front.len() * low + low) by (nonlinear_arith)
            requires
                front.len() == costs.len() - 1,
        ;
        assert(costs.len() * high == front.len() * high + high) by (nonlinear_arith)
            requires
                front.len() == costs.len() - 1,
        ;
    } else {
        assert(costs.len() * low == 0) by (nonlinear_arith)
            requires
                costs.len() == 0,
        ;
        assert(costs.len() * high == 0) by (nonlinear_arith)
            requires
                costs.len() == 0,
        ;
    }
}

/// The mean of a cost array lies between any two bounds that hold all its
/// costs: in particular between its lowest and its highest cost.
pub proof fn lemma_average_between(costs: Seq<Cost>, low: int, high: int)
    requires
        costs.len() > 0,
        forall|i: int| 0 <= i < costs.len() ==> low <= #[trigger] costs[i] <= high,
    ensures
        low <= average(costs) <= high,
{
    let n = costs.len() as int;
    lemma_total_between(costs, low, high);
    vstd::arithmetic::div_mod::lemma_div_is_ordered(n * low, total(costs), n);
    vstd::arithmetic::div_mod::lemma_div_is_ordered(total(costs), n * high, n);
    vstd::arithmetic::div_mod::lemma_div_multiples_vanish(low, n);
    vstd::arithmetic::div_mod::lemma_div_multiples_vanish(high, n);
    assert(n * low == low * n) by (nonlinear_arith);
    assert(n * high == high * n) by (nonlinear_arith);
}

/// The first place of the lowest cost; `None` for an empty array.
pub fn lowest(costs: &[Cost]) -> (place: Option<usize>)
    ensures
        place is None <==> costs.len() == 0,
        place matches Some(index) ==> first_lowest(costs@, index as int),
{
    if costs.len() == 0 {
        return None;
    }
    let mut index: usize = 0;
    let mut i: usize = 1;
    while i < costs.len()
        invariant
            1 <= i <= costs.len(),
            index < i,
            forall|k: int| 0 <= k < i ==> costs[index as int] <= costs[k],
            forall|k: int| 0 <= k < index ==> costs[index as int] < costs[k],
        decreases costs.len() - i,
    {
        if costs[i] < costs[index] {
            index = i;
        }
        i += 1;
    }
    Some(index)
}

/// The highest of the costs; `None` for an empty array.
pub fn largest(costs: &[Cost]) -> (top: Option<Cost>)
    ensures
        top is None <==> costs.len() == 0,
        top matches Some(cost) ==> highest(costs@, cost),
{
    if costs.len() == 0 {
        return None;
    }
    let mut top: Cost = costs[0];
    let mut i: usize = 1;
    while i < costs.len()
        invariant
            1 <= i <= costs.len(),
            exists|k: int| 0 <= k < i && costs[k] == top,
            forall|k: int| 0 <= k < i ==> costs[k] <= top,
        decreases costs.len() - i,
    {
        if costs[i] > top {
            top = costs[i];
        }
        i += 1;
    }
    Some(top)
}

/// The arithmetic mean of the costs, rounded down to a whole cost; `None` for
/// an empty array.
pub fn mean(costs: &[Cost]) -> (middle: Option<Cost>)
    ensures
        middle is None <==> costs.len() == 0,
        middle matches Some(cost) ==> cost == average(costs@),
{
    if costs.len() == 0 {
        return None;
    }
    // Each cost is counted from the least cost there is, so that the sum
    // never goes below zero.
    let mut raised: u128 = 0;
    let mut i: usize = 0;
    while i < costs.len()
        invariant
            i <= costs.len(),
            raised == total(costs@.take(i as int)) + i * 0x8000_0000_0000_0000,
            raised <= i * 0xffff_ffff_ffff_ffff,
        decreases costs.len() - i,
    {
        let step: u64 = (costs[i] as i128 + 0x8000_0000_0000_0000) as u64;
        assert(costs@.take(i + 1).drop_last() =~= costs@.take(i as int));
        raised = raised + step as u128;
        i += 1;
    }
    assert(costs@.take(i as int) =~= costs@);
    let count: u128 = costs.len() as u128;
    let quotient: u128 = raised / count;
    proof {
        let n = costs.len() as int;
        vstd::arithmetic::div_mod::lemma_hoist_over_denominator(
            total(costs@),
            0x8000_0000_0000_0000,
            n as nat,
        );
        lemma_average_between(costs@, i64::MIN as int, i64::MAX as int);
    }
    Some((quotient as i128 - 0x8000_0000_0000_0000) as i64)
}

} // verus!
