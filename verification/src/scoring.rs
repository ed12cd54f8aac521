use vstd::prelude::*;
use crate::errors::GameError;

verus! {

/// Division that rounds toward zero, as `/` does on Rust integers (`b > 0`).
pub open spec fn trunc_div(a: int, b: int) -> int {
    if a >= 0 {
        a / b
    } else {
        -((-a) / b)
    }
}

/// The smallest integer that is not below `a / n` (`n > 0`).
pub open spec fn ceil_div(a: int, n: int) -> int {
    -((-a) / n)
}

pub open spec fn abs_int(x: int) -> int {
    if x < 0 {
        -x
    } else {
        x
    }
}

/// How far the counter stopped from the target on the dial of 101 positions (0 to 100):
/// a gap above 50 is measured the other way round the dial.
pub open spec fn spec_circular_difference(value: int, target: int) -> int {
    let diff = abs_int(value - target);
    if diff > 50 {
        101 - diff
    } else {
        diff
    }
}

/// The base score that a difference earns: 100 for a hit, then 80, 60, 40, 20, and 0 past 40
/// (and for a negative difference).
pub open spec fn spec_base_score(difference: int) -> int {
    if difference == 0 {
        100
    } else if 1 <= difference <= 5 {
        80
    } else if 6 <= difference <= 10 {
        60
    } else if 11 <= difference <= 20 {
        40
    } else if 21 <= difference <= 40 {
        20
    } else {
        0
    }
}

/// The score of one objective: base score plus force, divided by the number of full turns
/// the counter made plus one, rounded toward zero.
pub open spec fn spec_objective_score(base_score: int, force: int, miss: int) -> int {
    trunc_div(base_score + force, miss + 1)
}

/// The score of one objective, from the counter's final value and its number of full turns.
pub open spec fn spec_full_score(counter_value: int, target: int, force: int, miss: int) -> int {
    spec_objective_score(
        spec_base_score(spec_circular_difference(counter_value, target)),
        force,
        miss,
    )
}

/// The sum of a sequence of scores.
pub open spec fn sum_of(scores: Seq<i32>) -> int
    decreases scores.len(),
{
    if scores.len() == 0 {
        0
    } else {
        sum_of(scores.drop_last()) + scores.last()
    }
}

/// Every running sum of the scores, summed from the first, fits in an `i32`.
pub open spec fn running_sums_fit(scores: Seq<i32>) -> bool {
    forall|k: int|
        0 <= k <= scores.len() ==> i32::MIN <= #[trigger] sum_of(scores.take(k)) <= i32::MAX
}

/// The average of a round: the mean of its scores, rounded up.
pub open spec fn spec_round_average(scores: Seq<i32>) -> int {
    ceil_div(sum_of(scores), scores.len() as int)
}

pub open spec fn negative_miss_message() -> Seq<char> {
    "Miss négatif"@
}

pub open spec fn empty_scores_message() -> Seq<char> {
    "Tableau de scores vide"@
}

/// Distance between the counter's value and the target, the dial wrapping after 100.
pub fn circular_difference(value: i32, target: i32) -> (d: i32)
    requires
        i32::MIN < value - target <= i32::MAX,
    ensures
        d == spec_circular_difference(value as int, target as int),
        0 <= value <= 100 && 0 <= target <= 100 ==> 0 <= d <= 50,
        value == target ==> d == 0,
{
    let gap = value - target;
    let diff = if gap < 0 {
        -gap
    } else {
        gap
    };
    if diff > 50 {
        101 - diff
    } else {
        diff
    }
}

/// The base score that a difference between counter and target earns.
pub fn base_score_from_difference(difference: i32) -> (score: i32)
    ensures
        score == spec_base_score(difference as int),
        score == 0 || score == 20 || score == 40 || score == 60 || score == 80 || score == 100,
{
    if difference == 0 {
        100
    } else if 1 <= difference && difference <= 5 {
        80
    } else if 6 <= difference && difference <= 10 {
        60
    } else if 11 <= difference && difference <= 20 {
        40
    } else if 21 <= difference && difference <= 40 {
        20
    } else {
        0
    }
}

/// The score of one objective; a negative number of misses is refused.
pub fn calculate_objective_score(base_score: i32, force: i32, miss: i32) -> (r: Result<
    i32,
    GameError,
>)
    requires
        miss >= 0 ==> i32::MIN <= base_score + force <= i32::MAX && miss < i32::MAX,
    ensures
        miss >= 0 <==> r is Ok,
        r matches Ok(score) ==> score == spec_objective_score(
            base_score as int,
            force as int,
            miss as int,
        ),
        r matches Err(e) ==> e matches GameError::GameLogicError(m) && m@
            == negative_miss_message(),
{
    if miss < 0 {
        return Err(GameError::GameLogicError(String::from_str("Miss négatif")));
    }
    Ok((base_score + force) / (miss + 1))
}

/// The average of a round's scores, rounded up; an empty round is refused.
pub fn calculate_round_average(scores: &[i32]) -> (r: Result<i32, GameError>)
    requires
        running_sums_fit(scores@),
    ensures
        scores@.len() > 0 <==> r is Ok,
        r matches Ok(avg) ==> avg == spec_round_average(scores@),
        r matches Err(e) ==> e matches GameError::GameLogicError(m) && m@
            == empty_scores_message(),
{
    if scores.len() == 0 {
        return Err(GameError::GameLogicError(String::from_str("Tableau de scores vide")));
    }
    let n = scores.len();
    let mut sum: i32 = 0;
    let mut i: usize = 0;
    assert(scores@.take(0) =~= Seq::<i32>::empty());
    while i < n
        invariant
            n == scores@.len(),
            0 <= i <= n,
            running_sums_fit(scores@),
            sum == sum_of(scores@.take(i as int)),
        decreases n - i,
    {
        assert(scores@.take(i + 1).drop_last() =~= scores@.take(i as int));
        assert(i32::MIN <= sum_of(scores@.take(i + 1)) <= i32::MAX);
        sum = sum + scores[i];
        i = i + 1;
    }
    assert(scores@.take(n as int) =~= scores@);
    let total: i128 = sum as i128;
    let count: i128 = n as i128;
    let avg: i128 = if total >= 0 {
        (total + count - 1) / count
    } else {
        -((-total) / count)
    };
    proof {
        lemma_ceil_div_exec(total as int, count as int);
        lemma_ceil_div_bounded(total as int, count as int);
    }
    Ok(avg as i32)
}

/// The score of one objective, from the counter's final value, the target, the player's force
/// and the number of full turns of the counter.
pub fn compute_full_score(counter_value: i32, target: i32, force: i32, miss: i32) -> (r: Result<
    i32,
    GameError,
>)
    requires
        i32::MIN < counter_value - target <= i32::MAX,
        miss >= 0 ==> spec_base_score(
            spec_circular_difference(counter_value as int, target as int),
        ) + force <= i32::MAX && miss < i32::MAX,
    ensures
        miss >= 0 <==> r is Ok,
        r matches Ok(score) ==> score == spec_full_score(
            counter_value as int,
            target as int,
            force as int,
            miss as int,
        ),
        r matches Err(e) ==> e matches GameError::GameLogicError(m) && m@
            == negative_miss_message(),
{
    let diff = circular_difference(counter_value, target);
    let base = base_score_from_difference(diff);
    calculate_objective_score(base, force, miss)
}

/// The two ways of rounding a mean up agree: `(a + n - 1) / n` for `a >= 0`,
/// and the division toward zero for `a < 0`.
proof fn lemma_ceil_div_exec(a: int, n: int)
    requires
        n > 0,
    ensures
        a >= 0 ==> (a + n - 1) / n == ceil_div(a, n),
        a < 0 ==> -((-a) / n) == ceil_div(a, n),
{
    if a >= 0 {
        let q = (a + n - 1) / n;
        let r = (a + n - 1) % n;
        vstd::arithmetic::div_mod::lemma_fundamental_div_mod(a + n - 1, n);
        let q2 = (-a) / n;
        vstd::arithmetic::div_mod::lemma_fundamental_div_mod(-a, n);
        assert(q == -q2) by (nonlinear_arith)
            requires
                a + n - 1 == n * q + r,
                0 <= r < n,
                -a == n * q2 + (-a) % n,
                0 <= (-a) % n < n,
                n > 0,
        ;
    }
}

/// A mean rounded up has the sign of `a` and is no larger than `a` in size.
proof fn lemma_ceil_div_bounded(a: int, n: int)
    requires
        n > 0,
    ensures
        a >= 0 ==> 0 <= ceil_div(a, n) <= a,
        a < 0 ==> a <= ceil_div(a, n) <= 0,
{
    vstd::arithmetic::div_mod::lemma_fundamental_div_mod(-a, n);
    let q = (-a) / n;
    let r = (-a) % n;
    if a >= 0 {
        assert(-a <= q <= 0) by (nonlinear_arith)
            requires
                -a == n * q + r,
                0 <= r < n,
                n > 0,
                a >= 0,
        ;
    } else {
        assert(0 <= q <= -a) by (nonlinear_arith)
            requires
                -a == n * q + r,
                0 <= r < n,
                n > 0,
                a < 0,
        ;
    }
}

/// The distance on the dial does not depend on which of the two values is the counter's;
/// between two positions of the dial it is at most 50, and it is 0 exactly on a hit.
pub proof fn law_circular_difference_on_dial(value: int, target: int)
    ensures
        spec_circular_difference(value, target) == spec_circular_difference(target, value),
        0 <= value <= 100 && 0 <= target <= 100 ==> 0 <= spec_circular_difference(value, target)
            <= 50,
        0 <= value <= 100 && 0 <= target <= 100 ==> (spec_circular_difference(value, target) == 0
            <==> value == target),
{
}

/// A larger difference never earns a larger base score.
pub proof fn law_base_score_non_increasing(closer: int, further: int)
    requires
        0 <= closer <= further,
    ensures
        spec_base_score(closer) >= spec_base_score(further),
{
}

/// Without a miss, an objective scores its base score plus the force; each further miss
/// can only lower a non-negative score.
pub proof fn law_objective_score_misses(base_score: int, force: int, fewer: int, more: int)
    requires
        base_score + force >= 0,
        0 <= fewer <= more,
    ensures
        spec_objective_score(base_score, force, 0) == base_score + force,
        spec_objective_score(base_score, force, fewer) >= spec_objective_score(
            base_score,
            force,
            more,
        ),
        spec_objective_score(base_score, force, more) >= 0,
{
    vstd::arithmetic::div_mod::lemma_div_is_ordered_by_denominator(
        base_score + force,
        fewer + 1,
        more + 1,
    );
    vstd::arithmetic::div_mod::lemma_div_pos_is_pos(base_score + force, more + 1);
}

proof fn lemma_sum_bounds(scores: Seq<i32>, low: int, high: int)
    requires
        forall|i: int| 0 <= i < scores.len() ==> low <= #[trigger] scores[i] <= high,
    ensures
        low * scores.len() <= sum_of(scores) <= high * scores.len(),
    decreases scores.len(),
{
    if scores.len() > 0 {
        let rest = scores.drop_last();
        lemma_sum_bounds(rest, low, high);
        assert(low <= scores.last() <= high);
        assert(low * scores.len() == low * rest.len() + low) by (nonlinear_arith)
            requires
                scores.len() == rest.len() + 1,
        ;
        assert(high * scores.len() == high * rest.len() + high) by (nonlinear_arith)
            requires
                scores.len() == rest.len() + 1,
        ;
    }
}

/// The average of a round lies between its lowest and its highest score.
pub proof fn law_round_average_between_extremes(scores: Seq<i32>, low: int, high: int)
    requires
        scores.len() > 0,
        forall|i: int| 0 <= i < scores.len() ==> low <= #[trigger] scores[i] <= high,
    ensures
        low <= spec_round_average(scores) <= high,
{
    let n = scores.len() as int;
    let s = sum_of(scores);
    lemma_sum_bounds(scores, low, high);
    // -(high * n) <= -s <= -(low * n), so dividing by n keeps the order.
    vstd::arithmetic::div_mod::lemma_div_is_ordered(-(high * n), -s, n);
    vstd::arithmetic::div_mod::lemma_div_is_ordered(-s, -(low * n), n);
    assert(-(high * n) == n * (-high)) by (nonlinear_arith);
    assert(-(low * n) == n * (-low)) by (nonlinear_arith);
    vstd::arithmetic::div_mod::lemma_div_multiples_vanish(-high, n);
    vstd::arithmetic::div_mod::lemma_div_multiples_vanish(-low, n);
}

/// The score of an objective depends on the counter and the target only through their
/// distance on the dial of 101 positions: swapping them changes nothing, and for positions
/// of the dial the score is that of a counter stopped at that distance from target 0, the
/// distance being the shorter way round, `min(|v - t|, 101 - |v - t|)`.
pub proof fn law_full_score_depends_on_dial_distance(
    counter_value: int,
    target: int,
    force: int,
    miss: int,
)
    ensures
        spec_full_score(counter_value, target, force, miss) == spec_full_score(
            target,
            counter_value,
            force,
            miss,
        ),
        0 <= counter_value <= 100 && 0 <= target <= 100 ==> ({
            let gap = if counter_value >= target {
                counter_value - target
            } else {
                target - counter_value
            };
            let distance = if gap <= 101 - gap {
                gap
            } else {
                101 - gap
            };
            spec_full_score(counter_value, target, force, miss) == spec_full_score(
                distance,
                0,
                force,
                miss,
            )
        }),
{
}

/// Without a miss, an objective on the dial scores the force plus 100 for a hit, 80 within
/// 5, 60 within 10, 40 within 20, 20 within 40 and nothing further away, the distance being
/// the shorter way round the dial of 101 positions.
pub proof fn law_full_score_table(counter_value: int, target: int, force: int)
    requires
        0 <= counter_value <= 100,
        0 <= target <= 100,
    ensures
        ({
            let gap = if counter_value >= target {
                counter_value - target
            } else {
                target - counter_value
            };
            let distance = if gap <= 101 - gap {
                gap
            } else {
                101 - gap
            };
            let base: int = if distance == 0 {
                100
            } else if distance <= 5 {
                80
            } else if distance <= 10 {
                60
            } else if distance <= 20 {
                40
            } else if distance <= 40 {
                20
            } else {
                0
            };
            spec_full_score(counter_value, target, force, 0) == base + force
        }),
{
}

/// The score of an objective is the quotient of base score plus force by the number of
/// misses plus one, rounded toward zero: `score * (miss + 1)` is the largest multiple of
/// `miss + 1` not beyond `base + force` (on the side of zero).
pub proof fn law_objective_score_is_quotient(base_score: int, force: int, miss: int)
    requires
        miss >= 0,
    ensures
        ({
            let total = base_score + force;
            let score = spec_objective_score(base_score, force, miss);
            &&& total >= 0 ==> score * (miss + 1) <= total < (score + 1) * (miss + 1)
            &&& total < 0 ==> (score - 1) * (miss + 1) < total <= score * (miss + 1)
        }),
{
    let total = base_score + force;
    let d = miss + 1;
    if total >= 0 {
        vstd::arithmetic::div_mod::lemma_fundamental_div_mod(total, d);
        let q = total / d;
        let r = total % d;
        assert(q * d <= total < (q + 1) * d) by (nonlinear_arith)
            requires
                total == d * q + r,
                0 <= r < d,
        ;
    } else {
        vstd::arithmetic::div_mod::lemma_fundamental_div_mod(-total, d);
        let q = (-total) / d;
        let r = (-total) % d;
        assert((-q - 1) * d < total <= (-q) * d) by (nonlinear_arith)
            requires
                -total == d * q + r,
                0 <= r < d,
        ;
    }
}

/// The average of a round is the mean rounded up: `average * n` reaches the sum of the
/// `n` scores, and `(average - 1) * n` stays below it.
pub proof fn law_round_average_is_mean_rounded_up(scores: Seq<i32>)
    requires
        scores.len() > 0,
    ensures
        ({
            let n = scores.len() as int;
            let avg = spec_round_average(scores);
            (avg - 1) * n < sum_of(scores) <= avg * n
        }),
{
    let n = scores.len() as int;
    let s = sum_of(scores);
    vstd::arithmetic::div_mod::lemma_fundamental_div_mod(-s, n);
    let q = (-s) / n;
    let r = (-s) % n;
    assert((-q - 1) * n < s <= (-q) * n) by (nonlinear_arith)
        requires
            -s == n * q + r,
            0 <= r < n,
    ;
}

} // verus!
