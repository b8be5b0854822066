//! The schedule generator.
//!
//! Distributes a locked amount over `period_count` releases with zero
//! rounding drift: every release except the last is floored to a whole
//! display unit, and the last release absorbs the accumulated remainder,
//! so the quantities always sum to the amount exactly. Timestamps advance
//! by one calendar month per release; team-class schedules start with a
//! one-year cliff instead of a first month.
//!
//! Amounts are integer base units. `unit` is the number of base units in
//! one display unit (ten to the mint's decimal count); converting a
//! display amount to base units is the caller's concern.

use vstd::prelude::*;

use crate::calendar::{parse_increment, spec_month_increment, SECONDS_PER_YEAR};
use crate::state::VestingInfo;

verus! {

/// Investor class.
#[derive(Clone, Copy, Debug, PartialEq, Eq, Structural)]
pub enum Group {
    Team,
    Private,
}

/// Sum of the quantities of a release sequence.
pub open spec fn spec_sum_quantities(s: Seq<VestingInfo>) -> int
    decreases s.len(),
{
    if s.len() == 0 {
        0
    } else {
        spec_sum_quantities(s.drop_last()) + s.last().quantity
    }
}

/// The even per-release quantity of a team schedule: the amount split
/// over all releases, floored to a whole display unit.
pub open spec fn spec_team_even_quantity(amount: u64, unit: u64, n: int) -> int {
    (amount as int / (n * unit)) * unit
}

/// The even per-release quantity of a private schedule: nine tenths of
/// the amount split over the releases after the initial unlock, floored
/// to a whole display unit.
pub open spec fn spec_private_even_quantity(amount: u64, unit: u64, n: int) -> int {
    ((9 * amount) as int / (10 * (n - 1) * unit)) * unit
}

/// Quantity of release `i` of `n`. Private schedules unlock a tenth of
/// the amount up front; every schedule's last release absorbs the
/// rounding remainder left by the floored even releases.
pub open spec fn spec_release_quantity(
    group: Group,
    amount: u64,
    unit: u64,
    n: int,
    i: int,
) -> int {
    if group == Group::Team {
        if i < n - 1 {
            spec_team_even_quantity(amount, unit, n)
        } else {
            amount - (n - 1) * spec_team_even_quantity(amount, unit, n)
        }
    } else {
        if n == 1 {
            amount as int
        } else if i == 0 {
            amount as int / 10
        } else if i < n - 1 {
            spec_private_even_quantity(amount, unit, n)
        } else {
            amount - amount as int / 10 - (n - 2) * spec_private_even_quantity(amount, unit, n)
        }
    }
}

/// Sum of the first `i` release quantities, in closed form.
pub open spec fn spec_partial_total(group: Group, amount: u64, unit: u64, n: int, i: int) -> int {
    if i == 0 {
        0
    } else if i >= n {
        amount as int
    } else if group == Group::Team {
        i * spec_team_even_quantity(amount, unit, n)
    } else {
        amount as int / 10 + (i - 1) * spec_private_even_quantity(amount, unit, n)
    }
}

/// Timestamp of release `i`: the start time plus the class's first
/// increment (a year for team schedules, nothing for private ones), then
/// one calendar month per further release, measured at the previous
/// release's date.
pub open spec fn spec_release_timestamp(group: Group, start_ts: u32, i: nat) -> int
    decreases i,
{
    if i == 0 {
        start_ts + if group == Group::Team {
            SECONDS_PER_YEAR as int
        } else {
            0
        }
    } else {
        let p = spec_release_timestamp(group, start_ts, (i - 1) as nat);
        p + spec_month_increment(p as u32)
    }
}

/// The floored even team release never lets the running total pass the
/// amount.
proof fn lemma_team_even_bounds(amount: u64, unit: u64, n: int)
    requires
        unit >= 1,
        n >= 1,
        n * unit <= u64::MAX,
    ensures
        0 <= spec_team_even_quantity(amount, unit, n) <= amount,
        (n - 1) * spec_team_even_quantity(amount, unit, n) <= amount,
{
    let d = n * unit;
    let q = amount as int / d;
    assert(d >= 1) by (nonlinear_arith)
        requires
            unit >= 1,
            n >= 1,
            d == n * unit,
    ;
    vstd::arithmetic::div_mod::lemma_fundamental_div_mod(amount as int, d);
    assert(q >= 0) by (nonlinear_arith)
        requires
            q * d + (amount as int % d) == amount,
            0 <= amount as int % d < d,
            d >= 1,
    ;
    assert(q * d <= amount);
    assert((n - 1) * (q * unit) <= q * d && q * unit <= q * d) by (nonlinear_arith)
        requires
            q >= 0,
            unit >= 1,
            n >= 1,
            d == n * unit,
    ;
}

/// The floored even private release and the initial tenth never let the
/// running total pass the amount.
proof fn lemma_private_even_bounds(amount: u64, unit: u64, n: int)
    requires
        unit >= 1,
        n >= 2,
        n * unit <= u64::MAX,
    ensures
        0 <= spec_private_even_quantity(amount, unit, n) <= amount,
        amount as int / 10 + (n - 2) * spec_private_even_quantity(amount, unit, n) <= amount,
        0 <= (9 * amount) as int / (10 * (n - 1) * unit) <= amount,
{
    let d = 10 * (n - 1) * unit;
    let q = (9 * amount) as int / d;
    assert(d >= 10) by (nonlinear_arith)
        requires
            unit >= 1,
            n >= 2,
            d == 10 * (n - 1) * unit,
    ;
    vstd::arithmetic::div_mod::lemma_fundamental_div_mod(9 * amount, d);
    assert(q >= 0) by (nonlinear_arith)
        requires
            q * d + ((9 * amount) as int % d) == 9 * amount,
            0 <= (9 * amount) as int % d < d,
            d >= 1,
    ;
    assert(q * d <= 9 * amount);
    // ten times the even release stays within nine tenths of the amount
    assert(10 * (q * unit) <= q * d && 10 * ((n - 2) * (q * unit)) <= q * d && 10 * q <= q * d)
        by (nonlinear_arith)
        requires
            q >= 0,
            unit >= 1,
            n >= 2,
            d == 10 * (n - 1) * unit,
    ;
    let f = amount as int / 10;
    vstd::arithmetic::div_mod::lemma_fundamental_div_mod(amount as int, 10);
    assert(10 * f <= amount);
}

/// Each release quantity is nonnegative, and adding it moves the partial
/// total one step forward without passing the amount.
proof fn lemma_partial_step(group: Group, amount: u64, unit: u64, n: int, i: int)
    requires
        unit >= 1,
        n >= 1,
        n * unit <= u64::MAX,
        0 <= i < n,
    ensures
        spec_partial_total(group, amount, unit, n, i) + spec_release_quantity(
            group,
            amount,
            unit,
            n,
            i,
        ) == spec_partial_total(group, amount, unit, n, i + 1),
        0 <= spec_release_quantity(group, amount, unit, n, i),
        0 <= spec_partial_total(group, amount, unit, n, i),
        spec_partial_total(group, amount, unit, n, i + 1) <= amount,
{
    if group == Group::Team {
        lemma_team_even_bounds(amount, unit, n);
        let e = spec_team_even_quantity(amount, unit, n);
        if i < n - 1 {
            assert((i + 1) * e == i * e + e && (i + 1) * e <= (n - 1) * e && i * e >= 0)
                by (nonlinear_arith)
                requires
                    e >= 0,
                    0 <= i,
                    i + 1 <= n - 1,
            ;
        } else {
            assert((n - 1) * e >= 0) by (nonlinear_arith)
                requires
                    e >= 0,
                    n >= 1,
            ;
        }
    } else if n == 1 {
    } else {
        lemma_private_even_bounds(amount, unit, n);
        let e = spec_private_even_quantity(amount, unit, n);
        let f = amount as int / 10;
        assert(f >= 0) by (nonlinear_arith)
            requires
                f == amount as int / 10,
                amount >= 0,
        ;
        if i == 0 {
        } else if i < n - 1 {
            assert(i * e == (i - 1) * e + e && i * e <= (n - 2) * e && (i - 1) * e >= 0)
                by (nonlinear_arith)
                requires
                    e >= 0,
                    1 <= i,
                    i <= n - 2,
            ;
        } else {
            assert((n - 2) * e >= 0) by (nonlinear_arith)
                requires
                    e >= 0,
                    n >= 2,
            ;
        }
    }
}

/// Pushing a release adds its quantity to the sum.
proof fn lemma_sum_push(s: Seq<VestingInfo>, x: VestingInfo)
    ensures
        spec_sum_quantities(s.push(x)) == spec_sum_quantities(s) + x.quantity,
{
    assert(s.push(x).drop_last() =~= s);
}

/// Generates the vesting schedule: `period_count` releases whose
/// quantities follow the class policy and sum to `amount` exactly, with
/// calendar-month spacing.
pub fn parse_releases(
    amount: u64,
    unit: u64,
    period_count: usize,
    group: Group,
    start_ts: u32,
) -> (r: Vec<VestingInfo>)
    requires
        period_count >= 1,
        unit >= 1,
        period_count * unit <= u64::MAX,
        start_ts + SECONDS_PER_YEAR + period_count * 2678400 <= u32::MAX,
    ensures
        r@.len() == period_count,
        spec_sum_quantities(r@) == amount,
        forall|i: int|
            0 <= i < period_count ==> #[trigger] r@[i].quantity == spec_release_quantity(
                group,
                amount,
                unit,
                period_count as int,
                i,
            ),
        forall|i: int|
            0 <= i < period_count ==> #[trigger] r@[i].timestamp == spec_release_timestamp(
                group,
                start_ts,
                i as nat,
            ),
        forall|i: int|
            1 <= i < period_count ==> #[trigger] r@[i].timestamp == r@[i - 1].timestamp
                + spec_month_increment(r@[i - 1].timestamp),
        forall|i: int| 1 <= i < period_count ==> r@[i - 1].timestamp < #[trigger] r@[i].timestamp,
        r@[0].timestamp == start_ts + if group == Group::Team {
            SECONDS_PER_YEAR as int
        } else {
            0int
        },
{
    let n = period_count;
    let even: u64 = match group {
        Group::Team => {
            proof {
                assert(n * unit >= 1) by (nonlinear_arith)
                    requires
                        n >= 1,
                        unit >= 1,
                ;
                lemma_team_even_bounds(amount, unit, n as int);
            }
            let denom: u64 = (n as u64) * unit;
            let q: u64 = amount / denom;
            proof {
                assert(q * unit == spec_team_even_quantity(amount, unit, n as int));
            }
            q * unit
        },
        Group::Private => {
            if n == 1 {
                0
            } else {
                proof {
                    assert((n - 1) * unit <= n * unit && (n - 1) * unit >= 1)
                        by (nonlinear_arith)
                        requires
                            unit >= 1,
                            n >= 2,
                    ;
                    lemma_private_even_bounds(amount, unit, n as int);
                }
                let nu: u64 = ((n - 1) as u64) * unit;
                let denom: u128 = 10u128 * (nu as u128);
                proof {
                    assert(denom == 10 * (n - 1) * unit) by (nonlinear_arith)
                        requires
                            denom == 10 * ((n - 1) * unit),
                            nu == (n - 1) * unit,
                    ;
                }
                let q128: u128 = (9u128 * (amount as u128)) / denom;
                let q: u64 = q128 as u64;
                proof {
                    assert(q * unit == spec_private_even_quantity(amount, unit, n as int));
                }
                q * unit
            }
        },
    };
    let first: u64 = match group {
        Group::Team => even,
        Group::Private => {
            proof {
                vstd::arithmetic::div_mod::lemma_fundamental_div_mod(amount as int, 10);
            }
            amount / 10
        },
    };

    let ghost n_int = period_count as int;
    let mut releases: Vec<VestingInfo> = Vec::new();
    let mut total: u64 = 0;
    let mut release_timestamp: u32 = start_ts;
    let mut release_increment: u32 = match group {
        Group::Team => SECONDS_PER_YEAR,
        Group::Private => 0,
    };
    let mut i: usize = 0;
    while i < n
        invariant
            1 <= n,
            i <= n,
            unit >= 1,
            n * unit <= u64::MAX,
            n_int == n as int,
            start_ts + SECONDS_PER_YEAR + n * 2678400 <= u32::MAX,
            releases@.len() == i,
            total == spec_sum_quantities(releases@),
            total == spec_partial_total(group, amount, unit, n_int, i as int),
            group == Group::Team ==> even == spec_team_even_quantity(amount, unit, n_int),
            group == Group::Private && n > 1 ==> even == spec_private_even_quantity(
                amount,
                unit,
                n_int,
            ),
            group == Group::Team ==> first == even,
            group == Group::Private ==> first == amount as int / 10,
            forall|j: int|
                0 <= j < i ==> #[trigger] releases@[j].quantity == spec_release_quantity(
                    group,
                    amount,
                    unit,
                    n_int,
                    j,
                ),
            forall|j: int|
                0 <= j < i ==> #[trigger] releases@[j].timestamp == spec_release_timestamp(
                    group,
                    start_ts,
                    j as nat,
                ),
            forall|j: int|
                1 <= j < i ==> #[trigger] releases@[j].timestamp == releases@[j - 1].timestamp
                    + spec_month_increment(releases@[j - 1].timestamp),
            i == 0 ==> release_timestamp == start_ts && release_increment as int == (if group
                == Group::Team {
                SECONDS_PER_YEAR as int
            } else {
                0int
            }),
            i > 0 ==> release_timestamp == spec_release_timestamp(
                group,
                start_ts,
                (i - 1) as nat,
            ) && release_increment == spec_month_increment(release_timestamp),
            release_timestamp + release_increment <= start_ts + SECONDS_PER_YEAR + i * 2678400,
        decreases n - i,
    {
        proof {
            lemma_partial_step(group, amount, unit, n_int, i as int);
        }
        let quantity: u64 = if i == n - 1 {
            amount - total
        } else if i == 0 {
            first
        } else {
            even
        };
        assert(quantity == spec_release_quantity(group, amount, unit, n_int, i as int));

        release_timestamp = release_timestamp + release_increment;
        release_increment = parse_increment(release_timestamp);

        let entry = VestingInfo { timestamp: release_timestamp, quantity };
        proof {
            lemma_sum_push(releases@, entry);
        }
        releases.push(entry);
        total = total + quantity;
        i = i + 1;
    }
    releases
}

} // verus!
