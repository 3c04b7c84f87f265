//! The interest rate engine: utilization, the kinked borrow-rate curve, the
//! supply rate, and simple interest on a position.
//!
//! A position earns interest from its first accrual on: that accrual starts
//! its clock, and every later one adds the interest for the time since the
//! one before.
//!
//! Each quantity is defined twice over the integers: the value itself, and
//! the condition under which every intermediate result of its computation is
//! representable. The `checked_` functions return nothing where that
//! condition fails; the `calculate_` functions take it as a precondition.

use crate::math::{
    checked_mul_div, checked_quotient, in_range, lemma_div_bounds, max_i128, max_int, min_i128,
    min_int, mul_div, mul_div_fits, trunc_div,
};
use crate::types::{InterestRateConfig, InterestRateState, Position};
use vstd::prelude::*;

verus! {

/// Borrowed funds as a fraction of supplied funds; zero where nothing is
/// supplied.
pub open spec fn utilization(borrowed: int, supplied: int) -> int {
    if supplied == 0 {
        0
    } else {
        mul_div(borrowed, 100_000_000, supplied)
    }
}

/// Utilization can be computed within the 128-bit range.
pub open spec fn utilization_fits(borrowed: int, supplied: int) -> bool {
    supplied == 0 || mul_div_fits(borrowed, 100_000_000, supplied)
}

/// What the borrow rate gains above the kink: the excess utilization times
/// the multiplier.
pub open spec fn excess_rate(utilization: int, config: InterestRateConfig) -> int {
    if utilization > config.kink_utilization {
        mul_div(utilization - config.kink_utilization, config.multiplier as int, 100_000_000)
    } else {
        0
    }
}

/// Base rate plus excess rate, raised to the floor and then cut at the
/// ceiling.
pub open spec fn borrow_rate(utilization: int, config: InterestRateConfig) -> int {
    min_int(
        max_int(config.base_rate + excess_rate(utilization, config), config.rate_floor as int),
        config.rate_ceiling as int,
    )
}

/// The borrow rate can be computed within the 128-bit range.
pub open spec fn borrow_rate_fits(utilization: int, config: InterestRateConfig) -> bool {
    utilization > config.kink_utilization ==> {
        &&& in_range(utilization - config.kink_utilization)
        &&& mul_div_fits(
            utilization - config.kink_utilization,
            config.multiplier as int,
            100_000_000,
        )
        &&& in_range(config.base_rate + excess_rate(utilization, config))
    }
}

/// The part of the borrow rate that reaches suppliers at this utilization,
/// before the protocol's share.
pub open spec fn effective_rate(borrow_rate: int, utilization: int) -> int {
    mul_div(borrow_rate, utilization, 100_000_000)
}

/// The effective rate less the protocol's share of it.
pub open spec fn supply_rate(borrow_rate: int, utilization: int, reserve_factor: int) -> int {
    effective_rate(borrow_rate, utilization) - mul_div(
        effective_rate(borrow_rate, utilization),
        reserve_factor,
        100_000_000,
    )
}

/// The supply rate can be computed within the 128-bit range.
pub open spec fn supply_rate_fits(borrow_rate: int, utilization: int, reserve_factor: int) -> bool {
    &&& mul_div_fits(borrow_rate, utilization, 100_000_000)
    &&& mul_div_fits(effective_rate(borrow_rate, utilization), reserve_factor, 100_000_000)
    &&& in_range(supply_rate(borrow_rate, utilization, reserve_factor))
}

/// Simple interest on `principal` at the yearly `rate` over `seconds`.
pub open spec fn interest(principal: int, rate: int, seconds: int) -> int {
    if principal == 0 || rate == 0 || seconds == 0 {
        0
    } else {
        trunc_div(principal * rate * seconds, 3_153_600_000_000_000)
    }
}

/// The interest can be computed within the 128-bit range.
pub open spec fn interest_fits(principal: int, rate: int, seconds: int) -> bool {
    principal == 0 || rate == 0 || seconds == 0 || (in_range(principal * rate) && in_range(
        principal * rate * seconds,
    ))
}

/// The protocol's share of an amount of interest.
pub open spec fn protocol_share(interest: int, reserve_factor: int) -> int {
    mul_div(interest, reserve_factor, 100_000_000)
}

/// The protocol's share can be computed within the 128-bit range.
pub open spec fn protocol_share_fits(interest: int, reserve_factor: int) -> bool {
    mul_div_fits(interest, reserve_factor, 100_000_000)
}

/// The rates that follow from the totals in `state`, stamped with `now`.
pub open spec fn updated_rates(state: InterestRateState, config: InterestRateConfig, now: u64)
    -> InterestRateState {
    let u = utilization(state.total_borrowed as int, state.total_supplied as int);
    let b = borrow_rate(u, config);
    InterestRateState {
        utilization_rate: u as i128,
        current_borrow_rate: b as i128,
        current_supply_rate: supply_rate(b, u, config.reserve_factor as int) as i128,
        last_accrual_time: now,
        ..state
    }
}

/// Utilization and both rates can be computed from the totals in `state`.
pub open spec fn rates_fit(state: InterestRateState, config: InterestRateConfig) -> bool {
    let u = utilization(state.total_borrowed as int, state.total_supplied as int);
    &&& utilization_fits(state.total_borrowed as int, state.total_supplied as int)
    &&& borrow_rate_fits(u, config)
    &&& supply_rate_fits(borrow_rate(u, config), u, config.reserve_factor as int)
}

/// Seconds for which a position whose interest was last accrued at `last`
/// earns interest at `now`. A last accrual time of zero says that interest
/// was never accrued yet: there is no time to measure from, and no interest
/// is earned.
pub open spec fn elapsed(last: u64, now: u64) -> int {
    if last == 0 {
        0
    } else {
        now - last
    }
}

/// The position after accrual at `now`. Where time has passed since the
/// last accrual, the interest for that time goes to the two accumulators. A
/// position whose interest was never accrued yet earns none, and its time of
/// last accrual becomes `now`, so that the next accrual measures from there.
/// Principal is never changed, and a clock that has not advanced changes
/// nothing.
pub open spec fn accrued(position: Position, now: u64, borrow_rate: i128, supply_rate: i128)
    -> Position {
    let dt = elapsed(position.last_accrual_time, now);
    if dt > 0 {
        Position {
            borrow_interest: if position.debt > 0 {
                (position.borrow_interest + interest(
                    position.debt as int,
                    borrow_rate as int,
                    dt,
                )) as i128
            } else {
                position.borrow_interest
            },
            supply_interest: if position.collateral > 0 {
                (position.supply_interest + interest(
                    position.collateral as int,
                    supply_rate as int,
                    dt,
                )) as i128
            } else {
                position.supply_interest
            },
            last_accrual_time: now,
            ..position
        }
    } else if position.last_accrual_time == 0 {
        Position { last_accrual_time: now, ..position }
    } else {
        position
    }
}

/// The interest for the elapsed time can be computed and added to the
/// accumulators of the position.
pub open spec fn accrual_fits(position: Position, now: u64, borrow_rate: i128, supply_rate: i128)
    -> bool {
    let dt = elapsed(position.last_accrual_time, now);
    dt > 0 ==> {
        &&& position.debt > 0 ==> interest_fits(position.debt as int, borrow_rate as int, dt)
            && in_range(
            position.borrow_interest + interest(position.debt as int, borrow_rate as int, dt),
        )
        &&& position.collateral > 0 ==> interest_fits(
            position.collateral as int,
            supply_rate as int,
            dt,
        ) && in_range(
            position.supply_interest + interest(position.collateral as int, supply_rate as int, dt),
        )
    }
}

/// Dividing a representable value by a positive one gives a representable
/// value.
pub proof fn lemma_trunc_div_in_range(a: int, b: int)
    requires
        in_range(a),
        b > 0,
    ensures
        in_range(trunc_div(a, b)),
{
    if a >= 0 {
        lemma_div_bounds(a, b);
    } else {
        lemma_div_bounds(-a, b);
    }
}

/// The computations of the interest rate engine.
pub struct InterestRateManager;

impl InterestRateManager {
    /// Utilization, or nothing where it cannot be computed.
    pub fn checked_utilization(total_borrowed: i128, total_supplied: i128) -> (r: Option<i128>)
        ensures
            r == (if utilization_fits(total_borrowed as int, total_supplied as int) {
                Some(utilization(total_borrowed as int, total_supplied as int) as i128)
            } else {
                None
            }),
    {
        if total_supplied == 0 {
            return Some(0);
        }
        checked_mul_div(total_borrowed, 100_000_000, total_supplied)
    }

    /// Borrowed funds as a fraction of supplied funds.
    pub fn calculate_utilization(total_borrowed: i128, total_supplied: i128) -> (r: i128)
        requires
            utilization_fits(total_borrowed as int, total_supplied as int),
        ensures
            r == utilization(total_borrowed as int, total_supplied as int),
    {
        Self::checked_utilization(total_borrowed, total_supplied).unwrap()
    }

    /// The borrow rate at `utilization`, or nothing where it cannot be computed.
    pub fn checked_borrow_rate(utilization: i128, config: &InterestRateConfig) -> (r: Option<i128>)
        ensures
            r == (if borrow_rate_fits(utilization as int, *config) {
                Some(borrow_rate(utilization as int, *config) as i128)
            } else {
                None
            }),
    {
        let mut rate = config.base_rate;
        if utilization > config.kink_utilization {
            let excess_utilization = match utilization.checked_sub(config.kink_utilization) {
                Some(v) => v,
                None => { return None; },
            };
            let excess = match checked_mul_div(excess_utilization, config.multiplier, 100_000_000) {
                Some(v) => v,
                None => { return None; },
            };
            rate = match rate.checked_add(excess) {
                Some(v) => v,
                None => { return None; },
            };
        }
        Some(min_i128(max_i128(rate, config.rate_floor), config.rate_ceiling))
    }

    /// The borrow rate at `utilization`.
    pub fn calculate_borrow_rate(utilization: i128, config: &InterestRateConfig) -> (r: i128)
        requires
            borrow_rate_fits(utilization as int, *config),
        ensures
            r == borrow_rate(utilization as int, *config),
    {
        Self::checked_borrow_rate(utilization, config).unwrap()
    }

    /// The supply rate, or nothing where it cannot be computed.
    pub fn checked_supply_rate(borrow_rate: i128, utilization: i128, reserve_factor: i128) -> (r:
        Option<i128>)
        ensures
            r == (if supply_rate_fits(
                borrow_rate as int,
                utilization as int,
                reserve_factor as int,
            ) {
                Some(
                    supply_rate(borrow_rate as int, utilization as int, reserve_factor as int)
                        as i128,
                )
            } else {
                None
            }),
    {
        let effective = match checked_mul_div(borrow_rate, utilization, 100_000_000) {
            Some(v) => v,
            None => { return None; },
        };
        let fee = match checked_mul_div(effective, reserve_factor, 100_000_000) {
            Some(v) => v,
            None => { return None; },
        };
        effective.checked_sub(fee)
    }

    /// The supply rate that goes with a borrow rate at `utilization`.
    pub fn calculate_supply_rate(borrow_rate: i128, utilization: i128, reserve_factor: i128) -> (r:
        i128)
        requires
            supply_rate_fits(borrow_rate as int, utilization as int, reserve_factor as int),
        ensures
            r == supply_rate(borrow_rate as int, utilization as int, reserve_factor as int),
    {
        Self::checked_supply_rate(borrow_rate, utilization, reserve_factor).unwrap()
    }

    /// Simple interest over `time_delta` seconds, or nothing where it cannot be
    /// computed.
    pub fn checked_interest(principal: i128, rate: i128, time_delta: u64) -> (r: Option<i128>)
        ensures
            r == (if interest_fits(principal as int, rate as int, time_delta as int) {
                Some(interest(principal as int, rate as int, time_delta as int) as i128)
            } else {
                None
            }),
    {
        if principal == 0 || rate == 0 || time_delta == 0 {
            return Some(0);
        }
        let weighted = match principal.checked_mul(rate) {
            Some(v) => v,
            None => { return None; },
        };
        let total = match weighted.checked_mul(time_delta as i128) {
            Some(v) => v,
            None => { return None; },
        };
        proof {
            lemma_trunc_div_in_range(total as int, 3_153_600_000_000_000);
        }
        checked_quotient(total, 3_153_600_000_000_000)
    }

    /// Simple interest on `principal` at the yearly `rate` over `time_delta`
    /// seconds.
    pub fn calculate_interest(principal: i128, rate: i128, time_delta: u64) -> (r: i128)
        requires
            interest_fits(principal as int, rate as int, time_delta as int),
        ensures
            r == interest(principal as int, rate as int, time_delta as int),
    {
        Self::checked_interest(principal, rate, time_delta).unwrap()
    }

    /// The state with its rates recomputed, or nothing where they are not
    /// representable.
    pub fn checked_update_rates(now: u64, state: &InterestRateState, config: &InterestRateConfig)
        -> (r: Option<InterestRateState>)
        ensures
            r == (if rates_fit(*state, *config) {
                Some(updated_rates(*state, *config, now))
            } else {
                None
            }),
    {
        let utilization = match Self::checked_utilization(state.total_borrowed, state.total_supplied) {
            Some(v) => v,
            None => { return None; },
        };
        let borrow = match Self::checked_borrow_rate(utilization, config) {
            Some(v) => v,
            None => { return None; },
        };
        let supply = match Self::checked_supply_rate(borrow, utilization, config.reserve_factor) {
            Some(v) => v,
            None => { return None; },
        };
        Some(
            InterestRateState {
                current_borrow_rate: borrow,
                current_supply_rate: supply,
                utilization_rate: utilization,
                total_borrowed: state.total_borrowed,
                total_supplied: state.total_supplied,
                last_accrual_time: now,
            },
        )
    }

    /// Recomputes utilization and both rates from the totals in `state`.
    pub fn update_rates(now: u64, state: &mut InterestRateState, config: &InterestRateConfig)
        requires
            rates_fit(*old(state), *config),
        ensures
            *final(state) == updated_rates(*old(state), *config, now),
    {
        let next = Self::checked_update_rates(now, state, config).unwrap();
        *state = next;
    }

    /// The position after accrual at `now`, or nothing where the interest is
    /// not representable.
    pub fn checked_accrue(now: u64, position: &Position, borrow_rate: i128, supply_rate: i128) -> (r:
        Option<Position>)
        ensures
            r == (if accrual_fits(*position, now, borrow_rate, supply_rate) {
                Some(accrued(*position, now, borrow_rate, supply_rate))
            } else {
                None
            }),
    {
        let mut next = position.clone();
        if position.last_accrual_time == 0 {
            next.last_accrual_time = now;
            return Some(next);
        }
        if now <= position.last_accrual_time {
            return Some(next);
        }
        let time_delta = now - position.last_accrual_time;
        if position.debt > 0 {
            let earned = match Self::checked_interest(position.debt, borrow_rate, time_delta) {
                Some(v) => v,
                None => { return None; },
            };
            next.borrow_interest = match position.borrow_interest.checked_add(earned) {
                Some(v) => v,
                None => { return None; },
            };
        }
        if position.collateral > 0 {
            let earned = match Self::checked_interest(position.collateral, supply_rate, time_delta) {
                Some(v) => v,
                None => { return None; },
            };
            next.supply_interest = match position.supply_interest.checked_add(earned) {
                Some(v) => v,
                None => { return None; },
            };
        }
        next.last_accrual_time = now;
        Some(next)
    }

    /// Adds the interest for the time since the last accrual of the position to
    /// its accumulators, and starts the clock of a position whose interest was
    /// never accrued yet.
    pub fn accrue_interest_for_position(
        now: u64,
        position: &mut Position,
        borrow_rate: i128,
        supply_rate: i128,
    )
        requires
            accrual_fits(*old(position), now, borrow_rate, supply_rate),
        ensures
            *final(position) == accrued(*old(position), now, borrow_rate, supply_rate),
    {
        let next = Self::checked_accrue(now, position, borrow_rate, supply_rate).unwrap();
        *position = next;
    }

    /// The protocol's share of one amount of interest.
    pub fn checked_protocol_share(interest: i128, reserve_factor: i128) -> (r: Option<i128>)
        ensures
            r == (if protocol_share_fits(interest as int, reserve_factor as int) {
                Some(protocol_share(interest as int, reserve_factor as int) as i128)
            } else {
                None
            }),
    {
        checked_mul_div(interest, reserve_factor, 100_000_000)
    }

    /// The protocol's share of borrow interest and of supply interest.
    pub fn collect_fees_from_interest(
        borrow_interest: i128,
        supply_interest: i128,
        reserve_factor: i128,
    ) -> (r: (i128, i128))
        requires
            protocol_share_fits(borrow_interest as int, reserve_factor as int),
            protocol_share_fits(supply_interest as int, reserve_factor as int),
        ensures
            r.0 == protocol_share(borrow_interest as int, reserve_factor as int),
            r.1 == protocol_share(supply_interest as int, reserve_factor as int),
    {
        let borrow_fee = Self::checked_protocol_share(borrow_interest, reserve_factor).unwrap();
        let supply_fee = Self::checked_protocol_share(supply_interest, reserve_factor).unwrap();
        (borrow_fee, supply_fee)
    }
}

} // verus!
