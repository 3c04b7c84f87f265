//! The price oracle adapter.
//!
//! A quoted price is held against the last price that was accepted. The
//! first price is always accepted. A later one is accepted when it lies
//! within the configured deviation of the last; then it is stored with the
//! time of the quote. A price that is not accepted is dropped, and the
//! fallback price is quoted in its place.

use crate::math::{checked_quotient, in_range, lemma_div_bounds, trunc_div};
use crate::state::ProtocolState;
use vstd::prelude::*;

verus! {

/// The price the feed reports at `timestamp`: 2.0, plus a small part that
/// moves with the clock.
pub open spec fn feed_price(timestamp: u64) -> i128 {
    (200_000_000 + (timestamp % 1000) * 10_000) as i128
}

/// The distance between the last price and a new one.
pub open spec fn price_gap(last: int, price: int) -> int {
    if last > price {
        last - price
    } else {
        price - last
    }
}

/// The gap as a percentage of the last price.
pub open spec fn deviation(last: int, price: int) -> int {
    trunc_div(price_gap(last, price) * 100, last)
}

/// A price is acceptable when there is no last price, or when its deviation
/// from the last price is not above `max_deviation`. A deviation too large
/// to be computed is not acceptable.
pub open spec fn price_acceptable(last: i128, price: i128, max_deviation: i128) -> bool {
    last == 0 || {
        &&& in_range(price_gap(last as int, price as int))
        &&& in_range(price_gap(last as int, price as int) * 100)
        &&& deviation(last as int, price as int) <= max_deviation
    }
}

/// A source of prices for the collateral asset, in units of the debt asset
/// and scaled.
pub trait PriceOracle {
    /// The price that a call of `get_price` returns on ledger `st`.
    spec fn quote(st: ProtocolState) -> i128;

    /// The ledger that a call of `get_price` leaves behind.
    spec fn after_quote(st: ProtocolState) -> ProtocolState;

    fn get_price(st: &mut ProtocolState) -> (r: i128)
        requires
            old(st).wf(),
        ensures
            r == Self::quote(*old(st)),
            *final(st) == Self::after_quote(*old(st)),
            final(st).wf(),
    ;

    fn get_last_update(st: &ProtocolState) -> (r: u64);

    fn validate_price(st: &ProtocolState, price: i128) -> (r: bool);
}

/// The oracle the protocol runs on: the feed, checked against the last
/// accepted price, with the fallback price behind it.
pub struct RealPriceOracle;

impl RealPriceOracle {
    /// The feed's price at the ledger's clock sample is accepted.
    pub open spec fn accepts(st: ProtocolState) -> bool {
        st.oracle is Some && price_acceptable(
            st.oracle_price,
            feed_price(st.timestamp),
            st.max_price_deviation,
        )
    }

    /// What the feed reports at `timestamp`.
    pub fn sample(timestamp: u64) -> (r: i128)
        ensures
            r == feed_price(timestamp),
    {
        let variation: i128 = ((timestamp % 1000) as i128) * 10_000;
        200_000_000 + variation
    }

    /// Whether `price` is acceptable after the price `last`.
    pub fn acceptable(last: i128, price: i128, max_deviation: i128) -> (r: bool)
        ensures
            r == price_acceptable(last, price, max_deviation),
    {
        if last == 0 {
            return true;
        }
        let gap = if last > price {
            last.checked_sub(price)
        } else {
            price.checked_sub(last)
        };
        let gap = match gap {
            Some(v) => v,
            None => { return false; },
        };
        let scaled = match gap.checked_mul(100) {
            Some(v) => v,
            None => { return false; },
        };
        proof {
            if last > 0 {
                lemma_div_bounds(scaled as int, last as int);
            } else {
                lemma_div_bounds(scaled as int, -(last as int));
            }
        }
        match checked_quotient(scaled, last) {
            Some(d) => d <= max_deviation,
            None => false,
        }
    }

    /// The price a quote would give and whether the feed's price would be
    /// stored, without touching the ledger.
    pub fn peek(st: &ProtocolState) -> (r: (i128, bool))
        ensures
            r.0 == Self::quote(*st),
            r.1 == Self::accepts(*st),
    {
        if st.oracle.is_none() {
            return (st.fallback_price, false);
        }
        let price = Self::sample(st.timestamp);
        if Self::acceptable(st.oracle_price, price, st.max_price_deviation) {
            (price, true)
        } else {
            (st.fallback_price, false)
        }
    }
}

impl PriceOracle for RealPriceOracle {
    open spec fn quote(st: ProtocolState) -> i128 {
        if Self::accepts(st) {
            feed_price(st.timestamp)
        } else {
            st.fallback_price
        }
    }

    open spec fn after_quote(st: ProtocolState) -> ProtocolState {
        if Self::accepts(st) {
            ProtocolState {
                oracle_price: feed_price(st.timestamp),
                oracle_last_update: st.timestamp,
                ..st
            }
        } else {
            st
        }
    }

    fn get_price(st: &mut ProtocolState) -> (r: i128) {
        let (price, accepted) = Self::peek(st);
        if accepted {
            st.oracle_price = price;
            st.oracle_last_update = st.timestamp;
        }
        price
    }

    fn get_last_update(st: &ProtocolState) -> (r: u64)
        ensures
            r == st.oracle_last_update,
    {
        st.oracle_last_update
    }

    fn validate_price(st: &ProtocolState, price: i128) -> (r: bool)
        ensures
            r == price_acceptable(st.oracle_price, price, st.max_price_deviation),
    {
        Self::acceptable(st.oracle_price, price, st.max_price_deviation)
    }
}

/// An oracle that always quotes 2.0 and stores nothing.
pub struct MockOracle;

impl PriceOracle for MockOracle {
    open spec fn quote(st: ProtocolState) -> i128 {
        200_000_000
    }

    open spec fn after_quote(st: ProtocolState) -> ProtocolState {
        st
    }

    fn get_price(st: &mut ProtocolState) -> (r: i128) {
        200_000_000
    }

    fn get_last_update(st: &ProtocolState) -> (r: u64)
        ensures
            r == 0,
    {
        0
    }

    fn validate_price(st: &ProtocolState, price: i128) -> (r: bool)
        ensures
            r,
    {
        true
    }
}

} // verus!
