//! Open/high/low/close aggregation over stored fill records, in ticks.
//!
//! Storage order is not guaranteed to be chronological, so open and
//! close go by the event timestamps of the records, not their order.

use vstd::prelude::*;
use crate::models::TradeFill;

verus! {

/// The record whose price opens the series: among the records with the
/// least timestamp, the one stored first.
pub open spec fn opening_fill(s: Seq<TradeFill>) -> TradeFill
    recommends
        s.len() > 0,
    decreases s.len(),
{
    if s.len() <= 1 {
        s[0]
    } else {
        let prev = opening_fill(s.drop_last());
        if s.last().event_timestamp < prev.event_timestamp {
            s.last()
        } else {
            prev
        }
    }
}

/// The record whose price closes the series: among the records with
/// the greatest timestamp, the one stored last.
pub open spec fn closing_fill(s: Seq<TradeFill>) -> TradeFill
    recommends
        s.len() > 0,
    decreases s.len(),
{
    if s.len() <= 1 {
        s[0]
    } else {
        let prev = closing_fill(s.drop_last());
        if s.last().event_timestamp >= prev.event_timestamp {
            s.last()
        } else {
            prev
        }
    }
}

/// The greatest price of the series.
pub open spec fn highest_price(s: Seq<TradeFill>) -> int
    recommends
        s.len() > 0,
    decreases s.len(),
{
    if s.len() <= 1 {
        s[0].price_in_ticks as int
    } else {
        let prev = highest_price(s.drop_last());
        if s.last().price_in_ticks > prev {
            s.last().price_in_ticks as int
        } else {
            prev
        }
    }
}

/// The least price of the series.
pub open spec fn lowest_price(s: Seq<TradeFill>) -> int
    recommends
        s.len() > 0,
    decreases s.len(),
{
    if s.len() <= 1 {
        s[0].price_in_ticks as int
    } else {
        let prev = lowest_price(s.drop_last());
        if s.last().price_in_ticks < prev {
            s.last().price_in_ticks as int
        } else {
            prev
        }
    }
}

/// Computes the open, high, low and close prices of the stored records,
/// in ticks and in that order; `None` exactly when no record exists.
/// The caller applies the market's tick size.
pub fn calculate_ohlc(trades: &Vec<TradeFill>) -> (r: Option<(i64, i64, i64, i64)>)
    ensures
        r is Some <==> trades@.len() > 0,
        r is Some ==> r.unwrap().0 == opening_fill(trades@).price_in_ticks,
        r is Some ==> r.unwrap().1 == highest_price(trades@),
        r is Some ==> r.unwrap().2 == lowest_price(trades@),
        r is Some ==> r.unwrap().3 == closing_fill(trades@).price_in_ticks,
{
    if trades.len() == 0 {
        return Option::None;
    }
    let mut open_rec: TradeFill = trades[0];
    let mut close_rec: TradeFill = trades[0];
    let mut high: i64 = trades[0].price_in_ticks;
    let mut low: i64 = trades[0].price_in_ticks;
    let mut idx: usize = 1;
    while idx < trades.len()
        invariant
            1 <= idx <= trades@.len(),
            open_rec == opening_fill(trades@.take(idx as int)),
            close_rec == closing_fill(trades@.take(idx as int)),
            high == highest_price(trades@.take(idx as int)),
            low == lowest_price(trades@.take(idx as int)),
        decreases trades@.len() - idx,
    {
        let t = trades[idx];
        proof {
            assert(trades@.take(idx + 1).drop_last() =~= trades@.take(idx as int));
            assert(trades@.take(idx + 1).last() == trades@[idx as int]);
        }
        if t.event_timestamp < open_rec.event_timestamp {
            open_rec = t;
        }
        if t.event_timestamp >= close_rec.event_timestamp {
            close_rec = t;
        }
        if t.price_in_ticks > high {
            high = t.price_in_ticks;
        }
        if t.price_in_ticks < low {
            low = t.price_in_ticks;
        }
        idx += 1;
    }
    proof {
        assert(trades@.take(trades@.len() as int) =~= trades@);
    }
    Option::Some((open_rec.price_in_ticks, high, low, close_rec.price_in_ticks))
}

} // verus!
