//! Stored trade fill records and their conversion from domain events.

use vstd::prelude::*;
use crate::error::VybeDatabaseError;
use crate::events::{MarketEvent, MarketEventDetails};

verus! {

/// A trade fill record as read back from storage.
#[derive(Debug, Clone, Copy, PartialEq, Eq, Structural)]
pub struct TradeFill {
    /// Primary key of the record.
    pub id: i32,
    /// Seconds since the epoch at which the fill occurred.
    pub event_timestamp: i64,
    /// Price in ticks; the aggregate layer multiplies by the market's
    /// tick size to obtain a real price.
    pub price_in_ticks: i64,
    /// Volume of the base token, in lots, filled by this trade.
    pub base_lots_filled: i64,
}

/// A trade fill record to be inserted into storage.
#[derive(Debug, Clone, Copy, PartialEq, Eq, Structural)]
pub struct NewTradeFill {
    /// Seconds since the epoch at which the fill occurred.
    pub event_timestamp: i64,
    /// Price in ticks, as the storage schema stores it.
    pub price_in_ticks: i64,
    /// Volume of the base token, in lots, filled by this trade.
    pub base_lots_filled: i64,
}

/// The record a fill event becomes when handed to storage.
pub open spec fn record_of(event: MarketEvent) -> NewTradeFill {
    NewTradeFill {
        event_timestamp: event.timestamp,
        price_in_ticks: event.details->Fill_0.price_in_ticks as i64,
        base_lots_filled: event.details->Fill_0.base_lots_filled as i64,
    }
}

impl NewTradeFill {
    /// Converts one event into the record to insert. Exactly the
    /// events with fill details convert; every other kind is refused.
    pub fn try_from(event: MarketEvent) -> (r: Result<NewTradeFill, VybeDatabaseError>)
        ensures
            r is Ok <==> event.details is Fill,
            r is Ok ==> r->Ok_0 == record_of(event),
            r is Err ==> r->Err_0 == VybeDatabaseError::InvalidPhoenixEvent,
    {
        match event.details {
            MarketEventDetails::Fill(fill) => Result::Ok(NewTradeFill {
                event_timestamp: event.timestamp,
                price_in_ticks: #[verifier::truncate] (fill.price_in_ticks as i64),
                base_lots_filled: #[verifier::truncate] (fill.base_lots_filled as i64),
            }),
            _ => Result::Err(VybeDatabaseError::InvalidPhoenixEvent),
        }
    }
}

} // verus!
