//! Domain events produced by parsing one ledger transaction.

use vstd::prelude::*;

verus! {

/// Attributes of a fill: a completed trade execution on the market.
#[derive(Debug, Clone, Copy, PartialEq, Eq, Structural)]
pub struct FillDetails {
    /// Price of the trade in ticks; the downstream aggregate layer
    /// multiplies by the market's tick size to obtain a real price.
    pub price_in_ticks: u64,
    /// Volume of the base token, in lots, filled by this trade.
    pub base_lots_filled: u64,
}

/// The closed set of event kinds a transaction can carry. Only `Fill`
/// holds data the pipeline persists; every other kind is dropped by the
/// filter. A new kind must be classified there explicitly.
#[derive(Debug, Clone, Copy, PartialEq, Eq, Structural)]
pub enum MarketEventDetails {
    /// A completed trade execution.
    Fill(FillDetails),
    /// An order placed on the book.
    Place,
    /// An order evicted from the book.
    Evict,
    /// An order reduced in size.
    Reduce,
    /// A summary record accompanying fills.
    FillSummary,
    /// A fee collection record.
    Fee,
    /// A time-in-force record.
    TimeInForce,
}

/// One domain event, as parsed from a transaction. The sequence number
/// increases strictly in true ledger order, but events need not arrive
/// at this process in that order.
#[derive(Debug, Clone, Copy, PartialEq, Eq, Structural)]
pub struct MarketEvent {
    /// Process-wide ordering key assigned by the ledger.
    pub sequence_number: u64,
    /// Seconds since the epoch at which the event occurred.
    pub timestamp: i64,
    /// What the event was.
    pub details: MarketEventDetails,
}

impl MarketEvent {
    /// Whether this event is a fill.
    pub open spec fn is_fill(self) -> bool {
        self.details is Fill
    }
}

/// The fill events of `s`, in their original relative order.
pub open spec fn fills_of(s: Seq<MarketEvent>) -> Seq<MarketEvent> {
    s.filter(|e: MarketEvent| e.is_fill())
}

/// Identify if a given event is a fill event. The match is exhaustive
/// on purpose: a new event kind must be classified here, never defaulted.
pub fn is_market_fill_event(details: &MarketEventDetails) -> (r: bool)
    ensures
        r == (*details is Fill),
{
    match *details {
        MarketEventDetails::Fill(_) => true,
        MarketEventDetails::Place
        | MarketEventDetails::Evict
        | MarketEventDetails::Reduce
        | MarketEventDetails::FillSummary
        | MarketEventDetails::Fee
        | MarketEventDetails::TimeInForce => false,
    }
}

} // verus!
