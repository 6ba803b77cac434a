//! Conversion of fill events into storage records.

use vn_extractord_core::error::VybeDatabaseError;
use vn_extractord_core::events::{FillDetails, MarketEvent, MarketEventDetails};
use vn_extractord_core::models::NewTradeFill;

#[test]
fn fill_event_converts_to_a_record() {
    let event = MarketEvent {
        sequence_number: 1,
        timestamp: 1740956436,
        details: MarketEventDetails::Fill(FillDetails {
            price_in_ticks: 177096,
            base_lots_filled: 16782,
        }),
    };
    let rec = NewTradeFill::try_from(event).unwrap();
    assert_eq!(rec.event_timestamp, 1740956436);
    assert_eq!(rec.price_in_ticks, 177096);
    assert_eq!(rec.base_lots_filled, 16782);
}

#[test]
fn non_fill_event_is_refused() {
    let event = MarketEvent {
        sequence_number: 1,
        timestamp: 2,
        details: MarketEventDetails::Place,
    };
    assert_eq!(
        NewTradeFill::try_from(event),
        Err(VybeDatabaseError::InvalidPhoenixEvent)
    );
}
