//! Open/high/low/close aggregation over stored records.

use vn_extractord_core::models::TradeFill;
use vn_extractord_core::ohlc::calculate_ohlc;

fn rec(id: i32, ts: i64, price: i64) -> TradeFill {
    TradeFill {
        id,
        event_timestamp: ts,
        price_in_ticks: price,
        base_lots_filled: 1,
    }
}

#[test]
fn ohlc_over_unordered_records() {
    // chronological order: (100, 70), (150, 90), (200, 50), (300, 20)
    let trades = vec![rec(1, 200, 50), rec(2, 100, 70), rec(3, 300, 20), rec(4, 150, 90)];
    assert_eq!(calculate_ohlc(&trades), Some((70, 90, 20, 20)));
}

#[test]
fn ohlc_of_nothing_is_none() {
    assert_eq!(calculate_ohlc(&Vec::new()), None);
}

#[test]
fn ohlc_of_a_single_record() {
    assert_eq!(calculate_ohlc(&vec![rec(1, 5, 42)]), Some((42, 42, 42, 42)));
}

#[test]
fn ohlc_timestamp_ties_go_by_storage_order() {
    // equal timestamps: open is the first stored, close the last stored
    let trades = vec![rec(1, 100, 5), rec(2, 100, 7), rec(3, 100, 6)];
    assert_eq!(calculate_ohlc(&trades), Some((5, 7, 5, 6)));
}
