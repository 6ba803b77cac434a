//! Filtering, ordering and fan-in behavior of the extraction pipeline.

use vn_extractord_core::error::VybeDaemonError;
use vn_extractord_core::events::{FillDetails, MarketEvent, MarketEventDetails};
use vn_extractord_core::extractor::{plan_parse_batches, TransactionId, VybeTradeFillExtractor};
use vn_extractord_core::order::select_and_order;

const PHOENIX_ADDRESS: &str = "PhoeNiXZ8ByJGLkxNfZRnkUfjvmuYqLR89jjFHGqdXY";

fn fill(seq: u64, ts: i64, price: u64, lots: u64) -> MarketEvent {
    MarketEvent {
        sequence_number: seq,
        timestamp: ts,
        details: MarketEventDetails::Fill(FillDetails {
            price_in_ticks: price,
            base_lots_filled: lots,
        }),
    }
}

fn place(seq: u64, ts: i64) -> MarketEvent {
    MarketEvent {
        sequence_number: seq,
        timestamp: ts,
        details: MarketEventDetails::Place,
    }
}

#[test]
fn verify_tx_extractor_construction() {
    match VybeTradeFillExtractor::new(PHOENIX_ADDRESS) {
        Ok(_txe) => {
            assert!(true);
        }
        Err(err) => {
            println!("{err:?}");
            assert!(false);
        }
    }
}

#[test]
fn malformed_market_address_is_refused() {
    let r = VybeTradeFillExtractor::new("not-a-market-address!");
    assert_eq!(r.unwrap_err(), VybeDaemonError::ParsePubkey);
}

#[test]
fn market_address_decodes_to_its_bytes() {
    // 32 ones in base58 decode to 32 zero bytes.
    let addr = "1".repeat(32);
    let extractor = VybeTradeFillExtractor::new(&addr).unwrap();
    assert_eq!(extractor.market_pubkey.bytes, vec![0u8; 32]);
}

#[test]
fn select_and_order_keeps_only_sorted_fills() {
    let events = vec![
        fill(5, 100, 10, 1),
        place(9, 101),
        fill(2, 99, 20, 2),
        MarketEvent {
            sequence_number: 7,
            timestamp: 70,
            details: MarketEventDetails::Fee,
        },
    ];
    let batch = select_and_order(events);
    assert_eq!(batch.len(), 2);
    assert_eq!(batch[0].sequence_number, 2);
    assert_eq!(batch[1].sequence_number, 5);
    assert!(matches!(batch[0].details, MarketEventDetails::Fill(_)));
    assert!(matches!(batch[1].details, MarketEventDetails::Fill(_)));
}

#[test]
fn select_and_order_is_idempotent() {
    let events = vec![
        fill(9, 10, 1, 1),
        fill(3, 11, 2, 2),
        place(1, 12),
        fill(3, 13, 5, 5),
        fill(2, 14, 7, 7),
    ];
    let once = select_and_order(events);
    let twice = select_and_order(once.clone());
    assert_eq!(once, twice);
}

#[test]
fn select_and_order_of_nothing_is_empty() {
    assert_eq!(select_and_order(Vec::new()).len(), 0);
    assert_eq!(select_and_order(vec![place(1, 10), place(2, 11)]).len(), 0);
}

#[test]
fn stable_sort_keeps_arrival_order_on_equal_sequence_numbers() {
    let first = fill(4, 1, 111, 1);
    let second = fill(4, 2, 222, 2);
    let batch = select_and_order(vec![first, second]);
    assert_eq!(batch.len(), 2);
    assert_eq!(batch[0].timestamp, 1);
    assert_eq!(batch[1].timestamp, 2);
}

#[test]
fn three_identifiers_two_fills_one_place() {
    // Two transactions parse to one fill each (sequence numbers 5 and
    // 2), one parses to a place event: the batch holds exactly the two
    // fills, ascending by sequence number.
    let extractor = VybeTradeFillExtractor::new(PHOENIX_ADDRESS).unwrap();
    let outcomes = vec![
        Ok(Some(vec![fill(5, 100, 1, 1)])),
        Ok(Some(vec![place(9, 100)])),
        Ok(Some(vec![fill(2, 99, 2, 2)])),
    ];
    let got = extractor.extract(outcomes).unwrap().unwrap();
    assert_eq!(got.len(), 2);
    assert_eq!(got[0].sequence_number, 2);
    assert_eq!(got[1].sequence_number, 5);
    assert!(got.iter().all(|e| matches!(e.details, MarketEventDetails::Fill(_))));
}

#[test]
fn extract_of_no_fills_is_none() {
    let extractor = VybeTradeFillExtractor::new(PHOENIX_ADDRESS).unwrap();
    let outcomes = vec![Ok(Some(vec![place(9, 100)])), Ok(None)];
    assert_eq!(extractor.extract(outcomes), Ok(None));
}

#[test]
fn one_failed_parse_fails_the_whole_fetch() {
    let outcomes = vec![
        Ok(Some(vec![fill(1, 5, 1, 1)])),
        Err(VybeDaemonError::SolanaClient("rpc failed".to_string())),
        Ok(Some(vec![fill(2, 6, 1, 1)])),
        Err(VybeDaemonError::TokioJoin("cancelled".to_string())),
    ];
    let r = VybeTradeFillExtractor::extract_fill_events(outcomes);
    // the first failure in completion order wins, and no partial batch survives
    assert_eq!(
        r,
        Err(VybeDaemonError::SolanaClient("rpc failed".to_string()))
    );
}

#[test]
fn malformed_signature_is_dropped_not_fatal() {
    let extractor = VybeTradeFillExtractor::new(PHOENIX_ADDRESS).unwrap();
    let raws = vec![
        "1".repeat(64),
        "not-a-signature".to_string(),
        "1".repeat(64),
    ];
    let parsed = extractor.get_signatures(&raws);
    assert_eq!(parsed.len(), 3);
    assert!(parsed[0].is_some());
    assert!(parsed[1].is_none());
    assert!(parsed[2].is_some());
    // 64 ones in base58 decode to 64 zero bytes
    assert_eq!(parsed[0].as_ref().unwrap().bytes, vec![0u8; 64]);
    let valid = VybeTradeFillExtractor::valid_signatures(parsed);
    assert_eq!(valid.len(), 2);
    assert!(valid.iter().all(|id| id.bytes.len() == 64));
}

#[test]
fn parse_plan_respects_the_ceiling() {
    let ids: Vec<TransactionId> = (0..7u8)
        .map(|i| TransactionId { bytes: vec![i; 64] })
        .collect();
    let plan = plan_parse_batches(ids.clone(), 3);
    assert_eq!(plan.len(), 3);
    assert!(plan.iter().all(|wave| wave.len() <= 3 && !wave.is_empty()));
    let flat: Vec<TransactionId> = plan.into_iter().flatten().collect();
    assert_eq!(flat, ids);
    assert_eq!(plan_parse_batches(ids, 100).len(), 1);
}

#[test]
fn empty_input_plans_no_tasks() {
    assert_eq!(plan_parse_batches(Vec::new(), 100).len(), 0);
}
