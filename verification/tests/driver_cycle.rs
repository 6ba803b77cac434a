//! The driver state machine over full cycles.

use vn_extractord_core::driver::{DriverAction, DriverEvent, DriverState, VybeDaemon};
use vn_extractord_core::error::{VybeDaemonError, VybeDatabaseError};
use vn_extractord_core::events::{FillDetails, MarketEvent, MarketEventDetails};
use vn_extractord_core::extractor::TransactionId;
use vn_extractord_core::models::TradeFill;

const PHOENIX_ADDRESS: &str = "PhoeNiXZ8ByJGLkxNfZRnkUfjvmuYqLR89jjFHGqdXY";

fn fill(seq: u64, ts: i64, price: u64, lots: u64) -> MarketEvent {
    MarketEvent {
        sequence_number: seq,
        timestamp: ts,
        details: MarketEventDetails::Fill(FillDetails {
            price_in_ticks: price,
            base_lots_filled: lots,
        }),
    }
}

fn stored(id: i32, ts: i64) -> TradeFill {
    TradeFill {
        id,
        event_timestamp: ts,
        price_in_ticks: 1,
        base_lots_filled: 1,
    }
}

#[test]
fn full_cycle_with_short_window_and_one_insert_failure() {
    // Three identifiers instead of the expected window of 1000: the
    // cycle still runs in full, a warning flag is the only difference.
    // The first of three inserts fails: all three are still attempted.
    let mut daemon = VybeDaemon::new(PHOENIX_ADDRESS).unwrap();
    let ids: Vec<Option<TransactionId>> = (0..3u8)
        .map(|i| Some(TransactionId { bytes: vec![i; 64] }))
        .collect();
    let action = daemon.step(DriverEvent::Listed(Ok(ids)));
    let DriverAction::Parse { ids: valid, warn_short } = action else {
        panic!("expected a parse action");
    };
    assert_eq!(valid.len(), 3);
    assert!(warn_short);

    let outcomes = vec![
        Ok(Some(vec![fill(30, 300, 3, 3)])),
        Ok(Some(vec![fill(10, 100, 1, 1)])),
        Ok(Some(vec![fill(20, 200, 2, 2)])),
    ];
    let action = daemon.step(DriverEvent::Parsed(outcomes));
    let DriverAction::Insert(first) = action else {
        panic!("expected the first insert");
    };
    assert_eq!(first.event_timestamp, 100);

    let action = daemon.step(DriverEvent::Inserted(Err(VybeDatabaseError::Diesel(
        "insert failed".to_string(),
    ))));
    let DriverAction::Insert(second) = action else {
        panic!("expected the second insert after a failed one");
    };
    assert_eq!(second.event_timestamp, 200);

    let action = daemon.step(DriverEvent::Inserted(Ok(stored(1, 200))));
    let DriverAction::Insert(third) = action else {
        panic!("expected the third insert");
    };
    assert_eq!(third.event_timestamp, 300);

    let action = daemon.step(DriverEvent::Inserted(Ok(stored(2, 300))));
    assert_eq!(action, DriverAction::Sleep);
    let action = daemon.step(DriverEvent::Slept);
    assert_eq!(action, DriverAction::List);
    assert_eq!(daemon.state, DriverState::Listing);
}

#[test]
fn listing_transport_failure_halts_the_loop() {
    let mut daemon = VybeDaemon::new(PHOENIX_ADDRESS).unwrap();
    let action = daemon.step(DriverEvent::Listed(Err(VybeDaemonError::SolanaClient(
        "rpc failure".to_string(),
    ))));
    assert_eq!(
        action,
        DriverAction::Halt(VybeDaemonError::SolanaClient("rpc failure".to_string()))
    );
    assert_eq!(daemon.state, DriverState::Halted);
}

#[test]
fn failed_parse_task_halts_without_persisting() {
    let mut daemon = VybeDaemon::new(PHOENIX_ADDRESS).unwrap();
    let ids = vec![Some(TransactionId { bytes: vec![0u8; 64] })];
    let action = daemon.step(DriverEvent::Listed(Ok(ids)));
    assert!(matches!(action, DriverAction::Parse { .. }));
    let outcomes = vec![
        Ok(Some(vec![fill(1, 1, 1, 1)])),
        Err(VybeDaemonError::TokioJoin("task cancelled".to_string())),
    ];
    let action = daemon.step(DriverEvent::Parsed(outcomes));
    assert_eq!(
        action,
        DriverAction::Halt(VybeDaemonError::TokioJoin("task cancelled".to_string()))
    );
    assert_eq!(daemon.state, DriverState::Halted);
}

#[test]
fn empty_cycle_skips_persisting() {
    let mut daemon = VybeDaemon::new(PHOENIX_ADDRESS).unwrap();
    let ids = vec![Some(TransactionId { bytes: vec![0u8; 64] })];
    daemon.step(DriverEvent::Listed(Ok(ids)));
    let outcomes = vec![
        Ok(None),
        Ok(Some(vec![MarketEvent {
            sequence_number: 9,
            timestamp: 9,
            details: MarketEventDetails::Place,
        }])),
    ];
    let action = daemon.step(DriverEvent::Parsed(outcomes));
    assert_eq!(action, DriverAction::Sleep);
    assert_eq!(daemon.state, DriverState::Sleeping);
}

#[test]
fn malformed_address_fails_daemon_construction() {
    let r = VybeDaemon::new("");
    assert_eq!(r.unwrap_err(), VybeDaemonError::ParsePubkey);
}
