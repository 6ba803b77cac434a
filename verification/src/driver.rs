//! The extraction cycle driver.
//!
//! One cycle runs Listing, Fetching, Filtering, Persisting, Sleeping
//! and starts over, forever; the only terminal transition is a fatal
//! error raised by Listing or Fetching. The decisions all stand here as
//! a state machine: the surrounding process performs each action it is
//! handed (the remote list, the bounded parse, one insert, one sleep)
//! and hands the outcome back as the next event.

use vstd::prelude::*;
use crate::error::{VybeDaemonError, VybeDatabaseError};
use crate::events::{fills_of, MarketEvent};
use crate::extractor::{
    all_parses_ok, flat_events, pubkey_parse, some_ids, ParseOutcome, TransactionId,
    VybeTradeFillExtractor,
};
use crate::models::{record_of, NewTradeFill, TradeFill};
use crate::order::{all_fills, lemma_sort_preserves_all_fills, sort_by_sequence_number, sort_events};
use crate::NUM_EXPECTED_TRANSACTIONS;

verus! {

/// The records one cycle's fill events become, in batch order.
pub open spec fn records_of(s: Seq<MarketEvent>) -> Seq<NewTradeFill> {
    s.map_values(|e: MarketEvent| record_of(e))
}

/// The ordered batch of records one cycle persists, given its parse
/// outcomes: the fill events, ascending by sequence number, converted.
pub open spec fn cycle_records(results: Seq<ParseOutcome>) -> Seq<NewTradeFill> {
    records_of(sort_events(fills_of(flat_events(results))))
}

/// Where the cycle stands.
#[derive(Debug, PartialEq, Eq)]
pub enum DriverState {
    /// About to ask the ledger for the recent window of identifiers.
    Listing,
    /// Waiting for the cycle's parse tasks to complete.
    Fetching,
    /// Handing the batch to storage one record at a time; `next` counts
    /// the records already handed out, the last of them still running.
    Persisting {
        /// The cycle's ordered batch.
        batch: Vec<NewTradeFill>,
        /// How many records of the batch were handed to storage so far.
        next: usize,
    },
    /// Waiting out the poll interval.
    Sleeping,
    /// A fatal error ended the loop.
    Halted,
}

/// What the surrounding process reports back to the driver.
#[derive(Debug, PartialEq, Eq)]
pub enum DriverEvent {
    /// The Lister's answer: the per-identifier parse outcomes, or the
    /// transport failure of the listing call.
    Listed(Result<Vec<Option<TransactionId>>, VybeDaemonError>),
    /// Every parse task's outcome, in completion order.
    Parsed(Vec<ParseOutcome>),
    /// The outcome of the one insert that was running.
    Inserted(Result<TradeFill, VybeDatabaseError>),
    /// The poll interval elapsed.
    Slept,
}

/// What the surrounding process must do next.
#[derive(Debug, PartialEq, Eq)]
pub enum DriverAction {
    /// Ask the ledger for the most recent window of identifiers.
    List,
    /// Run one parse task per identifier, never more than the ceiling
    /// of them in flight at once. `warn_short` asks for a warning that
    /// the ledger returned fewer identifiers than the window size; the
    /// cycle goes on regardless.
    Parse {
        /// The identifiers to parse, one task each.
        ids: Vec<TransactionId>,
        /// Warn that the window came back short; nothing else changes.
        warn_short: bool,
    },
    /// Hand one record to storage.
    Insert(NewTradeFill),
    /// Sleep for the poll interval.
    Sleep,
    /// Stop the loop and surface the fatal error to the caller.
    Halt(VybeDaemonError),
}

impl DriverState {
    /// Which events may answer this state. A halted driver accepts
    /// nothing: the loop has ended.
    pub open spec fn accepts(self, event: DriverEvent) -> bool {
        match self {
            DriverState::Listing => event is Listed,
            DriverState::Fetching => event is Parsed,
            DriverState::Persisting { .. } => event is Inserted,
            DriverState::Sleeping => event is Slept,
            DriverState::Halted => false,
        }
    }

    /// Internal consistency: while persisting, at least one record was
    /// handed out and never more than the batch holds.
    pub open spec fn wf(self) -> bool {
        match self {
            DriverState::Persisting { batch, next } => 1 <= next <= batch@.len(),
            _ => true,
        }
    }
}

/// The daemon: the verified extractor for one market and the state of
/// the polling loop that drives it.
#[derive(Debug)]
pub struct VybeDaemon {
    /// Extractor for the watched market.
    pub trade_fill_extractor: VybeTradeFillExtractor,
    /// Where the cycle stands.
    pub state: DriverState,
}

impl VybeDaemon {
    /// Well-formed: the market address is valid and the cycle state is
    /// internally consistent.
    pub open spec fn wf(self) -> bool {
        self.trade_fill_extractor.wf() && self.state.wf()
    }

    /// Builds the daemon: validates the market address once and stands
    /// at the start of the first cycle. Fails with `ParsePubkey`
    /// exactly when the address is malformed.
    pub fn new(phoenix_addr: &str) -> (r: Result<Self, VybeDaemonError>)
        ensures
            r is Ok <==> pubkey_parse(phoenix_addr@) is Some,
            r is Ok ==> r->Ok_0.wf() && r->Ok_0.state is Listing,
            r is Err ==> r->Err_0 == VybeDaemonError::ParsePubkey,
    {
        match VybeTradeFillExtractor::new(phoenix_addr) {
            Result::Ok(extractor) => Result::Ok(VybeDaemon {
                trade_fill_extractor: extractor,
                state: DriverState::Listing,
            }),
            Result::Err(e) => Result::Err(e),
        }
    }

    /// One decision of the polling loop: takes the outcome of the
    /// action that was running and says what to do next.
    ///
    /// A transport failure of Listing, or any failed parse task of
    /// Fetching, halts the loop with that error and persists nothing of
    /// the cycle. A failed insert is not fatal: every record of the
    /// batch is handed to storage exactly once whatever became of the
    /// records before it. A short listing window changes nothing but
    /// the warning.
    pub fn step(&mut self, event: DriverEvent) -> (action: DriverAction)
        requires
            old(self).wf(),
            old(self).state.accepts(event),
        ensures
            final(self).wf(),
            final(self).trade_fill_extractor == old(self).trade_fill_extractor,
            action is Halt <==> final(self).state is Halted,
            // Listing: a transport failure is fatal.
            event matches DriverEvent::Listed(res) ==> (res is Err ==> final(self).state
                is Halted && action == DriverAction::Halt(res->Err_0)),
            // Listing: the valid identifiers go on to Fetching; a short
            // window only warns.
            event matches DriverEvent::Listed(res) ==> (res is Ok ==> final(self).state
                is Fetching && (action matches DriverAction::Parse { ids, warn_short }
                && ids@ == some_ids(res->Ok_0@)
                && warn_short == (res->Ok_0@.len() < NUM_EXPECTED_TRANSACTIONS))),
            // Fetching: one failed parse task halts the loop with the
            // first failure; no record of the cycle is persisted.
            event matches DriverEvent::Parsed(results) ==> (!all_parses_ok(results@)
                ==> final(self).state is Halted && !(action is Insert) && (exists|k: int|
                    0 <= k < results@.len() && (#[trigger] results@[k]) is Err && (forall|i: int|
                        0 <= i < k ==> results@[i] is Ok) && action == DriverAction::Halt(
                        results@[k]->Err_0,
                    ))),
            // Fetching: nothing survived filtering; skip Persisting.
            event matches DriverEvent::Parsed(results) ==> (all_parses_ok(results@)
                && cycle_records(results@).len() == 0 ==> final(self).state is Sleeping
                && action is Sleep),
            // Fetching: the ordered batch goes to Persisting, first
            // record first.
            event matches DriverEvent::Parsed(results) ==> (all_parses_ok(results@)
                && cycle_records(results@).len() > 0 ==> (final(self).state matches
                DriverState::Persisting { batch, next } && batch@ == cycle_records(results@)
                && next == 1 && action == DriverAction::Insert(cycle_records(results@)[0]))),
            // Persisting: whatever became of the last insert, the next
            // record goes out, or the cycle sleeps when none is left.
            event is Inserted ==> (old(self).state matches DriverState::Persisting {
                batch,
                next,
            } ==> (next < batch@.len() ==> (final(self).state matches DriverState::Persisting {
                batch: b2,
                next: n2,
            } && b2@ == batch@ && n2 == next + 1 && action == DriverAction::Insert(
                batch@[next as int],
            )))),
            event is Inserted ==> (old(self).state matches DriverState::Persisting {
                batch,
                next,
            } ==> (next == batch@.len() ==> final(self).state is Sleeping && action is Sleep)),
            // Sleeping: the next cycle begins with a fresh listing.
            event is Slept ==> final(self).state is Listing && action is List,
    {
        let mut state = DriverState::Listing;
        core::mem::swap(&mut state, &mut self.state);
        match event {
            DriverEvent::Listed(res) => {
                match res {
                    Result::Err(e) => {
                        self.state = DriverState::Halted;
                        DriverAction::Halt(e)
                    },
                    Result::Ok(ids) => {
                        let warn_short = ids.len() < NUM_EXPECTED_TRANSACTIONS;
                        let valid = VybeTradeFillExtractor::valid_signatures(ids);
                        self.state = DriverState::Fetching;
                        DriverAction::Parse { ids: valid, warn_short }
                    },
                }
            },
            DriverEvent::Parsed(results) => {
                let ghost results_view = results@;
                match VybeTradeFillExtractor::extract_fill_events(results) {
                    Result::Err(e) => {
                        self.state = DriverState::Halted;
                        DriverAction::Halt(e)
                    },
                    Result::Ok(fill_events) => {
                        if fill_events.len() == 0 {
                            proof {
                                assert(cycle_records(results_view).len() == 0);
                            }
                            self.state = DriverState::Sleeping;
                            DriverAction::Sleep
                        } else {
                            let sorted = sort_by_sequence_number(fill_events);
                            proof {
                                broadcast use vstd::seq_lib::group_filter_ensures;

                                assert(all_fills(fills_of(flat_events(results_view))));
                                lemma_sort_preserves_all_fills(
                                    fills_of(flat_events(results_view)),
                                );
                            }
                            let mut batch: Vec<NewTradeFill> = Vec::new();
                            let mut i: usize = 0;
                            while i < sorted.len()
                                invariant
                                    i <= sorted@.len(),
                                    all_fills(sorted@),
                                    batch@ == records_of(sorted@.take(i as int)),
                                decreases sorted@.len() - i,
                            {
                                let e = sorted[i];
                                let rec = NewTradeFill::try_from(e).unwrap();
                                proof {
                                    assert(sorted@.take(i + 1) =~= sorted@.take(
                                        i as int,
                                    ).push(sorted@[i as int]));
                                    assert(records_of(sorted@.take(i + 1)) =~= records_of(
                                        sorted@.take(i as int),
                                    ).push(record_of(sorted@[i as int])));
                                }
                                batch.push(rec);
                                i += 1;
                            }
                            proof {
                                assert(sorted@.take(sorted@.len() as int) =~= sorted@);
                            }
                            let first = batch[0];
                            self.state = DriverState::Persisting { batch, next: 1 };
                            DriverAction::Insert(first)
                        }
                    },
                }
            },
            DriverEvent::Inserted(_res) => {
                match state {
                    DriverState::Persisting { batch, next } => {
                        if next < batch.len() {
                            let rec = batch[next];
                            self.state = DriverState::Persisting { batch, next: next + 1 };
                            DriverAction::Insert(rec)
                        } else {
                            self.state = DriverState::Sleeping;
                            DriverAction::Sleep
                        }
                    },
                    _ => {
                        // an insert outcome only ever answers Persisting
                        proof {
                            assert(false);
                        }
                        DriverAction::Sleep
                    },
                }
            },
            DriverEvent::Slept => {
                self.state = DriverState::Listing;
                DriverAction::List
            },
        }
    }
}

} // verus!
