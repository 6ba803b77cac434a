//! The trade fill extractor: market address validation, signature
//! discovery, the bounded parsing plan, and the fan-in of parse results.

use vstd::prelude::*;
use crate::error::VybeDaemonError;
use crate::events::{MarketEvent, fills_of};
use crate::order::{sort_events, sorted_by_sequence};

verus! {

/// What the ledger client's signature parser decodes a string to: the
/// 64 signature bytes, or nothing when the string is malformed.
pub uninterp spec fn sig_parse(s: Seq<char>) -> Option<Seq<u8>>;

/// What the ledger client's address parser decodes a string to: the 32
/// account address bytes, or nothing when the string is malformed.
pub uninterp spec fn pubkey_parse(s: Seq<char>) -> Option<Seq<u8>>;

/// Relies on solana_sdk's Signature::from_str: a base58 decode, a
/// function of the string alone, `Ok` exactly when the string decodes
/// to the 64 bytes of one signature.
#[verifier::external_body]
fn parse_signature_str(s: &str) -> (r: Option<Vec<u8>>)
    ensures
        r is Some <==> sig_parse(s@) is Some,
        r is Some ==> r.unwrap()@ == sig_parse(s@).unwrap(),
        r is Some ==> sig_parse(s@).unwrap().len() == 64,
{
    match <solana_sdk::signature::Signature as core::str::FromStr>::from_str(s) {
        Ok(sig) => Some(sig.as_ref().to_vec()),
        Err(_) => None,
    }
}

/// Relies on solana_sdk's Pubkey::try_from on a string: a base58
/// decode, a function of the string alone, `Ok` exactly when the string
/// decodes to the 32 bytes of one account address.
#[verifier::external_body]
fn parse_pubkey_str(s: &str) -> (r: Option<Vec<u8>>)
    ensures
        r is Some <==> pubkey_parse(s@) is Some,
        r is Some ==> r.unwrap()@ == pubkey_parse(s@).unwrap(),
        r is Some ==> pubkey_parse(s@).unwrap().len() == 32,
{
    match <solana_sdk::pubkey::Pubkey as core::convert::TryFrom<&str>>::try_from(s) {
        Ok(key) => Some(key.to_bytes().to_vec()),
        Err(_) => None,
    }
}

/// An opaque identifier of one ledger transaction: its signature bytes.
/// Produced by the Lister, consumed once by the Fetcher.
#[derive(Debug, Clone, PartialEq, Eq)]
pub struct TransactionId {
    /// The 64 bytes of the signature.
    pub bytes: Vec<u8>,
}

impl TransactionId {
    /// Well-formed: exactly the 64 bytes of one signature.
    pub open spec fn wf(self) -> bool {
        self.bytes@.len() == 64
    }
}

/// The account address of the watched market, validated once at
/// construction time and immutable afterwards.
#[derive(Debug, Clone, PartialEq, Eq)]
pub struct MarketAddress {
    /// The 32 bytes of the address.
    pub bytes: Vec<u8>,
}

impl MarketAddress {
    /// Well-formed: exactly the 32 bytes of one account address.
    pub open spec fn wf(self) -> bool {
        self.bytes@.len() == 32
    }
}

/// The identifiers of `s` that parsed, in their original order; the
/// malformed ones leave no trace.
pub open spec fn some_ids(s: Seq<Option<TransactionId>>) -> Seq<TransactionId>
    decreases s.len(),
{
    if s.len() == 0 {
        Seq::empty()
    } else if s.last() is Some {
        some_ids(s.drop_last()).push(s.last().unwrap())
    } else {
        some_ids(s.drop_last())
    }
}

/// The outcome of one parse task: zero or more events, nothing at all,
/// or a fatal failure of the task.
pub type ParseOutcome = Result<Option<Vec<MarketEvent>>, VybeDaemonError>;

/// The events of the parse outcomes, flattened in completion order;
/// outcomes that failed or carried nothing contribute nothing.
pub open spec fn flat_events(results: Seq<ParseOutcome>) -> Seq<MarketEvent>
    decreases results.len(),
{
    if results.len() == 0 {
        Seq::empty()
    } else {
        flat_events(results.drop_last()) + (match results.last() {
            Result::Ok(opt) => match opt {
                Option::Some(v) => v@,
                Option::None => Seq::empty(),
            },
            Result::Err(_) => Seq::empty(),
        })
    }
}

/// Every parse task of the cycle completed without failure.
pub open spec fn all_parses_ok(results: Seq<ParseOutcome>) -> bool {
    forall|i: int| 0 <= i < results.len() ==> (#[trigger] results[i]) is Ok
}

/// Extracts fill events for one market. Holds the validated market
/// address; the remote ledger collaborator hands its answers in as
/// plain values.
#[derive(Debug)]
pub struct VybeTradeFillExtractor {
    /// Address of the watched market.
    pub market_pubkey: MarketAddress,
}

impl VybeTradeFillExtractor {
    /// Well-formed: the market address holds its 32 bytes.
    pub open spec fn wf(self) -> bool {
        self.market_pubkey.wf()
    }

    /// Validates the market address once and builds the extractor.
    /// Fails with `ParsePubkey` exactly when the address is malformed.
    pub fn new(phoenix_addr: &str) -> (r: Result<Self, VybeDaemonError>)
        ensures
            r is Ok <==> pubkey_parse(phoenix_addr@) is Some,
            r is Ok ==> r->Ok_0.market_pubkey.bytes@ == pubkey_parse(phoenix_addr@).unwrap(),
            r is Ok ==> r->Ok_0.wf(),
            r is Err ==> r->Err_0 == VybeDaemonError::ParsePubkey,
    {
        match parse_pubkey_str(phoenix_addr) {
            Option::Some(bytes) => Result::Ok(Self {
                market_pubkey: MarketAddress { bytes },
            }),
            Option::None => Result::Err(VybeDaemonError::ParsePubkey),
        }
    }

    /// The address of the watched market.
    pub fn market_pubkey(&self) -> (r: &MarketAddress)
        ensures
            r == self.market_pubkey,
    {
        &self.market_pubkey
    }

    /// The Lister's parse step. Each raw identifier string the ledger
    /// returned is parsed on its own; a malformed one becomes `None`,
    /// to be dropped, never a failure of the whole call.
    pub fn get_signatures(&self, raws: &Vec<String>) -> (r: Vec<Option<TransactionId>>)
        ensures
            r@.len() == raws@.len(),
            forall|i: int| 0 <= i < raws@.len() ==>
                ((#[trigger] r@[i]) is Some <==> sig_parse(raws@[i]@) is Some),
            forall|i: int| 0 <= i < raws@.len() && r@[i] is Some ==>
                (#[trigger] r@[i]).unwrap().bytes@ == sig_parse(raws@[i]@).unwrap(),
            forall|i: int| 0 <= i < raws@.len() && r@[i] is Some ==>
                (#[trigger] r@[i]).unwrap().wf(),
    {
        let mut out: Vec<Option<TransactionId>> = Vec::new();
        let mut idx: usize = 0;
        while idx < raws.len()
            invariant
                idx <= raws@.len(),
                out@.len() == idx,
                forall|i: int| 0 <= i < idx ==>
                    ((#[trigger] out@[i]) is Some <==> sig_parse(raws@[i]@) is Some),
                forall|i: int| 0 <= i < idx && out@[i] is Some ==>
                    (#[trigger] out@[i]).unwrap().bytes@ == sig_parse(raws@[i]@).unwrap(),
                forall|i: int| 0 <= i < idx && out@[i] is Some ==>
                    (#[trigger] out@[i]).unwrap().wf(),
            decreases raws@.len() - idx,
        {
            let s: &String = &raws[idx];
            match parse_signature_str(s.as_str()) {
                Option::Some(bytes) => out.push(Option::Some(TransactionId { bytes })),
                Option::None => out.push(Option::None),
            }
            idx += 1;
        }
        out
    }

    /// Keeps the identifiers that parsed, dropping the malformed ones.
    pub fn valid_signatures(ids: Vec<Option<TransactionId>>) -> (r: Vec<TransactionId>)
        ensures
            r@ == some_ids(ids@),
    {
        let ghost orig = ids@;
        let mut ids = ids;
        let mut out: Vec<TransactionId> = Vec::new();
        let ghost mut idx: int = 0;
        while ids.len() > 0
            invariant
                0 <= idx,
                idx + ids@.len() == orig.len(),
                ids@ == orig.skip(idx),
                out@ == some_ids(orig.take(idx)),
            decreases ids@.len(),
        {
            let item = ids.remove(0);
            proof {
                assert(item == orig[idx]);
                assert(orig.take(idx + 1).drop_last() =~= orig.take(idx));
                assert(orig.take(idx + 1).last() == orig[idx]);
                assert(ids@ =~= orig.skip(idx + 1));
            }
            match item {
                Option::Some(id) => out.push(id),
                Option::None => {},
            }
            proof {
                idx = idx + 1;
            }
        }
        proof {
            assert(orig.take(idx) =~= orig);
        }
        out
    }

    /// Fan-in of the cycle's parse tasks, drained in completion order.
    /// Keeps the fill events of every successful outcome; the first
    /// failed task fails the whole call, all or nothing: no partial
    /// batch survives a failure.
    #[verifier::loop_isolation(false)]
    pub fn extract_fill_events(results: Vec<ParseOutcome>) -> (r: Result<
        Vec<MarketEvent>,
        VybeDaemonError,
    >)
        ensures
            r is Ok <==> all_parses_ok(results@),
            r is Ok ==> r->Ok_0@ == fills_of(flat_events(results@)),
            r is Err ==> exists|k: int|
                0 <= k < results@.len() && (#[trigger] results@[k]) is Err && (forall|i: int|
                    0 <= i < k ==> results@[i] is Ok) && r->Err_0 == results@[k]->Err_0,
    {
        let ghost orig = results@;
        let mut results = results;
        let mut fill_events: Vec<MarketEvent> = Vec::new();
        let ghost mut idx: int = 0;
        while results.len() > 0
            invariant
                0 <= idx,
                idx + results@.len() == orig.len(),
                results@ == orig.skip(idx),
                forall|i: int| 0 <= i < idx ==> (#[trigger] orig[i]) is Ok,
                fill_events@ == fills_of(flat_events(orig.take(idx))),
            decreases results@.len(),
        {
            let item = results.remove(0);
            proof {
                assert(item == orig[idx]);
                assert(orig.take(idx + 1).drop_last() =~= orig.take(idx));
                assert(orig.take(idx + 1).last() == orig[idx]);
                assert(results@ =~= orig.skip(idx + 1));
            }
            match item {
                Result::Ok(opt) => {
                    match opt {
                        Option::Some(events) => {
                            let mut fs = crate::order::filter_fill_events(&events);
                            proof {
                                broadcast use vstd::seq_lib::group_seq_lib_default;

                                assert(flat_events(orig.take(idx + 1)) == flat_events(
                                    orig.take(idx),
                                ) + events@);
                            }
                            fill_events.append(&mut fs);
                        },
                        Option::None => {
                            proof {
                                assert(flat_events(orig.take(idx + 1)) =~= flat_events(
                                    orig.take(idx),
                                ));
                            }
                        },
                    }
                },
                Result::Err(e) => {
                    proof {
                        assert(0 <= idx < orig.len());
                        assert(orig[idx] is Err);
                        assert(e == orig[idx]->Err_0);
                        assert(forall|i: int| 0 <= i < idx ==> orig[i] is Ok);
                        assert(exists|k: int|
                            0 <= k < orig.len() && (#[trigger] orig[k]) is Err && (forall|i: int|
                                0 <= i < k ==> orig[i] is Ok) && e == orig[k]->Err_0);
                        assert(!all_parses_ok(orig));
                    }
                    return Result::Err(e);
                },
            }
            proof {
                idx = idx + 1;
            }
        }
        proof {
            assert(orig.take(idx) =~= orig);
        }
        Result::Ok(fill_events)
    }

    /// Extracts the ordered fill events of one cycle from the parse
    /// outcomes. `Ok(None)` stands for a cycle in which nothing
    /// survived filtering; otherwise the fills come back ascending by
    /// sequence number. A single failed parse task fails the whole
    /// cycle's extraction.
    pub fn extract(&self, results: Vec<ParseOutcome>) -> (r: Result<
        Option<Vec<MarketEvent>>,
        VybeDaemonError,
    >)
        ensures
            r is Ok <==> all_parses_ok(results@),
            r is Ok ==> (r->Ok_0 is None <==> fills_of(flat_events(results@)).len() == 0),
            r is Ok && r->Ok_0 is Some ==> r->Ok_0.unwrap()@ == sort_events(
                fills_of(flat_events(results@)),
            ),
            r is Ok && r->Ok_0 is Some ==> sorted_by_sequence(r->Ok_0.unwrap()@),
            r is Err ==> exists|k: int|
                0 <= k < results@.len() && (#[trigger] results@[k]) is Err && (forall|i: int|
                    0 <= i < k ==> results@[i] is Ok) && r->Err_0 == results@[k]->Err_0,
    {
        match Self::extract_fill_events(results) {
            Result::Ok(fill_events) => {
                if fill_events.len() == 0 {
                    Result::Ok(Option::None)
                } else if fill_events.len() > 1 {
                    let sorted = crate::order::sort_by_sequence_number(fill_events);
                    Result::Ok(Option::Some(sorted))
                } else {
                    proof {
                        assert(fill_events@.drop_last() =~= Seq::<MarketEvent>::empty());
                        assert(sort_events(fill_events@.drop_last()) =~= Seq::<
                            MarketEvent,
                        >::empty());
                        assert(sort_events(fill_events@) =~= fill_events@);
                        assert(sorted_by_sequence(fill_events@));
                    }
                    Result::Ok(Option::Some(fill_events))
                }
            },
            Result::Err(e) => Result::Err(e),
        }
    }
}

/// The identifiers of `batches`, flattened in wave order.
pub open spec fn flat_ids(batches: Seq<Vec<TransactionId>>) -> Seq<TransactionId>
    decreases batches.len(),
{
    if batches.len() == 0 {
        Seq::empty()
    } else {
        flat_ids(batches.drop_last()) + batches.last()@
    }
}

/// Plans the cycle's parse tasks in waves: every identifier is
/// scheduled exactly once, no wave holds more than `ceiling` tasks, so
/// at no instant are more than `ceiling` parse operations in flight,
/// and the number of waves is the least possible. An empty input plans
/// no wave at all.
#[verifier::loop_isolation(false)]
pub fn plan_parse_batches(ids: Vec<TransactionId>, ceiling: usize) -> (r: Vec<Vec<TransactionId>>)
    requires
        ceiling >= 1,
    ensures
        flat_ids(r@) == ids@,
        forall|i: int| 0 <= i < r@.len() ==> (#[trigger] r@[i])@.len() <= ceiling,
        forall|i: int| 0 <= i < r@.len() ==> (#[trigger] r@[i])@.len() >= 1,
        ids@.len() == 0 ==> r@.len() == 0,
        r@.len() == (ids@.len() + ceiling - 1) / (ceiling as int),
{
    let ghost n = ids@.len() as int;
    let ghost c = ceiling as int;
    let mut remaining = ids;
    let mut batches: Vec<Vec<TransactionId>> = Vec::new();
    proof {
        assert(flat_ids(batches@) + remaining@ =~= ids@);
    }
    while remaining.len() > ceiling
        invariant
            flat_ids(batches@) + remaining@ == ids@,
            batches@.len() * c == n - remaining@.len(),
            forall|i: int| 0 <= i < batches@.len() ==> (#[trigger] batches@[i])@.len() == ceiling,
        decreases remaining@.len(),
    {
        let ghost b0 = batches@;
        let ghost rem0 = remaining@;
        let rest = remaining.split_off(ceiling);
        let ghost first = remaining@;
        batches.push(remaining);
        remaining = rest;
        proof {
            assert(batches@.drop_last() =~= b0);
            assert(batches@.last()@ == first);
            assert(flat_ids(batches@) == flat_ids(b0) + first);
            assert(first + remaining@ =~= rem0);
            assert(flat_ids(batches@) + remaining@ =~= ids@);
            assert((b0.len() + 1) * c == b0.len() * c + c) by (nonlinear_arith);
        }
    }
    let ghost bfull = batches@.len() as int;
    if remaining.len() > 0 {
        let ghost b0 = batches@;
        let ghost rem0 = remaining@;
        let ghost r0 = remaining@.len() as int;
        batches.push(remaining);
        proof {
            assert(batches@.drop_last() =~= b0);
            assert(batches@.last()@ == rem0);
            assert(flat_ids(batches@) == flat_ids(b0) + rem0);
            assert(flat_ids(batches@) =~= ids@);
            assert((bfull + 1) * c == bfull * c + c) by (nonlinear_arith);
            vstd::arithmetic::div_mod::lemma_fundamental_div_mod_converse(
                n + c - 1,
                c,
                bfull + 1,
                r0 - 1,
            );
        }
    } else {
        proof {
            assert(remaining@.len() == 0);
            assert(flat_ids(batches@) + remaining@ =~= flat_ids(batches@));
            assert(flat_ids(batches@) =~= ids@);
            vstd::arithmetic::div_mod::lemma_fundamental_div_mod_converse(
                n + c - 1,
                c,
                bfull,
                c - 1,
            );
        }
    }
    batches
}

} // verus!
