//! Event filtering and intra-batch ordering.
//!
//! One cycle's batch keeps only fill events and orders them ascending by
//! sequence number with a stable sort: events with equal sequence numbers
//! keep their relative order of arrival.

use vstd::prelude::*;
use crate::events::{MarketEvent, fills_of, is_market_fill_event};

verus! {

/// Sequence numbers are non-decreasing along `s`.
pub open spec fn sorted_by_sequence(s: Seq<MarketEvent>) -> bool {
    forall|i: int, j: int|
        0 <= i < j < s.len() ==> s[i].sequence_number <= s[j].sequence_number
}

/// Every event of `s` is a fill.
pub open spec fn all_fills(s: Seq<MarketEvent>) -> bool {
    forall|i: int| 0 <= i < s.len() ==> (#[trigger] s[i]).is_fill()
}

/// Stable insertion of `x` into `s`: `x` comes to stand after every
/// element whose sequence number is at most `x`'s own.
pub open spec fn insert_ord(s: Seq<MarketEvent>, x: MarketEvent) -> Seq<MarketEvent>
    decreases s.len(),
{
    if s.len() == 0 {
        seq![x]
    } else if s.last().sequence_number <= x.sequence_number {
        s.push(x)
    } else {
        insert_ord(s.drop_last(), x).push(s.last())
    }
}

/// Stable insertion sort of `s`, ascending by sequence number.
pub open spec fn sort_events(s: Seq<MarketEvent>) -> Seq<MarketEvent>
    decreases s.len(),
{
    if s.len() == 0 {
        Seq::empty()
    } else {
        insert_ord(sort_events(s.drop_last()), s.last())
    }
}

proof fn lemma_insert_ord_len(s: Seq<MarketEvent>, x: MarketEvent)
    ensures
        insert_ord(s, x).len() == s.len() + 1,
    decreases s.len(),
{
    if s.len() == 0 {
    } else if s.last().sequence_number <= x.sequence_number {
    } else {
        lemma_insert_ord_len(s.drop_last(), x);
    }
}

proof fn lemma_insert_ord_multiset(s: Seq<MarketEvent>, x: MarketEvent)
    ensures
        insert_ord(s, x).to_multiset() == s.to_multiset().insert(x),
    decreases s.len(),
{
    broadcast use vstd::seq_lib::group_to_multiset_ensures;
    if s.len() == 0 {
        assert(seq![x] =~= Seq::<MarketEvent>::empty().push(x));
        assert(s =~= Seq::<MarketEvent>::empty());
        assert(insert_ord(s, x).to_multiset() =~= s.to_multiset().insert(x));
    } else if s.last().sequence_number <= x.sequence_number {
        assert(insert_ord(s, x).to_multiset() =~= s.to_multiset().insert(x));
    } else {
        lemma_insert_ord_multiset(s.drop_last(), x);
        assert(s.drop_last().push(s.last()) =~= s);
        assert(insert_ord(s, x).to_multiset() =~= s.to_multiset().insert(x));
    }
}

proof fn lemma_insert_ord_sorted(s: Seq<MarketEvent>, x: MarketEvent)
    requires
        sorted_by_sequence(s),
    ensures
        sorted_by_sequence(insert_ord(s, x)),
    decreases s.len(),
{
    broadcast use vstd::seq_lib::group_to_multiset_ensures;
    let r = insert_ord(s, x);
    if s.len() == 0 {
        assert(sorted_by_sequence(r));
    } else if s.last().sequence_number <= x.sequence_number {
        assert forall|i: int, j: int| 0 <= i < j < r.len() implies
            r[i].sequence_number <= r[j].sequence_number by {
            if j < s.len() {
            } else {
                assert(r[j] == x);
                assert(r[i] == s[i]);
                assert(s[i].sequence_number <= s.last().sequence_number);
            }
        }
    } else {
        assert(sorted_by_sequence(s.drop_last()));
        lemma_insert_ord_sorted(s.drop_last(), x);
        lemma_insert_ord_multiset(s.drop_last(), x);
        lemma_insert_ord_len(s.drop_last(), x);
        let t = insert_ord(s.drop_last(), x);
        assert forall|i: int| 0 <= i < t.len() implies
            t[i].sequence_number <= s.last().sequence_number by {
            let e = t[i];
            assert(t.contains(e));
            assert(s.drop_last().to_multiset().insert(x).count(e) > 0);
            if e != x {
                assert(s.drop_last().to_multiset().count(e) > 0);
                assert(s.drop_last().contains(e));
                let k = choose|k: int| 0 <= k < s.drop_last().len() && s.drop_last()[k] == e;
                assert(s[k] == e);
                assert(s[k].sequence_number <= s.last().sequence_number);
            }
        }
        assert forall|i: int, j: int| 0 <= i < j < r.len() implies
            r[i].sequence_number <= r[j].sequence_number by {
            if j < t.len() {
            } else {
                assert(r[j] == s.last());
                assert(r[i] == t[i]);
            }
        }
    }
}

proof fn lemma_sort_events_len(s: Seq<MarketEvent>)
    ensures
        sort_events(s).len() == s.len(),
    decreases s.len(),
{
    if s.len() == 0 {
    } else {
        lemma_sort_events_len(s.drop_last());
        lemma_insert_ord_len(sort_events(s.drop_last()), s.last());
    }
}

proof fn lemma_sort_events_sorted(s: Seq<MarketEvent>)
    ensures
        sorted_by_sequence(sort_events(s)),
    decreases s.len(),
{
    if s.len() == 0 {
    } else {
        lemma_sort_events_sorted(s.drop_last());
        lemma_insert_ord_sorted(sort_events(s.drop_last()), s.last());
    }
}

proof fn lemma_sort_events_multiset(s: Seq<MarketEvent>)
    ensures
        sort_events(s).to_multiset() == s.to_multiset(),
    decreases s.len(),
{
    broadcast use vstd::seq_lib::group_to_multiset_ensures;
    if s.len() == 0 {
        assert(sort_events(s).to_multiset() =~= s.to_multiset());
    } else {
        lemma_sort_events_multiset(s.drop_last());
        lemma_insert_ord_multiset(sort_events(s.drop_last()), s.last());
        assert(s.drop_last().push(s.last()) =~= s);
        assert(sort_events(s).to_multiset() =~= s.to_multiset());
    }
}

pub(crate) proof fn lemma_sort_preserves_all_fills(s: Seq<MarketEvent>)
    requires
        all_fills(s),
    ensures
        all_fills(sort_events(s)),
{
    broadcast use vstd::seq_lib::group_to_multiset_ensures;
    lemma_sort_events_multiset(s);
    let r = sort_events(s);
    assert forall|i: int| 0 <= i < r.len() implies (#[trigger] r[i]).is_fill() by {
        assert(r.contains(r[i]));
        assert(s.to_multiset().count(r[i]) > 0);
        assert(s.contains(r[i]));
        let k = choose|k: int| 0 <= k < s.len() && s[k] == r[i];
        assert(s[k].is_fill());
    }
}

proof fn lemma_fills_of_push(s: Seq<MarketEvent>, e: MarketEvent)
    ensures
        fills_of(s.push(e)) == (if e.is_fill() {
            fills_of(s).push(e)
        } else {
            fills_of(s)
        }),
{
    reveal(Seq::filter);
    let t = s.push(e);
    assert(t.drop_last() =~= s);
    assert(t.last() == e);
}

proof fn lemma_fills_of_all_id(s: Seq<MarketEvent>)
    requires
        all_fills(s),
    ensures
        fills_of(s) == s,
    decreases s.len(),
{
    reveal(Seq::filter);
    if s.len() == 0 {
        assert(fills_of(s) =~= s);
    } else {
        assert(all_fills(s.drop_last()));
        lemma_fills_of_all_id(s.drop_last());
        assert(s.last().is_fill());
        assert(s.drop_last().push(s.last()) =~= s);
    }
}

proof fn lemma_sort_sorted_id(s: Seq<MarketEvent>)
    requires
        sorted_by_sequence(s),
    ensures
        sort_events(s) == s,
    decreases s.len(),
{
    if s.len() == 0 {
        assert(sort_events(s) =~= s);
    } else {
        assert(sorted_by_sequence(s.drop_last()));
        lemma_sort_sorted_id(s.drop_last());
        if s.len() == 1 {
            assert(seq![s.last()] =~= s);
        } else {
            assert(s.drop_last().last() == s[s.len() - 2]);
            assert(s.drop_last().last().sequence_number <= s.last().sequence_number);
            assert(s.drop_last().push(s.last()) =~= s);
        }
    }
}

/// Filtering and ordering is idempotent: applied to its own output, it
/// hands that output back unchanged.
pub proof fn lemma_select_and_order_idempotent(events: Seq<MarketEvent>)
    ensures
        sort_events(fills_of(sort_events(fills_of(events))))
            == sort_events(fills_of(events)),
{
    broadcast use vstd::seq_lib::group_filter_ensures;
    let f = fills_of(events);
    let r = sort_events(f);
    assert(all_fills(f));
    lemma_sort_preserves_all_fills(f);
    lemma_fills_of_all_id(r);
    lemma_sort_events_sorted(f);
    lemma_sort_sorted_id(r);
}

/// The fill events of `events`, in their original relative order.
pub(crate) fn filter_fill_events(events: &Vec<MarketEvent>) -> (r: Vec<MarketEvent>)
    ensures
        r@ == fills_of(events@),
{
    let mut fills: Vec<MarketEvent> = Vec::new();
    proof {
        reveal(Seq::filter);
        assert(events@.take(0) =~= Seq::<MarketEvent>::empty());
        assert(fills@ == fills_of(events@.take(0)));
    }
    let mut idx: usize = 0;
    while idx < events.len()
        invariant
            idx <= events@.len(),
            fills@ == fills_of(events@.take(idx as int)),
        decreases events@.len() - idx,
    {
        let e = events[idx];
        proof {
            assert(events@.take(idx + 1) =~= events@.take(idx as int).push(events@[idx as int]));
            lemma_fills_of_push(events@.take(idx as int), events@[idx as int]);
        }
        if is_market_fill_event(&e.details) {
            fills.push(e);
        }
        idx += 1;
    }
    proof {
        assert(events@.take(events@.len() as int) =~= events@);
    }
    fills
}

proof fn lemma_insert_ord_at(s: Seq<MarketEvent>, x: MarketEvent, j: int)
    requires
        0 <= j <= s.len(),
        forall|m: int| j <= m < s.len() ==> s[m].sequence_number > x.sequence_number,
        j > 0 ==> s[j - 1].sequence_number <= x.sequence_number,
    ensures
        insert_ord(s, x) == s.insert(j, x),
    decreases s.len(),
{
    if s.len() == 0 {
        assert(insert_ord(s, x) =~= s.insert(0, x));
    } else if s.last().sequence_number <= x.sequence_number {
        assert(j == s.len());
        assert(s.push(x) =~= s.insert(j, x));
    } else {
        assert(j < s.len());
        assert(forall|m: int|
            j <= m < s.drop_last().len() ==> s.drop_last()[m].sequence_number
                > x.sequence_number);
        lemma_insert_ord_at(s.drop_last(), x, j);
        assert(s.drop_last().insert(j, x).push(s.last()) =~= s.insert(j, x));
    }
}

/// Places `x` into the sorted vector `v`, after every element whose
/// sequence number is at most `x`'s own.
fn insert_by_sequence(v: &mut Vec<MarketEvent>, x: MarketEvent)
    ensures
        final(v)@ == insert_ord(old(v)@, x),
{
    let mut j: usize = v.len();
    while j > 0 && v[j - 1].sequence_number > x.sequence_number
        invariant
            j <= v@.len(),
            v@ == old(v)@,
            forall|m: int| j <= m < v@.len() ==> v@[m].sequence_number > x.sequence_number,
        decreases j,
    {
        j -= 1;
    }
    proof {
        lemma_insert_ord_at(v@, x, j as int);
    }
    v.insert(j, x);
}

/// Orders `events` ascending by sequence number with a stable sort:
/// events with equal sequence numbers keep their relative order.
pub fn sort_by_sequence_number(events: Vec<MarketEvent>) -> (r: Vec<MarketEvent>)
    ensures
        r@ == sort_events(events@),
        sorted_by_sequence(r@),
        r@.len() == events@.len(),
        r@.to_multiset() == events@.to_multiset(),
{
    let mut out: Vec<MarketEvent> = Vec::new();
    let mut idx: usize = 0;
    while idx < events.len()
        invariant
            idx <= events@.len(),
            out@ == sort_events(events@.take(idx as int)),
        decreases events@.len() - idx,
    {
        proof {
            assert(events@.take(idx + 1) =~= events@.take(idx as int).push(events@[idx as int]));
            assert(events@.take(idx + 1).drop_last() =~= events@.take(idx as int));
        }
        insert_by_sequence(&mut out, events[idx]);
        idx += 1;
    }
    proof {
        assert(events@.take(events@.len() as int) =~= events@);
        lemma_sort_events_sorted(events@);
        lemma_sort_events_len(events@);
        lemma_sort_events_multiset(events@);
    }
    out
}

/// Keeps only the fill events of `events` and orders them ascending by
/// sequence number with a stable sort. The batch that comes back holds
/// exactly the fill events of the input, each exactly as it arrived.
pub fn select_and_order(events: Vec<MarketEvent>) -> (r: Vec<MarketEvent>)
    ensures
        r@ == sort_events(fills_of(events@)),
        sorted_by_sequence(r@),
        all_fills(r@),
        r@.len() == fills_of(events@).len(),
        r@.to_multiset() == fills_of(events@).to_multiset(),
{
    let fills = filter_fill_events(&events);
    let r = sort_by_sequence_number(fills);
    proof {
        broadcast use vstd::seq_lib::group_filter_ensures;
        assert(all_fills(fills@));
        lemma_sort_preserves_all_fills(fills@);
    }
    r
}

} // verus!
