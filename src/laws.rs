use vstd::prelude::*;
use crate::model::{Histories, after_ingest, history, latest, replay, ticks_for, volumes, window};
use crate::tick::MarketData;

verus! {

/// Ingesting the ticks `ds`, in order, into a store appends to each symbol's
/// history exactly the ticks of `ds` for that symbol, in their order: nothing
/// is lost, reordered or filed under another symbol.
pub proof fn lemma_history_after_ingests<N>(m: Histories<N>, ds: Seq<MarketData<N>>, sym: Seq<char>)
    ensures
        history(replay(m, ds), sym) == history(m, sym) + ticks_for(ds, sym),
    decreases ds.len(),
{
    if ds.len() == 0 {
        assert(history(m, sym) + ticks_for(ds, sym) =~= history(m, sym));
    } else {
        let prev = ds.drop_last();
        lemma_history_after_ingests(m, prev, sym);
        if ds.last().symbol@ == sym {
            assert(history(m, sym) + ticks_for(prev, sym).push(ds.last())
                =~= (history(m, sym) + ticks_for(prev, sym)).push(ds.last()));
        }
    }
}

/// After ingesting `ds` into an empty store, the latest tick of a symbol is
/// the last tick of `ds` for that symbol, whatever the timestamps; in
/// particular, the last tick ingested is the latest of its symbol.
pub proof fn lemma_latest_is_last_ingested<N>(ds: Seq<MarketData<N>>, sym: Seq<char>)
    ensures
        latest(replay(Histories::<N>::empty(), ds), sym) == (if ticks_for(ds, sym).len() == 0 {
            None
        } else {
            Some(ticks_for(ds, sym).last())
        }),
        ds.len() > 0 ==> latest(replay(Histories::<N>::empty(), ds), ds.last().symbol@) == Some(
            ds.last(),
        ),
{
    let e = Histories::<N>::empty();
    lemma_history_after_ingests(e, ds, sym);
    assert(history(e, sym) + ticks_for(ds, sym) =~= ticks_for(ds, sym));
    if ds.len() > 0 {
        let s = ds.last().symbol@;
        lemma_history_after_ingests(e, ds, s);
        assert(history(e, s) + ticks_for(ds, s) =~= ticks_for(ds, s));
    }
}

/// The volume history of a symbol, after ingesting `ds` into an empty store,
/// is the volume of every tick of `ds` for that symbol, each once, in order.
pub proof fn lemma_volumes_are_all_ingested<N>(ds: Seq<MarketData<N>>, sym: Seq<char>)
    ensures
        volumes(replay(Histories::<N>::empty(), ds), sym) == ticks_for(ds, sym).map_values(
            |t: MarketData<N>| t.volume,
        ),
{
    let e = Histories::<N>::empty();
    lemma_history_after_ingests(e, ds, sym);
    assert(history(e, sym) + ticks_for(ds, sym) =~= ticks_for(ds, sym));
}

/// Ingesting a tick of one symbol changes no query on another symbol.
pub proof fn lemma_symbols_independent<N>(m: Histories<N>, d: MarketData<N>, other: Seq<char>, period: nat)
    requires
        other != d.symbol@,
    ensures
        history(after_ingest(m, d), other) == history(m, other),
        latest(after_ingest(m, d), other) == latest(m, other),
        window(after_ingest(m, d), other, period) == window(m, other, period),
        volumes(after_ingest(m, d), other) == volumes(m, other),
{
}

/// A window exists exactly when the period is positive and no longer than
/// the history, and then lists the prices of the most recent `period` ticks,
/// newest first; in particular a history shorter than the period, or an
/// unknown symbol, gives none.
pub proof fn lemma_window_needs_history<N>(m: Histories<N>, sym: Seq<char>, period: nat)
    ensures
        history(m, sym).len() < period ==> window(m, sym, period) is None,
        !m.contains_key(sym) ==> window(m, sym, period) is None && latest(m, sym) is None
            && volumes(m, sym).len() == 0,
{
}

/// Queries read the state alone: on equal states, each query gives equal
/// results, so repeating a query without an ingest in between repeats its
/// answer.
pub proof fn lemma_reads_repeatable<N>(m1: Histories<N>, m2: Histories<N>, sym: Seq<char>, period: nat)
    requires
        m1 == m2,
    ensures
        history(m1, sym) == history(m2, sym),
        latest(m1, sym) == latest(m2, sym),
        window(m1, sym, period) == window(m2, sym, period),
        volumes(m1, sym) == volumes(m2, sym),
{
}

} // verus!
