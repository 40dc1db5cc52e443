use vstd::prelude::*;
use crate::tick::MarketData;

verus! {

/// The abstract state of a store: for each symbol that has been seen, its
/// ticks in the order in which they were ingested.
pub type Histories<N> = Map<Seq<char>, Seq<MarketData<N>>>;

/// The ticks stored for `sym`, oldest first; empty for an unknown symbol.
pub open spec fn history<N>(m: Histories<N>, sym: Seq<char>) -> Seq<MarketData<N>> {
    if m.contains_key(sym) {
        m[sym]
    } else {
        Seq::empty()
    }
}

/// The state after `d` is appended to the history of its symbol.
pub open spec fn after_ingest<N>(m: Histories<N>, d: MarketData<N>) -> Histories<N> {
    m.insert(d.symbol@, history(m, d.symbol@).push(d))
}

/// The most recently ingested tick for `sym`, if any.
pub open spec fn latest<N>(m: Histories<N>, sym: Seq<char>) -> Option<MarketData<N>> {
    let h = history(m, sym);
    if h.len() == 0 {
        None
    } else {
        Some(h.last())
    }
}

/// The prices that a simple moving average over `period` ticks averages:
/// those of the `period` most recent ticks, the most recent first.
/// There is none for a period of zero or one longer than the history.
pub open spec fn window<N>(m: Histories<N>, sym: Seq<char>, period: nat) -> Option<Seq<N>> {
    let h = history(m, sym);
    if period == 0 || h.len() < period {
        None
    } else {
        Some(Seq::new(period, |j: int| h[h.len() - 1 - j].price))
    }
}

/// The volumes of all ticks stored for `sym`, oldest first.
pub open spec fn volumes<N>(m: Histories<N>, sym: Seq<char>) -> Seq<N> {
    history(m, sym).map_values(|t: MarketData<N>| t.volume)
}

/// The state reached from `m` by ingesting the ticks of `ds` in order.
pub open spec fn replay<N>(m: Histories<N>, ds: Seq<MarketData<N>>) -> Histories<N>
    decreases ds.len(),
{
    if ds.len() == 0 {
        m
    } else {
        after_ingest(replay(m, ds.drop_last()), ds.last())
    }
}

/// The ticks of `ds` whose symbol is `sym`, in their order in `ds`.
pub open spec fn ticks_for<N>(ds: Seq<MarketData<N>>, sym: Seq<char>) -> Seq<MarketData<N>>
    decreases ds.len(),
{
    if ds.len() == 0 {
        Seq::empty()
    } else if ds.last().symbol@ == sym {
        ticks_for(ds.drop_last(), sym).push(ds.last())
    } else {
        ticks_for(ds.drop_last(), sym)
    }
}

} // verus!
