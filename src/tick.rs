use vstd::prelude::*;

verus! {

/// One market observation for a symbol.
///
/// `N` is the numeric type in which prices and volumes are measured.
#[derive(Clone, Debug)]
pub struct MarketData<N> {
    /// The trading symbol, such as "BTCUSD"; compared exactly and case-sensitively.
    pub symbol: String,
    /// The price at the time of the tick.
    pub price: N,
    /// The volume traded.
    pub volume: N,
    /// Unix timestamp in seconds; kept as given and never used for ordering.
    pub timestamp: u64,
}

} // verus!
