use vstd::prelude::*;
use crate::model::{Histories, after_ingest, history, latest, volumes, window};
use crate::tick::MarketData;

verus! {

/// The ticks of one symbol, oldest first.
struct Series<N> {
    symbol: String,
    ticks: Vec<MarketData<N>>,
}

/// A store of market ticks, each symbol with its own append-only history.
pub struct MarketPulse<N> {
    series: Vec<Series<N>>,
    model: Ghost<Histories<N>>,
}

impl<N> View for MarketPulse<N> {
    type V = Histories<N>;

    closed spec fn view(&self) -> Histories<N> {
        self.model@
    }
}

impl<N> MarketPulse<N> {
    /// Each symbol has one series, whose ticks are the model's history of that
    /// symbol: never empty, and all of that symbol.
    pub closed spec fn wf(&self) -> bool {
        &&& self.model@.dom().finite()
        &&& self.model@.dom().len() == self.series.len()
        &&& forall|i: int, j: int|
            0 <= i < j < self.series.len() ==> self.series[i].symbol@ != self.series[j].symbol@
        &&& forall|i: int|
            0 <= i < self.series.len() ==> {
                &&& self.model@.contains_key(#[trigger] self.series[i].symbol@)
                &&& self.model@[self.series[i].symbol@] == self.series[i].ticks@
            }
        &&& forall|sym: Seq<char>| #[trigger]
            self.model@.contains_key(sym) ==> exists|i: int|
                0 <= i < self.series.len() && self.series[i].symbol@ == sym
        &&& forall|sym: Seq<char>| #[trigger]
            self.model@.contains_key(sym) ==> self.model@[sym].len() > 0
        &&& forall|sym: Seq<char>, k: int|
            self.model@.contains_key(sym) && 0 <= k < self.model@[sym].len()
                ==> (#[trigger] self.model@[sym][k]).symbol@ == sym
    }

    /// Creates an empty store.
    pub fn new() -> (r: Self)
        ensures
            r.wf(),
            r@ == Histories::<N>::empty(),
    {
        MarketPulse { series: Vec::new(), model: Ghost(Map::empty()) }
    }

    /// The index of the series of `key`, or `None` where the symbol is unknown.
    fn position(&self, key: &String) -> (r: Option<usize>)
        requires
            self.wf(),
        ensures
            match r {
                Some(i) => i < self.series.len() && self.series[i as int].symbol@ == key@,
                None => !self@.contains_key(key@),
            },
    {
        let mut i: usize = 0;
        while i < self.series.len()
            invariant
                i <= self.series.len(),
                forall|j: int| 0 <= j < i ==> self.series[j].symbol@ != key@,
            decreases self.series.len() - i,
        {
            if self.series[i].symbol == *key {
                return Some(i);
            }
            i = i + 1;
        }
        None
    }

    /// Appends `data` to the history of its symbol, creating that history
    /// where the symbol is new. Nothing is validated or deduplicated.
    pub fn ingest(&mut self, data: MarketData<N>)
        requires
            old(self).wf(),
        ensures
            final(self).wf(),
            final(self)@ == after_ingest(old(self)@, data),
    {
        let ghost sym = data.symbol@;
        let ghost before = self.model@;
        let ghost old_series = self.series@;
        let ghost at: int;
        match self.position(&data.symbol) {
            Some(i) => {
                self.series[i].ticks.push(data);
                proof {
                    at = i as int;
                    self.model@ = before.insert(sym, before[sym].push(data));
                    assert(self.model@.dom() =~= before.dom());
                }
            },
            None => {
                let symbol = data.symbol.clone();
                let mut ticks: Vec<MarketData<N>> = Vec::new();
                ticks.push(data);
                self.series.push(Series { symbol, ticks });
                proof {
                    at = old_series.len() as int;
                    self.model@ = before.insert(sym, seq![data]);
                    assert(self.model@.dom() =~= before.dom().insert(sym));
                }
            },
        }
        proof {
            assert(self.series[at].symbol@ == sym);
            assert forall|s: Seq<char>| #[trigger] self.model@.contains_key(s) implies exists|i: int|
                0 <= i < self.series.len() && self.series[i].symbol@ == s by {
                if s != sym {
                    assert(before.contains_key(s));
                    let i = choose|i: int| 0 <= i < old_series.len() && old_series[i].symbol@ == s;
                    assert(self.series[i].symbol@ == s);
                }
            }
        }
    }

    /// The most recently ingested tick for `symbol`, or `None` where the
    /// symbol is unknown. Recency is insertion order, not timestamp.
    pub fn get_latest(&self, symbol: &str) -> (r: Option<&MarketData<N>>)
        requires
            self.wf(),
        ensures
            match r {
                Some(t) => latest(self@, symbol@) == Some(*t),
                None => latest(self@, symbol@) is None,
            },
    {
        let key = symbol.to_owned();
        match self.position(&key) {
            Some(i) => {
                let ticks = &self.series[i].ticks;
                Some(&ticks[ticks.len() - 1])
            },
            None => None,
        }
    }

    /// The ticks stored for `symbol`, oldest first, or `None` where the
    /// symbol is unknown.
    pub fn history(&self, symbol: &str) -> (r: Option<&Vec<MarketData<N>>>)
        requires
            self.wf(),
        ensures
            match r {
                Some(v) => self@.contains_key(symbol@) && v@ == self@[symbol@],
                None => !self@.contains_key(symbol@),
            },
    {
        let key = symbol.to_owned();
        match self.position(&key) {
            Some(i) => Some(&self.series[i].ticks),
            None => None,
        }
    }

    /// The number of symbols with at least one tick.
    pub fn symbol_count(&self) -> (r: usize)
        requires
            self.wf(),
        ensures
            r == self@.dom().len(),
    {
        self.series.len()
    }
}

impl<N> Default for MarketPulse<N> {
    /// An empty store, as `new` gives.
    fn default() -> (r: Self)
        ensures
            r.wf(),
            r@ == Histories::<N>::empty(),
    {
        Self::new()
    }
}

impl<N: Copy> MarketPulse<N> {
    /// The prices that a simple moving average over `period` ticks of
    /// `symbol` averages: those of the `period` most recent ticks, the most
    /// recent first. `None` where the symbol is unknown, where `period` is
    /// zero, or where fewer than `period` ticks are stored.
    pub fn recent_prices(&self, symbol: &str, period: usize) -> (r: Option<Vec<N>>)
        requires
            self.wf(),
        ensures
            match r {
                Some(w) => window(self@, symbol@, period as nat) == Some(w@),
                None => window(self@, symbol@, period as nat) is None,
            },
    {
        let key = symbol.to_owned();
        let i = match self.position(&key) {
            Some(i) => i,
            None => return None,
        };
        let ticks = &self.series[i].ticks;
        if period == 0 || ticks.len() < period {
            return None;
        }
        let n = ticks.len();
        let mut out: Vec<N> = Vec::new();
        let mut j: usize = 0;
        while j < period
            invariant
                j <= period <= n == ticks.len(),
                out.len() == j,
                forall|k: int| 0 <= k < j ==> out[k] == ticks[n - 1 - k].price,
            decreases period - j,
        {
            out.push(ticks[n - 1 - j].price);
            j = j + 1;
        }
        proof {
            let h = history(self@, symbol@);
            assert(h == ticks@);
            assert(out@ =~= Seq::new(period as nat, |k: int| h[h.len() - 1 - k].price));
        }
        Some(out)
    }

    /// The volumes of all ticks stored for `symbol`, oldest first: the whole
    /// history, whatever the timestamps. Empty where the symbol is unknown.
    pub fn volumes(&self, symbol: &str) -> (r: Vec<N>)
        requires
            self.wf(),
        ensures
            r@ == volumes(self@, symbol@),
    {
        let key = symbol.to_owned();
        let mut out: Vec<N> = Vec::new();
        match self.position(&key) {
            Some(i) => {
                let ticks = &self.series[i].ticks;
                let mut j: usize = 0;
                while j < ticks.len()
                    invariant
                        j <= ticks.len(),
                        out.len() == j,
                        forall|k: int| 0 <= k < j ==> out[k] == ticks[k].volume,
                    decreases ticks.len() - j,
                {
                    out.push(ticks[j].volume);
                    j = j + 1;
                }
                proof {
                    assert(out@ =~= volumes(self@, symbol@));
                }
            },
            None => {
                proof {
                    assert(out@ =~= volumes(self@, symbol@));
                }
            },
        }
        out
    }
}

} // verus!
