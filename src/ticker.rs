//! Ticker records and the symbol filter applied to a fetched batch.
use vstd::prelude::*;

verus! {

/// One snapshot of a tradable asset. The numeric-looking fields are kept as
/// the text the price source supplied: no arithmetic is done on them.
#[derive(Debug)]
pub struct Ticker {
    pub symbol: String,
    pub price_usd: String,
    pub percent_change_1h: String,
    pub percent_change_24h: String,
    pub percent_change_7d: String,
    pub volume_usd: String,
}

/// What `str::to_lowercase` returns for a text.
pub uninterp spec fn lower_of(s: Seq<char>) -> Seq<char>;

/// Relies on `str::to_lowercase`: its result is a function of the characters
/// alone, and an empty text stays empty.
#[verifier::external_body]
fn lowercase(s: &str) -> (r: String)
    ensures
        r@ == lower_of(s@),
        s@.len() == 0 ==> r@.len() == 0,
{
    s.to_lowercase()
}

/// The allow-list of lower-cased symbols given at startup; empty means that
/// every record is shown.
pub struct SymbolFilter {
    pub symbols: Vec<String>,
}

impl SymbolFilter {
    /// The symbols of the filter, as texts.
    pub open spec fn view(&self) -> Seq<Seq<char>> {
        self.symbols@.map_values(|s: String| s@)
    }

    /// Builds the filter from the symbols named by the user, lower-casing each.
    pub fn new(symbols: &Vec<String>) -> (r: SymbolFilter)
        ensures
            r@.len() == symbols@.len(),
            forall|i: int| 0 <= i < symbols@.len() ==> r@[i] == lower_of(#[trigger] symbols@[i]@),
    {
        let mut out: Vec<String> = Vec::new();
        let mut i: usize = 0;
        while i < symbols.len()
            invariant
                i <= symbols@.len(),
                out@.len() == i,
                forall|j: int| 0 <= j < i ==> out@[j]@ == lower_of(#[trigger] symbols@[j]@),
            decreases symbols@.len() - i,
        {
            let s = lowercase(symbols[i].as_str());
            out.push(s);
            i += 1;
        }
        SymbolFilter { symbols: out }
    }

    /// Whether a record with this symbol is shown.
    pub fn accepts(&self, symbol: &str) -> (r: bool)
        ensures
            r == selected(self@, symbol@),
    {
        if self.symbols.len() == 0 {
            return true;
        }
        let lower = lowercase(symbol);
        let mut i: usize = 0;
        while i < self.symbols.len()
            invariant
                0 < self.symbols@.len(),
                i <= self.symbols@.len(),
                lower@ == lower_of(symbol@),
                forall|j: int| 0 <= j < i ==> self@[j] != lower_of(symbol@),
            decreases self.symbols@.len() - i,
        {
            if self.symbols[i] == lower {
                assert(self@[i as int] == lower_of(symbol@));
                return true;
            }
            i += 1;
        }
        proof {
            assert forall|j: int| 0 <= j < self@.len() implies self@[j] != lower_of(symbol@) by {}
        }
        false
    }
}

/// A record with symbol `symbol` is shown under the filter `f`: the filter is
/// empty, or it holds the lower-cased symbol.
pub open spec fn selected(f: Seq<Seq<char>>, symbol: Seq<char>) -> bool {
    f.len() == 0 || f.contains(lower_of(symbol))
}

/// The records of `r` that the filter `f` shows, in their order in `r`.
pub open spec fn filter_spec(r: Seq<Ticker>, f: Seq<Seq<char>>) -> Seq<Ticker> {
    r.filter(|t: Ticker| selected(f, t.symbol@))
}

/// Keeps the records of a batch that the filter shows, in the order of the batch.
pub fn filter_tickers(tickers: Vec<Ticker>, filter: &SymbolFilter) -> (r: Vec<Ticker>)
    ensures
        r@ == filter_spec(tickers@, filter@),
{
    let ghost all = tickers@;
    let mut rest = tickers;
    let mut out: Vec<Ticker> = Vec::new();
    let ghost mut i: int = 0;
    while rest.len() > 0
        invariant
            0 <= i <= all.len(),
            rest@ == all.subrange(i, all.len() as int),
            out@ == filter_spec(all.subrange(0, i), filter@),
        decreases rest@.len(),
    {
        let t = rest.remove(0);
        proof {
            assert(t == all[i]);
            reveal(Seq::filter);
            assert(all.subrange(0, i + 1).drop_last() =~= all.subrange(0, i));
            assert(all.subrange(0, i + 1).last() == t);
        }
        if filter.accepts(t.symbol.as_str()) {
            out.push(t);
        }
        proof {
            i = i + 1;
            assert(rest@ =~= all.subrange(i, all.len() as int));
        }
    }
    proof {
        assert(all.subrange(0, i) =~= all);
    }
    out
}

/// `out` is the items of `r` at the strictly increasing positions `idx`.
pub open spec fn picks(idx: Seq<int>, r: Seq<Ticker>, out: Seq<Ticker>) -> bool {
    &&& idx.len() == out.len()
    &&& forall|i: int| 0 <= i < idx.len() ==> 0 <= #[trigger] idx[i] < r.len() && out[i] == r[idx[i]]
    &&& forall|i: int, j: int| 0 <= i < j < idx.len() ==> idx[i] < idx[j]
}

/// The positions in `r` of the records that the filter `f` shows, in increasing order.
pub open spec fn kept_positions(r: Seq<Ticker>, f: Seq<Seq<char>>) -> Seq<int>
    decreases r.len(),
{
    if r.len() == 0 {
        Seq::empty()
    } else {
        let sub = kept_positions(r.drop_last(), f);
        if selected(f, r.last().symbol@) {
            sub.push(r.len() - 1)
        } else {
            sub
        }
    }
}

proof fn lemma_kept_positions(r: Seq<Ticker>, f: Seq<Seq<char>>)
    ensures
        picks(kept_positions(r, f), r, filter_spec(r, f)),
        forall|k: int|
            0 <= k < r.len() ==> (selected(f, r[k].symbol@) <==> kept_positions(r, f).contains(k)),
    decreases r.len(),
{
    reveal(Seq::filter);
    if r.len() > 0 {
        let d = r.drop_last();
        lemma_kept_positions(d, f);
        let sub = kept_positions(d, f);
        let idx = kept_positions(r, f);
        let out = filter_spec(r, f);
        assert(filter_spec(r, f) == (if selected(f, r.last().symbol@) {
            filter_spec(d, f).push(r.last())
        } else {
            filter_spec(d, f)
        }));
        assert forall|i: int| 0 <= i < idx.len() implies 0 <= #[trigger] idx[i] < r.len() && out[i]
            == r[idx[i]] by {
            if i < sub.len() {
                assert(idx[i] == sub[i]);
            }
        }
        assert forall|k: int| 0 <= k < r.len() implies (selected(f, r[k].symbol@)
            <==> idx.contains(k)) by {
            if k < r.len() - 1 {
                assert(r[k] == d[k]);
                if sub.contains(k) {
                    let w = choose|w: int| 0 <= w < sub.len() && sub[w] == k;
                    assert(idx[w] == k);
                }
                if idx.contains(k) {
                    let w = choose|w: int| 0 <= w < idx.len() && idx[w] == k;
                    assert(w < sub.len());
                    assert(sub[w] == k);
                }
            } else {
                if selected(f, r.last().symbol@) {
                    assert(idx[idx.len() - 1] == k);
                } else {
                    if idx.contains(k) {
                        let w = choose|w: int| 0 <= w < idx.len() && idx[w] == k;
                        assert(sub[w] < d.len());
                    }
                }
            }
        }
    }
}

/// Filtering keeps the relative order of the batch and returns exactly the
/// records whose lower-cased symbol is in the filter, or the whole batch when
/// the filter is empty.
pub proof fn lemma_filter_keeps_order_and_members(r: Seq<Ticker>, f: Seq<Seq<char>>)
    ensures
        f.len() == 0 ==> filter_spec(r, f) == r,
        exists|idx: Seq<int>|
            #[trigger] picks(idx, r, filter_spec(r, f)) && forall|k: int|
                0 <= k < r.len() ==> (f.contains(lower_of(r[k].symbol@)) || f.len() == 0
                    <==> idx.contains(k)),
{
    lemma_kept_positions(r, f);
    let idx = kept_positions(r, f);
    assert(picks(idx, r, filter_spec(r, f)));
    if f.len() == 0 {
        lemma_filter_all(r, f);
    }
}

proof fn lemma_filter_all(r: Seq<Ticker>, f: Seq<Seq<char>>)
    requires
        f.len() == 0,
    ensures
        filter_spec(r, f) == r,
    decreases r.len(),
{
    reveal(Seq::filter);
    if r.len() > 0 {
        lemma_filter_all(r.drop_last(), f);
        assert(r.drop_last().push(r.last()) =~= r);
    }
}

} // verus!
