//! The simulated markets of all symbols, keyed by symbol name and driven by market
//! messages: registering and dropping symbols, data points and order book snapshots.
use crate::decimal::Decimal;
use crate::market_handler::market_handlers::{
    apply_levels, book_for_side, get_market_price, market_after, no_market_price,
    simulates_fills, unknown_market, BookLevel, MarketState, SymbolMarket,
};
use crate::messages::data_server_messaging::FundForgeError;
use crate::standardized_types::{BaseDataEnum, OrderSide, Price, StrategyMode, Symbol, SymbolName};
use vstd::prelude::*;

verus! {

/// What the market is told.
pub enum MarketMessage {
    RegisterSymbol(Symbol),
    DeregisterSymbol(Symbol),
    BaseDataUpdate(BaseDataEnum),
    TimeSliceUpdate(Vec<BaseDataEnum>),
    OrderBookSnapShot { symbol: Symbol, bid_book: Vec<BookLevel>, ask_book: Vec<BookLevel> },
}

/// Whether some entry of `entries` is under `name`.
pub open spec fn has_entry(entries: Seq<(SymbolName, SymbolMarket)>, name: Seq<char>) -> bool {
    exists|i: int| 0 <= i < entries.len() && (#[trigger] entries[i]).0@ == name
}

/// The position of an entry under `name`.
pub open spec fn entry_index(entries: Seq<(SymbolName, SymbolMarket)>, name: Seq<char>) -> int {
    choose|i: int| 0 <= i < entries.len() && (#[trigger] entries[i]).0@ == name
}

/// No two entries are under the same name.
pub open spec fn names_distinct(entries: Seq<(SymbolName, SymbolMarket)>) -> bool {
    forall|i: int, j: int|
        0 <= i < entries.len() && 0 <= j < entries.len() && i != j ==> (#[trigger] entries[i]).0@
            != (#[trigger] entries[j]).0@
}

/// What `entries` hold for `name`: its entry's market, or nothing at all.
pub open spec fn state_in(entries: Seq<(SymbolName, SymbolMarket)>, name: Seq<char>) -> MarketState {
    if has_entry(entries, name) {
        entries[entry_index(entries, name)].1@
    } else {
        unknown_market()
    }
}

/// A book that may not exist yet, an empty one standing in for it.
pub open spec fn book_or_empty(book: Option<Map<u8, (Decimal, Decimal)>>) -> Map<u8, (Decimal, Decimal)> {
    match book {
        Some(b) => b,
        None => Map::<u8, (Decimal, Decimal)>::empty(),
    }
}

/// What is known of `name` after the data points of a time slice, in order.
pub open spec fn state_after_slice(
    s: MarketState,
    mode: StrategyMode,
    name: Seq<char>,
    data: Seq<BaseDataEnum>,
) -> MarketState
    decreases data.len(),
{
    if data.len() == 0 {
        s
    } else {
        let before = state_after_slice(s, mode, name, data.drop_last());
        if data.last().spec_symbol().name@ == name {
            market_after(before, mode, data.last())
        } else {
            before
        }
    }
}

/// What is known of `name` after `message`: registering gives the symbol two empty
/// books, dropping it forgets its books and last price, data points and snapshots of it
/// update it, and messages about other symbols leave it as it was.
pub open spec fn state_after_message(
    s: MarketState,
    mode: StrategyMode,
    name: Seq<char>,
    message: MarketMessage,
) -> MarketState {
    match message {
        MarketMessage::RegisterSymbol(symbol) => if symbol.name@ == name {
            (Some(Map::<u8, (Decimal, Decimal)>::empty()), Some(Map::<u8, (Decimal, Decimal)>::empty()), s.2)
        } else {
            s
        },
        MarketMessage::DeregisterSymbol(symbol) => if symbol.name@ == name {
            unknown_market()
        } else {
            s
        },
        MarketMessage::BaseDataUpdate(d) => if d.spec_symbol().name@ == name {
            market_after(s, mode, d)
        } else {
            s
        },
        MarketMessage::TimeSliceUpdate(data) => state_after_slice(s, mode, name, data@),
        MarketMessage::OrderBookSnapShot { symbol, bid_book, ask_book } => if symbol.name@ == name {
            (
                Some(apply_levels(book_or_empty(s.0), bid_book@)),
                Some(apply_levels(book_or_empty(s.1), ask_book@)),
                s.2,
            )
        } else {
            s
        },
    }
}

/// The market takes no trade prices.
pub open spec fn message_accepted(message: MarketMessage) -> bool {
    match message {
        MarketMessage::BaseDataUpdate(d) => !(d is TradePrice),
        MarketMessage::TimeSliceUpdate(data) => forall|i: int|
            0 <= i < data@.len() ==> !(#[trigger] data@[i] is TradePrice),
        _ => true,
    }
}

/// The best price an order on `side` can take in a market (level 0 of the book it takes
/// from), else its last traded price.
pub open spec fn price_in(s: MarketState, side: OrderSide) -> Option<Decimal> {
    let book = match side {
        OrderSide::Buy => s.1,
        OrderSide::Sell => s.0,
    };
    match book {
        Some(b) if b.contains_key(0u8) => Some(b[0u8].0),
        _ => s.2,
    }
}

proof fn lemma_state_at(entries: Seq<(SymbolName, SymbolMarket)>, i: int)
    requires
        names_distinct(entries),
        0 <= i < entries.len(),
    ensures
        has_entry(entries, entries[i].0@),
        state_in(entries, entries[i].0@) == entries[i].1@,
{
    let name = entries[i].0@;
    assert(has_entry(entries, name));
    let j = entry_index(entries, name);
    assert(entries[j].0@ == name);
}

proof fn lemma_remove(entries: Seq<(SymbolName, SymbolMarket)>, i: int)
    requires
        names_distinct(entries),
        0 <= i < entries.len(),
    ensures
        names_distinct(entries.remove(i)),
        !has_entry(entries.remove(i), entries[i].0@),
        forall|n: Seq<char>|
            n != entries[i].0@ ==> #[trigger] state_in(entries.remove(i), n) == state_in(
                entries,
                n,
            ),
{
    let r = entries.remove(i);
    assert(r.len() == entries.len() - 1);
    assert forall|k: int| 0 <= k < r.len() implies #[trigger] r[k] == entries[if k < i {
        k
    } else {
        k + 1
    }] by {}
    assert forall|a: int, b: int|
        0 <= a < r.len() && 0 <= b < r.len() && a != b implies (#[trigger] r[a]).0@ != (
        #[trigger] r[b]).0@ by {
        let a2 = if a < i {
            a
        } else {
            a + 1
        };
        let b2 = if b < i {
            b
        } else {
            b + 1
        };
        assert(r[a] == entries[a2]);
        assert(r[b] == entries[b2]);
    }
    if has_entry(r, entries[i].0@) {
        let k = entry_index(r, entries[i].0@);
        let k2 = if k < i {
            k
        } else {
            k + 1
        };
        assert(r[k] == entries[k2]);
    }
    assert forall|n: Seq<char>| n != entries[i].0@ implies #[trigger] state_in(r, n) == state_in(
        entries,
        n,
    ) by {
        if has_entry(entries, n) {
            let j = entry_index(entries, n);
            assert(entries[j].0@ == n);
            assert(j != i);
            let k = if j < i {
                j
            } else {
                j - 1
            };
            assert(r[k] == entries[j]);
            assert(has_entry(r, n));
            let k2 = entry_index(r, n);
            let j2 = if k2 < i {
                k2
            } else {
                k2 + 1
            };
            assert(r[k2] == entries[j2]);
            assert(j2 == j);
        } else if has_entry(r, n) {
            let k2 = entry_index(r, n);
            let j2 = if k2 < i {
                k2
            } else {
                k2 + 1
            };
            assert(r[k2] == entries[j2]);
            assert(has_entry(entries, n));
        }
    }
}

proof fn lemma_push(entries: Seq<(SymbolName, SymbolMarket)>, e: (SymbolName, SymbolMarket))
    requires
        names_distinct(entries),
        !has_entry(entries, e.0@),
    ensures
        names_distinct(entries.push(e)),
        state_in(entries.push(e), e.0@) == e.1@,
        forall|n: Seq<char>|
            n != e.0@ ==> #[trigger] state_in(entries.push(e), n) == state_in(entries, n),
{
    let p = entries.push(e);
    assert forall|a: int, b: int|
        0 <= a < p.len() && 0 <= b < p.len() && a != b implies (#[trigger] p[a]).0@ != (
        #[trigger] p[b]).0@ by {
        if a < entries.len() && b < entries.len() {
            assert(p[a] == entries[a]);
            assert(p[b] == entries[b]);
        } else if a < entries.len() {
            assert(p[a] == entries[a]);
        } else {
            assert(p[b] == entries[b]);
        }
    }
    lemma_state_at(p, entries.len() as int);
    assert forall|n: Seq<char>| n != e.0@ implies #[trigger] state_in(p, n) == state_in(
        entries,
        n,
    ) by {
        if has_entry(entries, n) {
            let j = entry_index(entries, n);
            assert(p[j] == entries[j]);
            lemma_state_at(p, j);
            lemma_state_at(entries, j);
        } else if has_entry(p, n) {
            let k = entry_index(p, n);
            assert(k < entries.len());
            assert(p[k] == entries[k]);
        }
    }
}

/// Where the entry under `name` stands, if there is one.
fn find_entry(entries: &Vec<(SymbolName, SymbolMarket)>, name: &SymbolName) -> (r: Option<usize>)
    ensures
        match r {
            Some(i) => i < entries@.len() && entries@[i as int].0@ == name@,
            None => !has_entry(entries@, name@),
        },
{
    let mut i: usize = 0;
    while i < entries.len()
        invariant
            i <= entries@.len(),
            forall|k: int| 0 <= k < i ==> (#[trigger] entries@[k]).0@ != name@,
        decreases entries.len() - i,
    {
        if entries[i].0 == *name {
            return Some(i);
        }
        i = i + 1;
    }
    None
}

/// The order books and last prices of every symbol the market has heard of.
pub struct Markets {
    mode: StrategyMode,
    entries: Vec<(SymbolName, SymbolMarket)>,
}

impl Markets {
    #[verifier::type_invariant]
    spec fn well_formed(self) -> bool {
        names_distinct(self.entries@)
    }

    /// The mode the market runs in.
    pub closed spec fn strategy_mode(self) -> StrategyMode {
        self.mode
    }

    /// What the market knows of the symbol `name`.
    pub closed spec fn state_of(self, name: Seq<char>) -> MarketState {
        state_in(self.entries@, name)
    }

    /// A market in `mode` that knows of no symbol.
    pub fn new(mode: StrategyMode) -> (r: Markets)
        ensures
            r.strategy_mode() == mode,
            forall|n: Seq<char>| #[trigger] r.state_of(n) == unknown_market(),
    {
        Markets { mode, entries: Vec::new() }
    }

    /// The mode the market runs in.
    pub fn mode(&self) -> (r: StrategyMode)
        ensures
            r == self.strategy_mode(),
    {
        self.mode
    }

    /// Takes the market of `name` out of the store; a symbol without an entry gives one
    /// that knows nothing.
    fn take_market(&mut self, name: &SymbolName) -> (m: SymbolMarket)
        ensures
            m@ == old(self).state_of(name@),
            !has_entry(final(self).entries@, name@),
            final(self).mode == old(self).mode,
            forall|n: Seq<char>|
                n != name@ ==> #[trigger] final(self).state_of(n) == old(self).state_of(n),
    {
        proof {
            use_type_invariant(&*self);
        }
        let mut entries: Vec<(SymbolName, SymbolMarket)> = Vec::new();
        std::mem::swap(&mut entries, &mut self.entries);
        match find_entry(&entries, name) {
            Some(i) => {
                proof {
                    lemma_state_at(entries@, i as int);
                    lemma_remove(entries@, i as int);
                }
                let (_, m) = entries.remove(i);
                self.entries = entries;
                m
            },
            None => {
                self.entries = entries;
                SymbolMarket::new()
            },
        }
    }

    /// Puts `market` into the store under `name`, which has no entry.
    fn put_market(&mut self, name: SymbolName, market: SymbolMarket)
        requires
            !has_entry(old(self).entries@, name@),
        ensures
            final(self).mode == old(self).mode,
            final(self).state_of(name@) == market@,
            forall|n: Seq<char>|
                n != name@ ==> #[trigger] final(self).state_of(n) == old(self).state_of(n),
    {
        proof {
            use_type_invariant(&*self);
            lemma_push(self.entries@, (name, market));
        }
        let mut entries: Vec<(SymbolName, SymbolMarket)> = Vec::new();
        std::mem::swap(&mut entries, &mut self.entries);
        entries.push((name, market));
        self.entries = entries;
    }

    /// Registers a symbol: both its books start empty; its last price stays.
    pub fn register_symbol(&mut self, name: &SymbolName)
        ensures
            final(self).strategy_mode() == old(self).strategy_mode(),
            final(self).state_of(name@) == (
                Some(Map::<u8, (Decimal, Decimal)>::empty()),
                Some(Map::<u8, (Decimal, Decimal)>::empty()),
                old(self).state_of(name@).2,
            ),
            forall|n: Seq<char>|
                n != name@ ==> #[trigger] final(self).state_of(n) == old(self).state_of(n),
    {
        let mut market = self.take_market(name);
        market.register();
        self.put_market(name.clone(), market);
    }

    /// Drops a symbol: the market forgets its books and its last price.
    pub fn deregister_symbol(&mut self, name: &SymbolName)
        ensures
            final(self).strategy_mode() == old(self).strategy_mode(),
            final(self).state_of(name@) == unknown_market(),
            forall|n: Seq<char>|
                n != name@ ==> #[trigger] final(self).state_of(n) == old(self).state_of(n),
    {
        let _dropped = self.take_market(name);
    }

    /// Applies an order book snapshot of a symbol: each side's levels replace the book's
    /// entries at those depths, a missing book being created first.
    pub fn apply_snapshot(&mut self, name: &SymbolName, bid_book: &Vec<BookLevel>, ask_book: &Vec<BookLevel>)
        ensures
            final(self).strategy_mode() == old(self).strategy_mode(),
            final(self).state_of(name@) == (
                Some(apply_levels(book_or_empty(old(self).state_of(name@).0), bid_book@)),
                Some(apply_levels(book_or_empty(old(self).state_of(name@).1), ask_book@)),
                old(self).state_of(name@).2,
            ),
            forall|n: Seq<char>|
                n != name@ ==> #[trigger] final(self).state_of(n) == old(self).state_of(n),
    {
        let mut market = self.take_market(name);
        market.apply_snapshot(bid_book, ask_book);
        self.put_market(name.clone(), market);
    }

    /// Takes in a data point of its symbol (see `market_after`).
    pub fn update_base_data(&mut self, base_data: &BaseDataEnum)
        requires
            !(base_data is TradePrice),
        ensures
            final(self).strategy_mode() == old(self).strategy_mode(),
            final(self).state_of(base_data.spec_symbol().name@) == market_after(
                old(self).state_of(base_data.spec_symbol().name@),
                old(self).strategy_mode(),
                *base_data,
            ),
            forall|n: Seq<char>|
                n != base_data.spec_symbol().name@ ==> #[trigger] final(self).state_of(n)
                    == old(self).state_of(n),
    {
        let name = &base_data.symbol().name;
        let mut market = self.take_market(name);
        market.update_base_data(self.mode, base_data);
        self.put_market(name.clone(), market);
    }

    /// Takes in the data points of a time slice, in order.
    pub fn update_time_slice(&mut self, time_slice: &Vec<BaseDataEnum>)
        requires
            forall|i: int| 0 <= i < time_slice@.len() ==> !(#[trigger] time_slice@[i] is TradePrice),
        ensures
            final(self).strategy_mode() == old(self).strategy_mode(),
            forall|n: Seq<char>|
                #[trigger] final(self).state_of(n) == state_after_slice(
                    old(self).state_of(n),
                    old(self).strategy_mode(),
                    n,
                    time_slice@,
                ),
    {
        let mut i: usize = 0;
        while i < time_slice.len()
            invariant
                i <= time_slice@.len(),
                forall|k: int| 0 <= k < time_slice@.len() ==> !(#[trigger] time_slice@[k] is TradePrice),
                self.strategy_mode() == old(self).strategy_mode(),
                forall|n: Seq<char>|
                    #[trigger] self.state_of(n) == state_after_slice(
                        old(self).state_of(n),
                        old(self).strategy_mode(),
                        n,
                        time_slice@.subrange(0, i as int),
                    ),
            decreases time_slice.len() - i,
        {
            let ghost before = *self;
            self.update_base_data(&time_slice[i]);
            proof {
                let prefix = time_slice@.subrange(0, i + 1);
                assert(prefix.drop_last() == time_slice@.subrange(0, i as int));
                assert(prefix.last() == time_slice@[i as int]);
                assert forall|n: Seq<char>| #[trigger] self.state_of(n) == state_after_slice(
                    old(self).state_of(n),
                    old(self).strategy_mode(),
                    n,
                    prefix,
                ) by {
                    assert(before.state_of(n) == state_after_slice(
                        old(self).state_of(n),
                        old(self).strategy_mode(),
                        n,
                        time_slice@.subrange(0, i as int),
                    ));
                }
            }
            i = i + 1;
        }
        proof {
            assert(time_slice@.subrange(0, time_slice@.len() as int) == time_slice@);
        }
    }

    /// Applies one message and returns whether simulated orders are to be matched now:
    /// after data or a snapshot, in the modes that simulate fills. Every symbol the
    /// message is not about stays as it was.
    pub fn handle(&mut self, message: MarketMessage) -> (r: bool)
        requires
            message_accepted(message),
        ensures
            final(self).strategy_mode() == old(self).strategy_mode(),
            r == (match message {
                MarketMessage::RegisterSymbol(_) => false,
                MarketMessage::DeregisterSymbol(_) => false,
                _ => (old(self).strategy_mode() == StrategyMode::Backtest || old(self).strategy_mode()
                    == StrategyMode::LivePaperTrading),
            }),
            forall|n: Seq<char>|
                #[trigger] final(self).state_of(n) == state_after_message(
                    old(self).state_of(n),
                    old(self).strategy_mode(),
                    n,
                    message,
                ),
    {
        match message {
            MarketMessage::RegisterSymbol(symbol) => {
                self.register_symbol(&symbol.name);
                false
            },
            MarketMessage::DeregisterSymbol(symbol) => {
                self.deregister_symbol(&symbol.name);
                false
            },
            MarketMessage::BaseDataUpdate(base_data) => {
                self.update_base_data(&base_data);
                simulates_fills(self.mode())
            },
            MarketMessage::TimeSliceUpdate(time_slice) => {
                self.update_time_slice(&time_slice);
                simulates_fills(self.mode())
            },
            MarketMessage::OrderBookSnapShot { symbol, bid_book, ask_book } => {
                self.apply_snapshot(&symbol.name, &bid_book, &ask_book);
                simulates_fills(self.mode())
            },
        }
    }

    /// The best price an order on `order_side` can take in the symbol, else its last
    /// traded price; fails when the market has neither.
    pub fn market_price(&self, order_side: OrderSide, name: &SymbolName) -> (r: Result<Price, FundForgeError>)
        ensures
            match price_in(self.state_of(name@), order_side) {
                Some(p) => r == Ok::<Decimal, FundForgeError>(p),
                None => r matches Err(e) && no_market_price(e),
            },
    {
        proof {
            use_type_invariant(self);
        }
        match find_entry(&self.entries, name) {
            Some(i) => {
                proof {
                    lemma_state_at(self.entries@, i as int);
                }
                let market = &self.entries[i].1;
                get_market_price(
                    book_for_side(order_side, market.bid_book.as_ref(), market.ask_book.as_ref()),
                    market.last_price,
                )
            },
            None => get_market_price(None, None),
        }
    }
}

/// Dropping a symbol forgets everything the market knew of it, and registering it again
/// gives it two empty books and no last price.
pub proof fn law_deregister_forgets(s: MarketState, mode: StrategyMode, symbol: Symbol)
    ensures
        state_after_message(s, mode, symbol.name@, MarketMessage::DeregisterSymbol(symbol))
            == unknown_market(),
        state_after_message(
            state_after_message(s, mode, symbol.name@, MarketMessage::DeregisterSymbol(symbol)),
            mode,
            symbol.name@,
            MarketMessage::RegisterSymbol(symbol),
        ) == (
            Some(Map::<u8, (Decimal, Decimal)>::empty()),
            Some(Map::<u8, (Decimal, Decimal)>::empty()),
            None::<Decimal>,
        ),
{
}

} // verus!
