//! Simulated market prices: order books by level, the best price on a side, and the
//! volume-weighted price a market order of a given size would fill at.
use crate::decimal::{
    decimal_add, decimal_difference, decimal_div, decimal_mul, decimal_product, decimal_quotient,
    decimal_sub, decimal_sum, difference_fits, product_fits, quotient_fits, spec_min, sum_fits,
    Decimal, DecimalParts, decimal_of, lemma_decimal_of_view,
};
use crate::helpers::decimal_calculators::{
    round_to_tick_size, spec_round_to_tick_size, tick_rounding_fits,
};
use crate::messages::data_server_messaging::FundForgeError;
use crate::apis::brokerage::{AccountId, Brokerage};
use crate::server_connections::ConnectionType;
use crate::decimal::{spec_le, spec_lt};
use crate::standardized_types::{
    BaseDataEnum, OrderSide, PositionSide, Price, StrategyMode, SymbolName, Volume,
};
use std::collections::BTreeMap;
use vstd::prelude::*;

verus! {

broadcast use {vstd::std_specs::btree::group_btree_axioms, vstd::laws_cmp::group_laws_cmp};

/// One level of an order book snapshot: the depth (0 is the best price), its price and
/// the volume available there.
#[derive(Clone, Copy, Debug, PartialEq, Eq)]
pub struct BookLevel {
    pub level: u8,
    pub price: Price,
    pub volume: Volume,
}

/// One side of a symbol's order book: price and available volume by depth.
pub struct OrderBook {
    levels: BTreeMap<u8, (Price, Volume)>,
}

impl View for OrderBook {
    type V = Map<u8, (Decimal, Decimal)>;

    closed spec fn view(&self) -> Map<u8, (Decimal, Decimal)> {
        self.levels@
    }
}

impl OrderBook {
    /// An empty book.
    pub fn new() -> (r: OrderBook)
        ensures
            r@ == Map::<u8, (Decimal, Decimal)>::empty(),
    {
        OrderBook { levels: BTreeMap::new() }
    }

    /// Sets the price and volume at `level`, replacing what was there.
    pub fn insert(&mut self, level: u8, price: Price, volume: Volume)
        ensures
            final(self)@ == old(self)@.insert(level, (price, volume)),
    {
        self.levels.insert(level, (price, volume));
    }

    /// The price and volume at `level`, if the book has that level.
    pub fn get(&self, level: u8) -> (r: Option<(Price, Volume)>)
        ensures
            r == (if self@.contains_key(level) {
                Some(self@[level])
            } else {
                None::<(Decimal, Decimal)>
            }),
    {
        match self.levels.get(&level) {
            Some(entry) => Some(*entry),
            None => None,
        }
    }

    /// Applies a snapshot: each level given replaces the book's entry at that depth;
    /// other depths keep what they had.
    pub fn apply_snapshot(&mut self, levels: &Vec<BookLevel>)
        ensures
            final(self)@ == apply_levels(old(self)@, levels@),
    {
        let mut i: usize = 0;
        while i < levels.len()
            invariant
                i <= levels@.len(),
                self@ == apply_levels(old(self)@, levels@.subrange(0, i as int)),
            decreases levels.len() - i,
        {
            let entry = levels[i];
            self.insert(entry.level, entry.price, entry.volume);
            proof {
                assert(levels@.subrange(0, i + 1).drop_last() == levels@.subrange(0, i as int));
            }
            i = i + 1;
        }
        proof {
            assert(levels@.subrange(0, levels@.len() as int) == levels@);
        }
    }
}

/// The book after each level of `levels` is written into it in order.
pub open spec fn apply_levels(book: Map<u8, (Decimal, Decimal)>, levels: Seq<BookLevel>) -> Map<u8, (Decimal, Decimal)>
    decreases levels.len(),
{
    if levels.len() == 0 {
        book
    } else {
        let last = levels.last();
        apply_levels(book, levels.drop_last()).insert(last.level, (last.price, last.volume))
    }
}

/// How a walk through the book ends.
pub enum BookWalk {
    /// The first level reached has no volume and nothing was filled yet: its price.
    LevelPrice(Decimal),
    /// The whole volume was filled: the average price, rounded to the tick size.
    Filled(DecimalParts),
    /// The book ran out, having filled `volume` for a total of `price_volume`.
    Exhausted { price_volume: DecimalParts, volume: DecimalParts },
}

/// The sum of price times volume and the volume filled start at zero with one decimal.
pub open spec fn zero_one_place() -> DecimalParts {
    DecimalParts { mantissa: 0, scale: 1 }
}

/// Walks the book from `level` on with `remaining` volume still to fill, `price_volume`
/// and `filled` so far: each level takes the smaller of the remaining and the available
/// volume; empty levels are skipped, except that an empty level reached before anything
/// was filled gives its own price; the walk stops at the first missing level.
pub open spec fn book_walk(
    book: Map<u8, (Decimal, Decimal)>,
    level: nat,
    remaining: DecimalParts,
    price_volume: DecimalParts,
    filled: DecimalParts,
    tick_size: DecimalParts,
) -> BookWalk
    decreases 255 - level,
{
    if level >= 255 || !book.contains_key(level as u8) {
        BookWalk::Exhausted { price_volume, volume: filled }
    } else {
        let (price, available) = book[level as u8];
        if available@.mantissa == 0 && filled.mantissa == 0 {
            BookWalk::LevelPrice(price)
        } else if available@.mantissa == 0 {
            book_walk(book, level + 1, remaining, price_volume, filled, tick_size)
        } else {
            let used = spec_min(remaining, available@);
            let pv = decimal_sum(price_volume, decimal_product(price@, used));
            let f = decimal_sum(filled, used);
            let rem = decimal_difference(remaining, used);
            if rem.mantissa == 0 {
                BookWalk::Filled(spec_round_to_tick_size(decimal_quotient(pv, f), tick_size))
            } else {
                book_walk(book, level + 1, rem, pv, f, tick_size)
            }
        }
    }
}

/// Every step of [`book_walk`] stays within the decimal range, and the walk stops before
/// the deepest level (whose successor a `u8` level cannot name).
pub open spec fn book_walk_fits(
    book: Map<u8, (Decimal, Decimal)>,
    level: nat,
    remaining: DecimalParts,
    price_volume: DecimalParts,
    filled: DecimalParts,
    tick_size: DecimalParts,
) -> bool
    decreases 255 - level,
{
    if level >= 255 {
        !book.contains_key(255u8) || level > 255
    } else if !book.contains_key(level as u8) {
        true
    } else {
        let (price, available) = book[level as u8];
        if available@.mantissa == 0 && filled.mantissa == 0 {
            true
        } else if available@.mantissa == 0 {
            book_walk_fits(book, level + 1, remaining, price_volume, filled, tick_size)
        } else {
            let used = spec_min(remaining, available@);
            let pv = decimal_sum(price_volume, decimal_product(price@, used));
            let f = decimal_sum(filled, used);
            let rem = decimal_difference(remaining, used);
            &&& product_fits(price@, used)
            &&& sum_fits(price_volume, decimal_product(price@, used))
            &&& sum_fits(filled, used)
            &&& difference_fits(remaining, used)
            &&& if rem.mantissa == 0 {
                quotient_fits(pv, f) && tick_rounding_fits(decimal_quotient(pv, f), tick_size)
            } else {
                book_walk_fits(book, level + 1, rem, pv, f, tick_size)
            }
        }
    }
}

/// The price the book gives a market order for `volume`: the price of an empty best
/// level, the average fill price when the book holds enough volume, or the average over
/// what it holds when some was filled.
pub open spec fn book_fill_price(book: Map<u8, (Decimal, Decimal)>, volume: DecimalParts, tick_size: DecimalParts) -> Option<DecimalParts> {
    match book_walk(book, 0, volume, zero_one_place(), zero_one_place(), tick_size) {
        BookWalk::LevelPrice(p) => Some(p@),
        BookWalk::Filled(p) => Some(p),
        BookWalk::Exhausted { price_volume, volume: filled } => if filled.mantissa > 0 {
            Some(spec_round_to_tick_size(decimal_quotient(price_volume, filled), tick_size))
        } else {
            None
        },
    }
}

/// Computing [`book_fill_price`] stays within the decimal range.
pub open spec fn book_fill_fits(book: Map<u8, (Decimal, Decimal)>, volume: DecimalParts, tick_size: DecimalParts) -> bool {
    &&& book_walk_fits(book, 0, volume, zero_one_place(), zero_one_place(), tick_size)
    &&& match book_walk(book, 0, volume, zero_one_place(), zero_one_place(), tick_size) {
        BookWalk::Exhausted { price_volume, volume: filled } => filled.mantissa > 0 ==> {
            &&& quotient_fits(price_volume, filled)
            &&& tick_rounding_fits(decimal_quotient(price_volume, filled), tick_size)
        },
        _ => true,
    }
}

/// The estimated fill price: from the book when it gives one, else the last traded price.
pub open spec fn spec_fill_price_estimate(
    book: Option<Map<u8, (Decimal, Decimal)>>,
    volume: DecimalParts,
    tick_size: DecimalParts,
    last_price: Option<Decimal>,
) -> Option<DecimalParts> {
    let from_book = match book {
        Some(b) => book_fill_price(b, volume, tick_size),
        None => None,
    };
    match from_book {
        Some(p) => Some(p),
        None => match last_price {
            Some(l) => Some(l@),
            None => None,
        },
    }
}

/// The view of an optional book.
pub open spec fn book_view(book: Option<&OrderBook>) -> Option<Map<u8, (Decimal, Decimal)>> {
    match book {
        Some(b) => Some(b@),
        None => None,
    }
}

/// The view of a book that may not exist.
pub open spec fn opt_book_view(book: Option<OrderBook>) -> Option<Map<u8, (Decimal, Decimal)>> {
    match book {
        Some(b) => Some(b@),
        None => None,
    }
}

/// The error returned when neither the book nor the last price gives a price.
pub open spec fn no_market_price(e: FundForgeError) -> bool {
    e matches FundForgeError::ClientSideErrorDebug(m) && m@ == "No market price found for symbol"@
}

/// The side of the book an order takes liquidity from: buys from the asks, sells from
/// the bids.
pub fn book_for_side<'a>(order_side: OrderSide, bid_book: Option<&'a OrderBook>, ask_book: Option<&'a OrderBook>) -> (r: Option<&'a OrderBook>)
    ensures
        r == (match order_side {
            OrderSide::Buy => ask_book,
            OrderSide::Sell => bid_book,
        }),
{
    match order_side {
        OrderSide::Buy => ask_book,
        OrderSide::Sell => bid_book,
    }
}

/// Estimates the price a market order for `volume` fills at in `book` (the side of the
/// book the order takes from, if the symbol has one): walking the levels from the best,
/// it returns the volume-weighted average price rounded to `tick_size`; without a price
/// from the book it falls back to `last_price`, and fails without either.
pub fn get_market_fill_price_estimate(
    book: Option<&OrderBook>,
    volume: Volume,
    tick_size: Price,
    last_price: Option<Price>,
) -> (r: Result<Price, FundForgeError>)
    requires
        book matches Some(b) ==> book_fill_fits(b@, volume@, tick_size@),
    ensures
        match spec_fill_price_estimate(book_view(book), volume@, tick_size@, last_price) {
            Some(p) => r matches Ok(price) && price@ == p,
            None => r matches Err(e) && no_market_price(e),
        },
{
    if let Some(b) = book {
        if let Some(price) = fill_from_book(b, volume, tick_size) {
            return Ok(price);
        }
    }
    if let Some(last) = last_price {
        return Ok(last);
    }
    let r = Err(FundForgeError::ClientSideErrorDebug(String::from_str("No market price found for symbol")));
    proof {
        reveal_strlit("No market price found for symbol");
    }
    r
}

/// The price `book` gives a market order for `volume`, if it gives one.
fn fill_from_book(book: &OrderBook, volume: Volume, tick_size: Price) -> (r: Option<Price>)
    requires
        book_fill_fits(book@, volume@, tick_size@),
    ensures
        match book_fill_price(book@, volume@, tick_size@) {
            Some(p) => r matches Some(price) && price@ == p,
            None => r is None,
        },
{
    let zero = Decimal::from_parts(0, 1).unwrap();
    let mut total_price_volume = zero;
    let mut total_volume_filled = zero;
    let mut remaining_volume = volume;
    let mut level: u16 = 0;
    let ghost start = book_walk(book@, 0, volume@, zero_one_place(), zero_one_place(), tick_size@);
    while level < 255
        invariant
            level <= 255,
            start == book_walk(book@, 0, volume@, zero_one_place(), zero_one_place(), tick_size@),
            book_fill_fits(book@, volume@, tick_size@),
            book_walk(
                book@,
                level as nat,
                remaining_volume@,
                total_price_volume@,
                total_volume_filled@,
                tick_size@,
            ) == start,
            book_walk_fits(
                book@,
                level as nat,
                remaining_volume@,
                total_price_volume@,
                total_volume_filled@,
                tick_size@,
            ),
        ensures
            start == (BookWalk::Exhausted {
                price_volume: total_price_volume@,
                volume: total_volume_filled@,
            }),
            book_walk_fits(
                book@,
                level as nat,
                remaining_volume@,
                total_price_volume@,
                total_volume_filled@,
                tick_size@,
            ),
        decreases 255 - level,
    {
        match book.get(level as u8) {
            Some((price, available_volume)) => {
                if available_volume.is_zero() && total_volume_filled.is_zero() {
                    return Some(price);
                }
                if !available_volume.is_zero() {
                    let volume_to_use = remaining_volume.min(available_volume);
                    total_price_volume = decimal_add(
                        total_price_volume,
                        decimal_mul(price, volume_to_use),
                    );
                    total_volume_filled = decimal_add(total_volume_filled, volume_to_use);
                    remaining_volume = decimal_sub(remaining_volume, volume_to_use);
                    if remaining_volume.is_zero() {
                        return Some(
                            round_to_tick_size(
                                decimal_div(total_price_volume, total_volume_filled),
                                tick_size,
                            ),
                        );
                    }
                }
            },
            None => {
                break;
            },
        }
        level = level + 1;
    }
    if total_volume_filled.mantissa() > 0 {
        return Some(
            round_to_tick_size(decimal_div(total_price_volume, total_volume_filled), tick_size),
        );
    }
    None
}

/// The best price on the side of the book an order takes from (its level 0), else the
/// last traded price; fails without either.
pub fn get_market_price(book: Option<&OrderBook>, last_price: Option<Price>) -> (r: Result<
    Price,
    FundForgeError,
>)
    ensures
        match book {
            Some(b) if b@.contains_key(0u8) => r == Ok::<Decimal, FundForgeError>(b@[0u8].0),
            _ => match last_price {
                Some(l) => r == Ok::<Decimal, FundForgeError>(l),
                None => r matches Err(e) && no_market_price(e),
            },
        },
{
    if let Some(b) = book {
        if let Some((price, _)) = b.get(0) {
            return Ok(price);
        }
    }
    if let Some(last) = last_price {
        return Ok(last);
    }
    let r = Err(FundForgeError::ClientSideErrorDebug(String::from_str("No market price found for symbol")));
    proof {
        reveal_strlit("No market price found for symbol");
    }
    r
}

/// Whether orders are matched against the simulated market in `mode`: in backtests and
/// live paper trading; live orders go to the brokerage.
pub fn simulates_fills(mode: StrategyMode) -> (r: bool)
    ensures
        r == (mode == StrategyMode::Backtest || mode == StrategyMode::LivePaperTrading),
{
    match mode {
        StrategyMode::Backtest => true,
        StrategyMode::LivePaperTrading => true,
        StrategyMode::Live => false,
    }
}

/// Where the market sends an order request.
#[derive(Clone, Copy, Debug, PartialEq, Eq, Structural)]
pub enum OrderRoute {
    /// Warm-up is not complete: the request is dropped.
    Ignore,
    /// Sent to the server over this connection; created orders are kept in the live cache.
    Live(ConnectionType),
    /// Matched against the simulated market.
    Simulated,
}

/// The route of an order request for `brokerage` in `mode`: none before warm-up is
/// complete; live requests go to the brokerage's own connection where one is configured,
/// else to the default connection; backtest and paper requests are simulated.
pub fn route_order_request(
    mode: StrategyMode,
    warmup_complete: bool,
    brokerage: Brokerage,
    broker_connection_configured: bool,
) -> (r: OrderRoute)
    ensures
        r == (if !warmup_complete {
            OrderRoute::Ignore
        } else if mode == StrategyMode::Live {
            OrderRoute::Live(
                if broker_connection_configured {
                    ConnectionType::Broker(brokerage)
                } else {
                    ConnectionType::Default
                },
            )
        } else {
            OrderRoute::Simulated
        }),
{
    if !warmup_complete {
        return OrderRoute::Ignore;
    }
    match mode {
        StrategyMode::Live => {
            if broker_connection_configured {
                OrderRoute::Live(ConnectionType::Broker(brokerage))
            } else {
                OrderRoute::Live(ConnectionType::Default)
            }
        },
        StrategyMode::Backtest => OrderRoute::Simulated,
        StrategyMode::LivePaperTrading => OrderRoute::Simulated,
    }
}

/// The market of one symbol: its bid and ask books, once registered, and its last traded
/// price.
pub struct SymbolMarket {
    pub bid_book: Option<OrderBook>,
    pub ask_book: Option<OrderBook>,
    pub last_price: Option<Price>,
}

/// The book after the best level is set to `price` and `volume`; a book that does not
/// exist yet is created when `create` is set, and otherwise stays missing.
pub open spec fn with_best_level(
    book: Option<Map<u8, (Decimal, Decimal)>>,
    price: Decimal,
    volume: Decimal,
    create: bool,
) -> Option<Map<u8, (Decimal, Decimal)>> {
    match book {
        Some(b) => Some(b.insert(0u8, (price, volume))),
        None => if create {
            Some(Map::<u8, (Decimal, Decimal)>::empty().insert(0u8, (price, volume)))
        } else {
            None
        },
    }
}

/// What the market knows of one symbol: its bid book and its ask book, where they exist,
/// and its last traded price.
pub type MarketState = (
    Option<Map<u8, (Decimal, Decimal)>>,
    Option<Map<u8, (Decimal, Decimal)>>,
    Option<Decimal>,
);

/// A symbol the market knows nothing of: no books and no last price.
pub open spec fn unknown_market() -> MarketState {
    (None, None, None)
}

impl View for SymbolMarket {
    type V = MarketState;

    open spec fn view(&self) -> MarketState {
        (opt_book_view(self.bid_book), opt_book_view(self.ask_book), self.last_price)
    }
}

/// A market after a data point: candles and ticks set the last price; quotes set the
/// best level of each book, creating missing books; in backtests quote bars set the best
/// level of the books that exist to their closes, with no volume (zero, one decimal).
pub open spec fn market_after(s: MarketState, mode: StrategyMode, d: BaseDataEnum) -> MarketState {
    match d {
        BaseDataEnum::Candle(c) => (s.0, s.1, Some(c.close)),
        BaseDataEnum::Tick(t) => (s.0, s.1, Some(t.price)),
        BaseDataEnum::Quote(q) => (
            with_best_level(s.0, q.bid, q.bid_volume, true),
            with_best_level(s.1, q.ask, q.ask_volume, true),
            s.2,
        ),
        BaseDataEnum::QuoteBar(b) => if mode == StrategyMode::Backtest {
            (
                with_best_level(s.0, b.bid_close, decimal_of(zero_one_place()), false),
                with_best_level(s.1, b.ask_close, decimal_of(zero_one_place()), false),
                s.2,
            )
        } else {
            s
        },
        BaseDataEnum::TradePrice(_) => s,
    }
}

impl SymbolMarket {
    /// A symbol with no books and no price yet.
    pub fn new() -> (r: SymbolMarket)
        ensures
            r.bid_book is None,
            r.ask_book is None,
            r.last_price is None,
    {
        SymbolMarket { bid_book: None, ask_book: None, last_price: None }
    }

    /// Registers the symbol: both books start empty; the last price stays.
    pub fn register(&mut self)
        ensures
            opt_book_view(final(self).bid_book) == Some(Map::<u8, (Decimal, Decimal)>::empty()),
            opt_book_view(final(self).ask_book) == Some(Map::<u8, (Decimal, Decimal)>::empty()),
            final(self).last_price == old(self).last_price,
    {
        self.bid_book = Some(OrderBook::new());
        self.ask_book = Some(OrderBook::new());
    }

    /// Applies an order book snapshot: each side's levels replace the book's entries at
    /// those depths, a missing book being created first.
    pub fn apply_snapshot(&mut self, bid_levels: &Vec<BookLevel>, ask_levels: &Vec<BookLevel>)
        ensures
            opt_book_view(final(self).bid_book) == Some(apply_levels(
                match opt_book_view(old(self).bid_book) {
                    Some(b) => b,
                    None => Map::<u8, (Decimal, Decimal)>::empty(),
                },
                bid_levels@,
            )),
            opt_book_view(final(self).ask_book) == Some(apply_levels(
                match opt_book_view(old(self).ask_book) {
                    Some(b) => b,
                    None => Map::<u8, (Decimal, Decimal)>::empty(),
                },
                ask_levels@,
            )),
            final(self).last_price == old(self).last_price,
    {
        let mut bid = match self.bid_book.take() {
            Some(b) => b,
            None => OrderBook::new(),
        };
        bid.apply_snapshot(bid_levels);
        self.bid_book = Some(bid);
        let mut ask = match self.ask_book.take() {
            Some(b) => b,
            None => OrderBook::new(),
        };
        ask.apply_snapshot(ask_levels);
        self.ask_book = Some(ask);
    }

    /// Takes in a data point: candles and ticks set the last price; quotes set the best
    /// level of each book (creating books that are missing); in backtests quote bars set
    /// the best level of the books that exist to their closes, with no volume.
    pub fn update_base_data(&mut self, mode: StrategyMode, base_data: &BaseDataEnum)
        requires
            !(base_data is TradePrice),
        ensures
            final(self)@ == market_after(old(self)@, mode, *base_data),
    {
        match base_data {
            BaseDataEnum::Candle(candle) => {
                self.last_price = Some(candle.close);
            },
            BaseDataEnum::QuoteBar(quotebar) => {
                if mode == StrategyMode::Backtest {
                    let no_volume = Decimal::new(0, 1);
                    proof {
                        lemma_decimal_of_view(no_volume);
                    }
                    if let Some(book) = self.bid_book.as_mut() {
                        book.insert(0, quotebar.bid_close, no_volume);
                    }
                    if let Some(book) = self.ask_book.as_mut() {
                        book.insert(0, quotebar.ask_close, no_volume);
                    }
                }
            },
            BaseDataEnum::Tick(tick) => {
                self.last_price = Some(tick.price);
            },
            BaseDataEnum::Quote(quote) => {
                let mut bid = match self.bid_book.take() {
                    Some(b) => b,
                    None => OrderBook::new(),
                };
                bid.insert(0, quote.bid, quote.bid_volume);
                self.bid_book = Some(bid);
                let mut ask = match self.ask_book.take() {
                    Some(b) => b,
                    None => OrderBook::new(),
                };
                ask.insert(0, quote.ask, quote.ask_volume);
                self.ask_book = Some(ask);
            },
            BaseDataEnum::TradePrice(_) => {},
        }
    }
}

/// The kinds of order the simulated market matches.
#[derive(Clone, Copy, Debug, PartialEq, Eq, Structural)]
pub enum OrderType {
    Limit,
    Market,
    MarketIfTouched,
    StopMarket,
    StopLimit,
    EnterLong,
    EnterShort,
    ExitLong,
    ExitShort,
}

/// What the simulated market does with an open order on this pass.
#[derive(Debug, PartialEq, Eq)]
pub enum MatchDecision {
    /// The order stays open.
    Wait,
    /// The order fills at `price`, after the account's opposite position in the symbol is
    /// closed at that price when `exit_opposite` is set.
    Fill { price: Price, exit_opposite: bool },
    /// The order is rejected for the reason given.
    Reject(String),
}

/// Whether an order of this type is priced by the estimated fill price of its volume
/// (otherwise by the best price on its side of the book).
pub open spec fn spec_uses_fill_estimate(order_type: OrderType) -> bool {
    !(order_type is Limit || order_type is StopLimit)
}

/// Whether an order of this type is priced by the estimated fill price of its volume;
/// limit and stop-limit orders are priced by the best price on their side of the book.
pub fn uses_fill_estimate(order_type: OrderType) -> (r: bool)
    ensures
        r == spec_uses_fill_estimate(order_type),
{
    match order_type {
        OrderType::Limit | OrderType::StopLimit => false,
        _ => true,
    }
}

/// A buy is triggered when the market is at or below `level`, a sell when it is at or above.
pub open spec fn reached(side: OrderSide, market: Decimal, level: Decimal) -> bool {
    match side {
        OrderSide::Buy => spec_le(market@, level@),
        OrderSide::Sell => spec_le(level@, market@),
    }
}

/// A buy stop-limit is triggered when the market is at or below the trigger and above the
/// limit; a sell when it is at or above the trigger and below the limit.
pub open spec fn stop_limit_reached(side: OrderSide, market: Decimal, trigger: Decimal, limit: Decimal) -> bool {
    match side {
        OrderSide::Buy => spec_le(market@, trigger@) && spec_lt(limit@, market@),
        OrderSide::Sell => spec_le(trigger@, market@) && spec_lt(market@, limit@),
    }
}

/// The order needs no price it lacks once the market price is known: limit prices for
/// limit and stop-limit orders, trigger prices for stop and if-touched orders.
pub open spec fn order_prices_defined(
    order_type: OrderType,
    limit_price: Option<Decimal>,
    trigger_price: Option<Decimal>,
) -> bool {
    &&& (order_type is Limit || order_type is StopLimit ==> limit_price is Some)
    &&& (order_type is MarketIfTouched || order_type is StopMarket || order_type is StopLimit
        ==> trigger_price is Some)
}

/// Decides one open order of the backtest matching engine. `market_price` is the price
/// the order is matched against ([`uses_fill_estimate`] says which), `None` when the
/// market gives none; `is_long` and `is_short` describe the account's position in the
/// symbol. Limit and stop-limit orders fill at their limit price, the others at the
/// market price; exits without the position to exit are rejected.
pub fn match_backtest_order(
    order_type: OrderType,
    side: OrderSide,
    limit_price: Option<Price>,
    trigger_price: Option<Price>,
    market_price: Option<Price>,
    is_long: bool,
    is_short: bool,
) -> (r: MatchDecision)
    requires
        market_price is Some ==> order_prices_defined(order_type, limit_price, trigger_price),
    ensures
        match order_type {
            OrderType::ExitLong => if !is_long {
                r matches MatchDecision::Reject(m) && m@ == "No long position to exit"@
            } else {
                r == fill_or_wait(market_price, false)
            },
            OrderType::ExitShort => if !is_short {
                r matches MatchDecision::Reject(m) && m@ == "No short position to exit"@
            } else {
                r == fill_or_wait(market_price, false)
            },
            OrderType::Market => r == fill_or_wait(market_price, false),
            OrderType::EnterLong => r == fill_or_wait(market_price, is_short),
            OrderType::EnterShort => r == fill_or_wait(market_price, is_long),
            OrderType::Limit => match market_price {
                Some(m) if reached(side, m, limit_price->0) => r == (MatchDecision::Fill {
                    price: limit_price->0,
                    exit_opposite: false,
                }),
                _ => r == MatchDecision::Wait,
            },
            OrderType::MarketIfTouched | OrderType::StopMarket => match market_price {
                Some(m) if reached(side, m, trigger_price->0) => r == (MatchDecision::Fill {
                    price: m,
                    exit_opposite: false,
                }),
                _ => r == MatchDecision::Wait,
            },
            OrderType::StopLimit => match market_price {
                Some(m) if stop_limit_reached(side, m, trigger_price->0, limit_price->0) => r
                    == (MatchDecision::Fill { price: limit_price->0, exit_opposite: false }),
                _ => r == MatchDecision::Wait,
            },
        },
{
    match order_type {
        OrderType::ExitLong => {
            if !is_long {
                let reason = String::from_str("No long position to exit");
                proof {
                    reveal_strlit("No long position to exit");
                }
                return MatchDecision::Reject(reason);
            }
            fill_at(market_price, false)
        },
        OrderType::ExitShort => {
            if !is_short {
                let reason = String::from_str("No short position to exit");
                proof {
                    reveal_strlit("No short position to exit");
                }
                return MatchDecision::Reject(reason);
            }
            fill_at(market_price, false)
        },
        OrderType::Market => fill_at(market_price, false),
        OrderType::EnterLong => fill_at(market_price, is_short),
        OrderType::EnterShort => fill_at(market_price, is_long),
        OrderType::Limit => match market_price {
            Some(m) => {
                let limit = limit_price.unwrap();
                if crosses(side, &m, &limit) {
                    MatchDecision::Fill { price: limit, exit_opposite: false }
                } else {
                    MatchDecision::Wait
                }
            },
            None => MatchDecision::Wait,
        },
        OrderType::MarketIfTouched | OrderType::StopMarket => match market_price {
            Some(m) => {
                if crosses(side, &m, &trigger_price.unwrap()) {
                    MatchDecision::Fill { price: m, exit_opposite: false }
                } else {
                    MatchDecision::Wait
                }
            },
            None => MatchDecision::Wait,
        },
        OrderType::StopLimit => match market_price {
            Some(m) => {
                let trigger = trigger_price.unwrap();
                let limit = limit_price.unwrap();
                let triggered = match side {
                    OrderSide::Buy => m.at_most(&trigger) && limit.less_than(&m),
                    OrderSide::Sell => trigger.at_most(&m) && m.less_than(&limit),
                };
                if triggered {
                    MatchDecision::Fill { price: limit, exit_opposite: false }
                } else {
                    MatchDecision::Wait
                }
            },
            None => MatchDecision::Wait,
        },
    }
}

/// A fill at the market price when there is one.
pub open spec fn fill_or_wait(market_price: Option<Decimal>, exit_opposite: bool) -> MatchDecision {
    match market_price {
        Some(m) => MatchDecision::Fill { price: m, exit_opposite },
        None => MatchDecision::Wait,
    }
}

fn fill_at(market_price: Option<Price>, exit_opposite: bool) -> (r: MatchDecision)
    ensures
        r == fill_or_wait(market_price, exit_opposite),
{
    match market_price {
        Some(m) => MatchDecision::Fill { price: m, exit_opposite },
        None => MatchDecision::Wait,
    }
}

fn crosses(side: OrderSide, market: &Price, level: &Price) -> (r: bool)
    ensures
        r == reached(side, *market, *level),
{
    match side {
        OrderSide::Buy => market.at_most(level),
        OrderSide::Sell => level.at_most(market),
    }
}

/// An open position of an account in a symbol.
#[derive(Debug, PartialEq, Eq)]
pub struct OpenPosition {
    pub brokerage: Brokerage,
    pub account_id: AccountId,
    pub symbol_name: SymbolName,
    pub side: PositionSide,
}

/// Whether `p` is the position of that account in that symbol.
pub open spec fn position_is(p: OpenPosition, brokerage: Brokerage, account_id: Seq<char>, symbol_name: Seq<char>) -> bool {
    p.brokerage == brokerage && p.account_id@ == account_id && p.symbol_name@ == symbol_name
}

/// The side of the first position of that account in that symbol, if it has one.
pub open spec fn side_of(
    positions: Seq<OpenPosition>,
    brokerage: Brokerage,
    account_id: Seq<char>,
    symbol_name: Seq<char>,
) -> Option<PositionSide>
    decreases positions.len(),
{
    if positions.len() == 0 {
        None
    } else if position_is(positions[0], brokerage, account_id, symbol_name) {
        Some(positions[0].side)
    } else {
        side_of(positions.drop_first(), brokerage, account_id, symbol_name)
    }
}

/// The open positions of the accounts at every brokerage.
pub struct Ledgers {
    positions: Vec<OpenPosition>,
}

impl View for Ledgers {
    type V = Seq<OpenPosition>;

    closed spec fn view(&self) -> Seq<OpenPosition> {
        self.positions@
    }
}

impl Ledgers {
    /// No account holds a position.
    pub fn new() -> (r: Ledgers)
        ensures
            r@ == Seq::<OpenPosition>::empty(),
    {
        Ledgers { positions: Vec::new() }
    }

    /// Opens (or turns) the account's position in the symbol to `side`; it takes
    /// precedence over any earlier entry.
    pub fn set_position(&mut self, position: OpenPosition)
        ensures
            final(self)@ == seq![position] + old(self)@,
    {
        self.positions.insert(0, position);
        proof {
            assert(self.positions@ =~= seq![position] + old(self)@);
        }
    }

    /// The side of the account's position in the symbol, if it holds one.
    pub fn position_side(&self, brokerage: &Brokerage, account_id: &AccountId, symbol_name: &SymbolName) -> (r: Option<PositionSide>)
        ensures
            r == side_of(self@, *brokerage, account_id@, symbol_name@),
    {
        let n = self.positions.len();
        let mut i: usize = 0;
        proof {
            assert(self@.subrange(0, n as int) =~= self@);
        }
        while i < n
            invariant
                n == self.positions@.len(),
                i <= n,
                side_of(self@, *brokerage, account_id@, symbol_name@) == side_of(
                    self@.subrange(i as int, n as int),
                    *brokerage,
                    account_id@,
                    symbol_name@,
                ),
            decreases n - i,
        {
            let p = &self.positions[i];
            proof {
                assert(self@.subrange(i as int, n as int).drop_first() =~= self@.subrange(
                    i + 1,
                    n as int,
                ));
            }
            if p.brokerage == *brokerage && p.account_id == *account_id && p.symbol_name
                == *symbol_name {
                return Some(p.side);
            }
            i = i + 1;
        }
        None
    }
}

/// Whether the account holds a long position in the symbol.
pub fn is_long_live(ledgers: &Ledgers, brokerage: &Brokerage, account_id: &AccountId, symbol_name: &SymbolName) -> (r: bool)
    ensures
        r == (side_of(ledgers@, *brokerage, account_id@, symbol_name@) == Some(PositionSide::Long)),
{
    ledgers.position_side(brokerage, account_id, symbol_name) == Some(PositionSide::Long)
}

/// Whether the account holds a short position in the symbol.
pub fn is_short_live(ledgers: &Ledgers, brokerage: &Brokerage, account_id: &AccountId, symbol_name: &SymbolName) -> (r: bool)
    ensures
        r == (side_of(ledgers@, *brokerage, account_id@, symbol_name@) == Some(PositionSide::Short)),
{
    ledgers.position_side(brokerage, account_id, symbol_name) == Some(PositionSide::Short)
}

/// Whether the account holds no position in the symbol.
pub fn is_flat_live(ledgers: &Ledgers, brokerage: &Brokerage, account_id: &AccountId, symbol_name: &SymbolName) -> (r: bool)
    ensures
        r == (side_of(ledgers@, *brokerage, account_id@, symbol_name@) is None),
{
    ledgers.position_side(brokerage, account_id, symbol_name).is_none()
}

/// Whether the paper account holds a long position in the symbol.
pub fn is_long_paper(ledgers: &Ledgers, brokerage: &Brokerage, account_id: &AccountId, symbol_name: &SymbolName) -> (r: bool)
    ensures
        r == (side_of(ledgers@, *brokerage, account_id@, symbol_name@) == Some(PositionSide::Long)),
{
    is_long_live(ledgers, brokerage, account_id, symbol_name)
}

/// Whether the paper account holds a short position in the symbol.
pub fn is_short_paper(ledgers: &Ledgers, brokerage: &Brokerage, account_id: &AccountId, symbol_name: &SymbolName) -> (r: bool)
    ensures
        r == (side_of(ledgers@, *brokerage, account_id@, symbol_name@) == Some(PositionSide::Short)),
{
    is_short_live(ledgers, brokerage, account_id, symbol_name)
}

/// Whether the paper account holds no position in the symbol.
pub fn is_flat_paper(ledgers: &Ledgers, brokerage: &Brokerage, account_id: &AccountId, symbol_name: &SymbolName) -> (r: bool)
    ensures
        r == (side_of(ledgers@, *brokerage, account_id@, symbol_name@) is None),
{
    is_flat_live(ledgers, brokerage, account_id, symbol_name)
}

/// An account is flat in a symbol exactly when it is neither long nor short there, and
/// never both long and short.
pub proof fn law_long_short_flat(positions: Seq<OpenPosition>, brokerage: Brokerage, account_id: Seq<char>, symbol_name: Seq<char>)
    ensures
        ({
            let side = side_of(positions, brokerage, account_id, symbol_name);
            &&& (side is None <==> !(side == Some(PositionSide::Long) || side == Some(
                PositionSide::Short,
            )))
            &&& !(side == Some(PositionSide::Long) && side == Some(PositionSide::Short))
        }),
{
    let side = side_of(positions, brokerage, account_id, symbol_name);
    if let Some(s) = side {
        assert(s == PositionSide::Long || s == PositionSide::Short);
    }
}

/// The position set last is the one read back: after `set_position(p)`, the account of
/// `p` is on `p`'s side in `p`'s symbol.
pub proof fn law_set_then_side(positions: Seq<OpenPosition>, p: OpenPosition)
    ensures
        side_of(seq![p] + positions, p.brokerage, p.account_id@, p.symbol_name@) == Some(p.side),
{
    assert((seq![p] + positions)[0] == p);
}

} // verus!
