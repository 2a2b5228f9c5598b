//! The open positions of backtest accounts, and which side each account is on.
use crate::apis::brokerage::{AccountId, Brokerage};
use crate::market_handler::market_handlers::{side_of, Ledgers, OpenPosition};
use crate::standardized_types::{PositionSide, SymbolName};
use vstd::prelude::*;

verus! {

/// Keeps the open positions of every account at every brokerage.
pub struct PositionHandler {
    pub open: Ledgers,
}

impl PositionHandler {
    /// No account holds a position.
    pub fn new() -> (r: PositionHandler)
        ensures
            r.open@ == Seq::<OpenPosition>::empty(),
    {
        PositionHandler { open: Ledgers::new() }
    }

    /// Records `position` as the open position of its account in its symbol, replacing
    /// any earlier one.
    pub fn insert_open_position(&mut self, position: OpenPosition)
        ensures
            final(self).open@ == seq![position] + old(self).open@,
    {
        self.open.set_position(position);
    }

    /// Whether the account holds a short position in the symbol.
    pub fn is_short(&self, brokerage: &Brokerage, account_id: &AccountId, symbol_name: &SymbolName) -> (r: bool)
        ensures
            r == (side_of(self.open@, *brokerage, account_id@, symbol_name@) == Some(PositionSide::Short)),
    {
        match self.open.position_side(brokerage, account_id, symbol_name) {
            Some(PositionSide::Short) => true,
            _ => false,
        }
    }

    /// Whether the account holds a long position in the symbol.
    pub fn is_long(&self, brokerage: &Brokerage, account_id: &AccountId, symbol_name: &SymbolName) -> (r: bool)
        ensures
            r == (side_of(self.open@, *brokerage, account_id@, symbol_name@) == Some(PositionSide::Long)),
    {
        match self.open.position_side(brokerage, account_id, symbol_name) {
            Some(PositionSide::Long) => true,
            _ => false,
        }
    }

    /// Whether the account holds no position in the symbol.
    pub fn is_flat(&self, brokerage: &Brokerage, account_id: &AccountId, symbol_name: &SymbolName) -> (r: bool)
        ensures
            r == (side_of(self.open@, *brokerage, account_id@, symbol_name@) is None),
    {
        match self.open.position_side(brokerage, account_id, symbol_name) {
            Some(_) => false,
            None => true,
        }
    }
}

} // verus!
