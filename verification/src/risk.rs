//! Pre-trade risk gate: validates an order against a position limit and a
//! global kill switch before it may be sent.

use vstd::prelude::*;

verus! {

/// One order intent, consumed once by the risk gate. Prices are carried as
/// fixed-point integers so that the record stays a plain aggregate of
/// fixed-width fields.
#[derive(Clone, Copy)]
pub struct Order {
    /// Producer-assigned, unique.
    pub order_id: u64,
    pub asset_id: u32,
    /// 0 = BUY, 1 = SELL.
    pub side: u8,
    /// Fixed-point price.
    pub price: i64,
    pub quantity: u64,
    pub submit_time_ns: i64,
    pub venue_id: u8,
    pub is_active: bool,
}

/// The signed position change an order implies: `+quantity` for a buy,
/// `-quantity` for a sell.
pub open spec fn order_delta(order: Order) -> int {
    if order.side == 0 {
        order.quantity as int
    } else {
        -(order.quantity as int)
    }
}

/// Shared risk state: an immutable position limit, a running position and
/// profit-and-loss accumulator, and the kill switch. In a concurrent
/// deployment every field that takes part in a pass/fail decision is a
/// single machine word, read and written atomically.
pub struct RiskControl {
    max_position: i64,
    current_position: i64,
    kill_switch: bool,
    /// Fixed-point accumulator.
    total_pnl: i64,
}

impl RiskControl {
    /// Whether the kill switch has been tripped.
    pub closed spec fn halted(self) -> bool {
        self.kill_switch
    }

    pub closed spec fn max_position_spec(self) -> int {
        self.max_position as int
    }

    pub closed spec fn current_position_spec(self) -> int {
        self.current_position as int
    }

    pub closed spec fn total_pnl_spec(self) -> int {
        self.total_pnl as int
    }

    /// The accept/reject decision: an order is accepted exactly when
    /// the kill switch is clear and the position implied by the order stays
    /// within the limit (the boundary itself is accepted).
    pub open spec fn accepts(self, order: Order, current_pos: i64) -> bool {
        &&& !self.halted()
        &&& -self.max_position_spec() <= current_pos + order_delta(order)
            <= self.max_position_spec()
    }

    pub fn new(max_position: i64) -> (r: Self)
        ensures
            r.max_position_spec() == max_position,
            !r.halted(),
            r.current_position_spec() == 0,
            r.total_pnl_spec() == 0,
    {
        RiskControl {
            max_position,
            current_position: 0,
            kill_switch: false,
            total_pnl: 0,
        }
    }

    /// Pure predicate: does not mutate any state. The position is supplied by
    /// the caller, so the same gate can validate hypothetical positions;
    /// bookkeeping on confirmed fills is the caller's responsibility.
    pub fn check_pre_trade(&self, order: &Order, current_pos: i64) -> (r: bool)
        ensures
            r == self.accepts(*order, current_pos),
    {
        if self.kill_switch {
            return false;
        }

        let quantity: i128 = order.quantity as i128;
        let delta: i128 = if order.side == 0 {
            quantity
        } else {
            -quantity
        };

        let new_pos: i128 = current_pos as i128 + delta;
        let limit: i128 = self.max_position as i128;

        if new_pos > limit || new_pos < -limit {
            return false;
        }

        true
    }

    /// Trips the kill switch. There is no reset in this core: re-enabling
    /// trading is an explicit, separately-authorized external action.
    pub fn trigger_kill_switch(&mut self)
        ensures
            final(self).halted(),
            final(self).max_position_spec() == old(self).max_position_spec(),
            final(self).current_position_spec() == old(self).current_position_spec(),
            final(self).total_pnl_spec() == old(self).total_pnl_spec(),
    {
        self.kill_switch = true;
    }

    pub fn is_halted(&self) -> (r: bool)
        ensures
            r == self.halted(),
    {
        self.kill_switch
    }
}

/// Once the kill switch is engaged, every order is rejected, whatever
/// its side, quantity, or the position it is checked against.
pub proof fn lemma_halted_rejects_all(gate: RiskControl, order: Order, current_pos: i64)
    requires
        gate.halted(),
    ensures
        !gate.accepts(order, current_pos),
{
}

/// With the kill switch clear, acceptance is decided by the position limit
/// alone: an order is accepted if and only if the magnitude of the implied
/// position is at most the limit, so the boundary case is accepted and
/// anything beyond it is rejected.
pub proof fn lemma_limit_decides(gate: RiskControl, order: Order, current_pos: i64)
    requires
        !gate.halted(),
    ensures
        gate.accepts(order, current_pos) <==> -gate.max_position_spec()
            <= current_pos + order_delta(order) <= gate.max_position_spec(),
{
}

} // verus!
