use hft_core::risk::{Order, RiskControl};

fn buy_order(quantity: u64) -> Order {
    Order {
        order_id: 1,
        asset_id: 7,
        side: 0,
        price: 100_000_000,
        quantity,
        submit_time_ns: 0,
        venue_id: 1,
        is_active: true,
    }
}

fn sell_order(quantity: u64) -> Order {
    Order { side: 1, ..buy_order(quantity) }
}

#[test]
fn boundary_position_is_accepted() {
    let gate = RiskControl::new(1000);
    assert!(gate.check_pre_trade(&buy_order(50), 950));
    assert!(!gate.check_pre_trade(&buy_order(51), 950));
}

#[test]
fn sell_side_subtracts_from_position() {
    let gate = RiskControl::new(1000);
    assert!(gate.check_pre_trade(&sell_order(50), -950));
    assert!(!gate.check_pre_trade(&sell_order(51), -950));
    assert!(gate.check_pre_trade(&sell_order(500), 300));
}

#[test]
fn kill_switch_rejects_every_order() {
    let mut gate = RiskControl::new(1_000_000);
    assert!(gate.check_pre_trade(&buy_order(1), 0));
    gate.trigger_kill_switch();
    assert!(gate.is_halted());
    assert!(!gate.check_pre_trade(&buy_order(1), 0));
    assert!(!gate.check_pre_trade(&buy_order(0), 0));
    assert!(!gate.check_pre_trade(&sell_order(10), -500));
}

#[test]
fn is_halted_is_stable_without_mutation() {
    let mut gate = RiskControl::new(10);
    assert!(!gate.is_halted());
    assert!(!gate.is_halted());
    gate.trigger_kill_switch();
    assert!(gate.is_halted());
    assert!(gate.is_halted());
}

#[test]
fn extreme_quantities_are_rejected_exactly() {
    let gate = RiskControl::new(1000);
    assert!(!gate.check_pre_trade(&buy_order(u64::MAX), 0));
    assert!(!gate.check_pre_trade(&sell_order(u64::MAX), 0));
    assert!(gate.check_pre_trade(&buy_order(1000), 0));
    assert!(!gate.check_pre_trade(&buy_order(1001), 0));
}
