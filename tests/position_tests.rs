use pumpfun_sniper::extract::NewTokenInfo;
use pumpfun_sniper::intake::{buy_info_from_quote, complete_intake};
use pumpfun_sniper::position::{
    observe_price, open_position, settle_sale, BuyInfo, Config, PositionStatus, SellOrder,
    SellTarget, TokenPosition,
};
use pumpfun_sniper::store::PositionStore;

fn config() -> Config {
    Config {
        rpc_url: String::new(),
        ws_url: String::new(),
        buy_amount_lamports: 100_000_000,
        slippage_bps: 50,
        profit_target_1: 40_000,
        profit_target_2: 80_000,
        sell_percentage_1: 50,
        sell_percentage_2: 100,
    }
}

fn fresh(price: u64, amount: u64) -> TokenPosition {
    let token = NewTokenInfo {
        mint_address: [1u8; 32],
        name: "Moon Cat".to_string(),
        symbol: "MCAT".to_string(),
        transaction_signature: "sig".to_string(),
    };
    let buy = BuyInfo {
        sol_amount_lamports: 100_000_000,
        token_amount: amount,
        token_price: price,
        transaction_signature: "buy".to_string(),
    };
    open_position(token, &buy, &config(), 1_000)
}

#[test]
fn fresh_position_is_active_with_targets() {
    let p = fresh(1_000_000, 2_000_000);
    assert_eq!(p.sold_percentage, 0);
    assert_eq!(p.status, PositionStatus::Active);
    assert_eq!(p.profit_target_1, 4_000_000);
    assert_eq!(p.profit_target_2, 8_000_000);
    assert_eq!(p.current_price, 1_000_000);
    assert_eq!(p.buy_time, 1_000);
    assert_eq!(p.status.label(), "Active");
}

#[test]
fn first_target_sells_half_at_four_and_a_half_x() {
    let cfg = config();
    let mut p = fresh(1_000_000, 2_000_000);
    let order = observe_price(&mut p, &cfg, 4_500_000, 2_000).unwrap();
    assert_eq!(order, SellOrder { target: SellTarget::First, amount: 1_000_000 });
    assert_eq!(p.current_price, 4_500_000);
    assert_eq!(p.last_updated, 2_000);
    settle_sale(&mut p, &cfg, order.target, true);
    assert_eq!(p.sold_percentage, 50);
    assert_eq!(p.status, PositionStatus::Sold(50));
    assert_eq!(p.status.label(), "Sold 50%");
}

#[test]
fn both_targets_advance_in_two_ticks() {
    let cfg = config();
    let mut p = fresh(1_000_000, 2_000_000);
    let first = observe_price(&mut p, &cfg, 9_000_000, 2_000).unwrap();
    assert_eq!(first.target, SellTarget::First);
    settle_sale(&mut p, &cfg, first.target, true);
    assert_eq!(p.sold_percentage, 50);
    let second = observe_price(&mut p, &cfg, 9_000_000, 3_000).unwrap();
    assert_eq!(second, SellOrder { target: SellTarget::Second, amount: 1_000_000 });
    settle_sale(&mut p, &cfg, second.target, true);
    assert_eq!(p.sold_percentage, 100);
    assert_eq!(p.status, PositionStatus::FullySold);
    assert_eq!(p.status.label(), "Fully Sold");
}

#[test]
fn failed_sale_leaves_position_for_next_tick() {
    let cfg = config();
    let mut p = fresh(1_000_000, 2_000_000);
    let order = observe_price(&mut p, &cfg, 4_500_000, 2_000).unwrap();
    settle_sale(&mut p, &cfg, order.target, false);
    assert_eq!(p.sold_percentage, 0);
    assert_eq!(p.status, PositionStatus::Active);
    assert_eq!(observe_price(&mut p, &cfg, 4_500_000, 3_000), Some(order));
}

#[test]
fn below_target_calls_for_no_sale() {
    let cfg = config();
    let mut p = fresh(1_000_000, 2_000_000);
    assert_eq!(observe_price(&mut p, &cfg, 3_999_999, 2_000), None);
    assert_eq!(observe_price(&mut p, &cfg, 4_000_000, 2_000).map(|o| o.target), Some(SellTarget::First));
}

#[test]
fn fully_sold_position_is_left_alone() {
    let cfg = config();
    let mut p = fresh(1_000_000, 2_000_000);
    p.sold_percentage = 100;
    p.status = PositionStatus::FullySold;
    assert_eq!(observe_price(&mut p, &cfg, 50_000_000, 9_000), None);
    assert_eq!(p.current_price, 1_000_000);
    assert_eq!(p.last_updated, 1_000);
    let mut store = PositionStore::new();
    store.insert(p);
    assert!(store.open_indices().is_empty());
    assert_eq!(store.observe_price_at(0, &cfg, 50_000_000, 9_000), None);
    assert_eq!(store.get(0).current_price, 1_000_000);
}

#[test]
fn inserts_are_all_visited_once_by_a_sweep() {
    let mut store = PositionStore::new();
    for i in 0..7u64 {
        store.insert(fresh(1_000 + i, 10));
    }
    let idx = store.open_indices();
    assert_eq!(idx, vec![0, 1, 2, 3, 4, 5, 6]);
    assert_eq!(store.snapshot().len(), 7);
}

#[test]
fn sweep_skips_sold_out_positions() {
    let cfg = config();
    let mut store = PositionStore::new();
    store.insert(fresh(1_000_000, 10));
    store.insert(fresh(1_000_000, 10));
    store.insert(fresh(1_000_000, 10));
    let o = store.observe_price_at(1, &cfg, 9_000_000, 5).unwrap();
    store.settle_sale_at(1, &cfg, o.target, true);
    let o = store.observe_price_at(1, &cfg, 9_000_000, 6).unwrap();
    store.settle_sale_at(1, &cfg, o.target, true);
    assert_eq!(store.get(1).sold_percentage, 100);
    assert_eq!(store.open_indices(), vec![0, 2]);
    assert_eq!(store.len(), 3);
}

#[test]
fn completed_intake_appends_position() {
    let mut store = PositionStore::new();
    let token = NewTokenInfo {
        mint_address: [2u8; 32],
        name: "Dog".to_string(),
        symbol: "DOG".to_string(),
        transaction_signature: "sig".to_string(),
    };
    let buy = buy_info_from_quote(100_000_000, 3_000_000_000_000, "buy".to_string()).unwrap();
    assert_eq!(buy.token_price, 33_333);
    complete_intake(&mut store, token, Some(buy), &config(), 42);
    assert_eq!(store.len(), 1);
    let p = store.get(0);
    assert_eq!(p.mint_address, [2u8; 32]);
    assert_eq!(p.token_amount, 3_000_000_000_000);
    assert_eq!(p.buy_price, 33_333);
    assert_eq!(p.buy_time, 42);
    assert_eq!(p.profit_target_1, 133_332);
}

#[test]
fn quote_without_output_gives_no_buy_info() {
    assert!(buy_info_from_quote(100, 0, "x".to_string()).is_none());
    assert!(buy_info_from_quote(u64::MAX, 1, "x".to_string()).is_none());
}
