use pumpfun_sniper::extract::NewTokenInfo;
use pumpfun_sniper::filter::{is_safe_lowered, is_token_safe};
use pumpfun_sniper::intake::{complete_intake, plan_intake};
use pumpfun_sniper::position::Config;
use pumpfun_sniper::store::PositionStore;

fn token(name: &str, symbol: &str) -> NewTokenInfo {
    NewTokenInfo {
        mint_address: [7u8; 32],
        name: name.to_string(),
        symbol: symbol.to_string(),
        transaction_signature: "sig".to_string(),
    }
}

fn config() -> Config {
    Config {
        rpc_url: "https://api.mainnet-beta.solana.com".to_string(),
        ws_url: "wss://api.mainnet-beta.solana.com".to_string(),
        buy_amount_lamports: 100_000_000,
        slippage_bps: 50,
        profit_target_1: 40_000,
        profit_target_2: 80_000,
        sell_percentage_1: 50,
        sell_percentage_2: 100,
    }
}

#[test]
fn scam_named_token_is_rejected_and_not_bought() {
    let t = token("MoonRugPonzi", "MRP");
    assert!(!is_token_safe(&t));
    let mut store = PositionStore::new();
    assert!(plan_intake(&t, &config()).is_none());
    complete_intake(&mut store, t, None, &config(), 0);
    assert_eq!(store.len(), 0);
}

#[test]
fn plain_token_is_accepted_with_buy_request() {
    let t = token("Moon Cat", "MCAT");
    assert!(is_token_safe(&t));
    let req = plan_intake(&t, &config()).unwrap();
    assert_eq!(req.mint, [7u8; 32]);
    assert_eq!(req.amount_lamports, 100_000_000);
    assert_eq!(req.slippage_bps, 50);
}

#[test]
fn keyword_in_symbol_is_rejected_whatever_its_case() {
    assert!(!is_token_safe(&token("Nice", "SCAM")));
    assert!(!is_token_safe(&token("Honey Pot Inu", "HPI")));
    assert!(!is_token_safe(&token("Get 1000X", "G")));
}

#[test]
fn long_symbol_is_rejected() {
    assert!(!is_token_safe(&token("Long", "ABCDEFGHIJK")));
    assert!(is_token_safe(&token("Long", "ABCDEFGHIJ")));
}

#[test]
fn lowered_screen_is_case_sensitive() {
    assert!(is_safe_lowered("SCAM", "x"));
    assert!(!is_safe_lowered("scam", "x"));
}
