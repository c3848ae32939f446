use pumpfun_sniper::extract::{event_from_notification, extract_token_info_from_logs, mentions_create};
use std::str::FromStr;

const MINT: &str = "So11111111111111111111111111111111111111112";
const OTHER_MINT: &str = "6EF8rrecthR5Dkzon8Nwu78hRvfCKubJ14M5uBEwF6P";

fn bytes_of(s: &str) -> [u8; 32] {
    solana_sdk::pubkey::Pubkey::from_str(s).unwrap().to_bytes()
}

fn lines(v: &[&str]) -> Vec<String> {
    v.iter().map(|s| s.to_string()).collect()
}

#[test]
fn extract_full_event() {
    let logs = lines(&[
        "Program log: Instruction: Create",
        &format!("Program log: mint: {}", MINT),
        "Program log: name: Moon Cat ",
        "Program log: symbol:  MCAT",
    ]);
    let info = extract_token_info_from_logs(&logs, "sig1".to_string()).unwrap();
    assert_eq!(info.mint_address, bytes_of(MINT));
    assert_eq!(info.name, "Moon Cat");
    assert_eq!(info.symbol, "MCAT");
    assert_eq!(info.transaction_signature, "sig1");
}

#[test]
fn extract_without_mint_marker_is_none() {
    let logs = lines(&["Program log: create", "Program log: name: X", "symbol: Y"]);
    assert!(extract_token_info_from_logs(&logs, "s".to_string()).is_none());
    assert!(extract_token_info_from_logs(&Vec::new(), "s".to_string()).is_none());
}

#[test]
fn extract_missing_name_and_symbol_uses_defaults() {
    let logs = lines(&[&format!("mint: {}", MINT)]);
    let info = extract_token_info_from_logs(&logs, "s".to_string()).unwrap();
    assert_eq!(info.mint_address, bytes_of(MINT));
    assert_eq!(info.name, "Unknown Token");
    assert_eq!(info.symbol, "UNKNOWN");
}

#[test]
fn extract_short_mint_candidate_is_ignored() {
    let logs = lines(&["mint: So1111111111", "name: Short"]);
    assert!(extract_token_info_from_logs(&logs, "s".to_string()).is_none());
}

#[test]
fn extract_unparsable_mint_abandons_its_line() {
    // '0' is not a base58 digit: the candidate is long enough but does not parse,
    // so the name on the same line is not taken.
    let logs = lines(&[
        &format!("mint: {}", MINT),
        "mint: 0000000000000000000000000000000000000000 name: Lost",
    ]);
    let info = extract_token_info_from_logs(&logs, "s".to_string()).unwrap();
    assert_eq!(info.mint_address, bytes_of(MINT));
    assert_eq!(info.name, "Unknown Token");
}

#[test]
fn extract_last_valid_mint_wins() {
    let logs = lines(&[
        &format!("mint: {}", MINT),
        &format!("mint:\t{}  ", OTHER_MINT),
        "mint: short",
    ]);
    let info = extract_token_info_from_logs(&logs, "s".to_string()).unwrap();
    assert_eq!(info.mint_address, bytes_of(OTHER_MINT));
}

#[test]
fn extract_takes_text_up_to_next_marker() {
    let logs = lines(&[&format!("mint: {}", MINT), "name: A name: B"]);
    let info = extract_token_info_from_logs(&logs, "s".to_string()).unwrap();
    assert_eq!(info.name, "A");
}

#[test]
fn notification_without_create_gives_no_event() {
    let logs = lines(&[&format!("mint: {}", MINT), "name: Token"]);
    assert!(!mentions_create(&logs));
    assert!(event_from_notification(&logs, "s".to_string()).is_none());
}

#[test]
fn notification_with_create_is_extracted() {
    let logs = lines(&["Program log: Instruction: create", &format!("mint: {}", MINT)]);
    assert!(mentions_create(&logs));
    let info = event_from_notification(&logs, "tx".to_string()).unwrap();
    assert_eq!(info.mint_address, bytes_of(MINT));
    assert_eq!(info.transaction_signature, "tx");
}
