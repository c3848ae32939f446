use pumpfun_sniper::amounts::{format_sol_amount, format_token_amount, quote_price};
use pumpfun_sniper::config::{replace_all, ws_url_from_rpc};
use pumpfun_sniper::keys::{keypair_bytes_from_base58, KeyError};
use pumpfun_sniper::retry::{after_attempt, RetryAction};
use pumpfun_sniper::subscription::{LinkAction, LinkEvent, Phase, SubscriptionManager};

const PROGRAM: &str = "6EF8rrecthR5Dkzon8Nwu78hRvfCKubJ14M5uBEwF6P";

#[test]
fn stream_end_waits_five_seconds_then_resubscribes() {
    let mut m = SubscriptionManager::new(PROGRAM).unwrap();
    assert_eq!(m.phase, Phase::Subscribing);
    assert_eq!(m.step(LinkEvent::Subscribed), LinkAction::Receive);
    assert_eq!(m.step(LinkEvent::StreamEnded), LinkAction::Wait(5));
    assert_eq!(m.step(LinkEvent::DelayElapsed), LinkAction::Subscribe);
    assert_eq!(m.filter, PROGRAM);
    assert_eq!(m.phase, Phase::Subscribing);
}

#[test]
fn failed_subscription_is_retried_after_backoff() {
    let mut m = SubscriptionManager::new(PROGRAM).unwrap();
    assert_eq!(m.step(LinkEvent::SubscribeFailed), LinkAction::Wait(5));
    assert_eq!(m.step(LinkEvent::DelayElapsed), LinkAction::Subscribe);
    assert_eq!(m.step(LinkEvent::Subscribed), LinkAction::Receive);
    assert_eq!(m.step(LinkEvent::StreamFailed), LinkAction::Wait(5));
}

#[test]
fn invalid_program_id_is_a_config_error() {
    assert!(SubscriptionManager::new("not-a-key").is_none());
    assert!(SubscriptionManager::new("").is_none());
}

#[test]
fn sol_amounts_have_nine_decimals() {
    assert_eq!(format_sol_amount(1_500_000_000), "1.500000000 SOL");
    assert_eq!(format_sol_amount(0), "0.000000000 SOL");
    assert_eq!(format_sol_amount(42), "0.000000042 SOL");
    assert_eq!(format_sol_amount(u64::MAX), "18446744073.709551615 SOL");
}

#[test]
fn token_amounts_scale_by_decimals() {
    assert_eq!(format_token_amount(1_234_567, 6), "1.234567000");
    assert_eq!(format_token_amount(5, 0), "5.000000000");
    assert_eq!(format_token_amount(15, 10), "0.000000002");
    assert_eq!(format_token_amount(25, 10), "0.000000002");
    assert_eq!(format_token_amount(26, 10), "0.000000003");
    assert_eq!(format_token_amount(u64::MAX, 19), "1.844674407");
}

#[test]
fn quote_price_per_whole_token() {
    assert_eq!(quote_price(100_000_000, 3_000_000_000_000), Some(33_333));
    assert_eq!(quote_price(1, 0), None);
}

#[test]
fn websocket_endpoint_from_rpc_endpoint() {
    assert_eq!(ws_url_from_rpc("https://api.devnet.solana.com"), "wss://api.devnet.solana.com");
    assert_eq!(ws_url_from_rpc("http://localhost:8899"), "ws://localhost:8899");
    assert_eq!(ws_url_from_rpc("localhost:8899"), "wss://api.mainnet-beta.solana.com");
    assert_eq!(ws_url_from_rpc("https://a/https://b"), "wss://a/wss://b");
    assert_eq!(replace_all("aXbXc", "X", "--"), "a--b--c");
}

#[test]
fn key_text_is_widened_to_keypair_bytes() {
    let secret: Vec<u8> = (1u8..=32).collect();
    let text = bs58::encode(&secret).into_string();
    let k = keypair_bytes_from_base58(&text).unwrap();
    assert_eq!(&k[..32], &secret[..]);
    assert_eq!(&k[32..], &[0u8; 32][..]);
    let full: Vec<u8> = (1u8..=64).collect();
    let k = keypair_bytes_from_base58(&bs58::encode(&full).into_string()).unwrap();
    assert_eq!(&k[..], &full[..]);
}

#[test]
fn bad_key_text_is_refused() {
    assert_eq!(keypair_bytes_from_base58("0OIl"), Err(KeyError::InvalidFormat));
    let short = bs58::encode(&[9u8, 9, 9]).into_string();
    assert_eq!(keypair_bytes_from_base58(&short), Err(KeyError::InvalidLength(3)));
}

#[test]
fn retry_policy_gives_three_attempts() {
    assert_eq!(after_attempt(1, true), RetryAction::Done);
    assert_eq!(after_attempt(1, false), RetryAction::RetryAfter(500));
    assert_eq!(after_attempt(2, false), RetryAction::RetryAfter(500));
    assert_eq!(after_attempt(3, false), RetryAction::GiveUp);
}

