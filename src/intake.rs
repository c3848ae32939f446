//! Intake Pipeline: screen a new token, ask for a buy, and open a position once it is done.
//! The buy itself is the caller's: `plan_intake` says whether and what to buy, and
//! `complete_intake` records what came of it.
use vstd::prelude::*;
use crate::extract::NewTokenInfo;
use crate::filter::{is_token_safe, lower_of, safe_spec};
use crate::position::{BuyInfo, Config, open_position, opened_from};
use crate::store::PositionStore;
use crate::amounts::{quote_price, quote_price_spec};

verus! {

/// A buy to perform: spend `amount_lamports` on the token `mint` within `slippage_bps`.
pub struct BuyRequest {
    pub mint: [u8; 32],
    pub amount_lamports: u64,
    pub slippage_bps: u64,
}

/// The token passes the safety screen.
pub open spec fn passes_screen(token: NewTokenInfo) -> bool {
    safe_spec(lower_of(token.name@), lower_of(token.symbol@))
}

/// The buy that intake of `token` calls for: none when the token fails the screen.
pub fn plan_intake(token: &NewTokenInfo, cfg: &Config) -> (r: Option<BuyRequest>)
    ensures
        r is None <==> !passes_screen(*token),
        r matches Some(b) ==> b.mint == token.mint_address && b.amount_lamports
            == cfg.buy_amount_lamports && b.slippage_bps == cfg.slippage_bps,
{
    if !is_token_safe(token) {
        return None;
    }
    Some(
        BuyRequest {
            mint: token.mint_address,
            amount_lamports: cfg.buy_amount_lamports,
            slippage_bps: cfg.slippage_bps,
        },
    )
}

/// Records the outcome of the buy for `token`: a failed buy (`None`) leaves the store as it
/// was; a successful one appends the fresh position.
pub fn complete_intake(
    store: &mut PositionStore,
    token: NewTokenInfo,
    bought: Option<BuyInfo>,
    cfg: &Config,
    now: i64,
)
    ensures
        bought is None ==> final(store)@ == old(store)@,
        bought matches Some(b) ==> final(store)@.len() == old(store)@.len() + 1
            && final(store)@.drop_last() == old(store)@ && opened_from(
            final(store)@.last(),
            token,
            b,
            *cfg,
            now,
        ),
{
    match bought {
        None => {},
        Some(b) => {
            let p = open_position(token, &b, cfg, now);
            store.insert(p);
            assert(store@.drop_last() == old(store)@);
        },
    }
}

/// What a buy reports, from the lamports it spent, the smallest token units its quote
/// promised and its transaction signature; `None` when no price follows (see
/// `quote_price_spec`).
pub fn buy_info_from_quote(lamports_in: u64, units_out: u64, signature: String) -> (r: Option<
    BuyInfo,
>)
    ensures
        r is None <==> quote_price_spec(lamports_in, units_out) is None,
        r matches Some(b) ==> Some(b.token_price) == quote_price_spec(lamports_in, units_out)
            && b.sol_amount_lamports == lamports_in && b.token_amount == units_out
            && b.transaction_signature == signature,
{
    match quote_price(lamports_in, units_out) {
        None => None,
        Some(price) => Some(
            BuyInfo {
                sol_amount_lamports: lamports_in,
                token_amount: units_out,
                token_price: price,
                transaction_signature: signature,
            },
        ),
    }
}

} // verus!
