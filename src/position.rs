//! Positions and the profit-target state machine that drives their partial and total exits.
//!
//! Prices are integers in thousandths of a lamport per whole token (the unit of
//! `amounts::quote_price`); profit-target multipliers are integers in `RATIO_SCALE` parts of one (4x is
//! `4 * RATIO_SCALE`); percentages are whole numbers from 0 to 100; token amounts are in the
//! token's smallest unit; times are milliseconds since the Unix epoch.
use vstd::prelude::*;
use crate::extract::NewTokenInfo;
use crate::amounts::{decimal, push_decimal};

verus! {

/// The multiplier 1x.
pub const RATIO_SCALE: u64 = 10_000;

/// The percentage of a position that is all of it.
pub const FULL_PERCENTAGE: u64 = 100;

/// Trading parameters of the application.
pub struct Config {
    pub rpc_url: String,
    pub ws_url: String,
    pub buy_amount_lamports: u64,
    pub slippage_bps: u64,
    pub profit_target_1: u64,
    pub profit_target_2: u64,
    pub sell_percentage_1: u64,
    pub sell_percentage_2: u64,
}

impl Config {
    /// Sell percentages lie in [0, 100].
    pub open spec fn wf(&self) -> bool {
        self.sell_percentage_1 <= FULL_PERCENTAGE && self.sell_percentage_2 <= FULL_PERCENTAGE
    }
}

/// Lifecycle tag of a position.
#[derive(PartialEq, Eq, Structural, Clone, Copy, Debug)]
pub enum PositionStatus {
    Active,
    Sold(u64),
    FullySold,
}

impl PositionStatus {
    /// Display text of the status: `Active`, `Sold <p>%` or `Fully Sold`.
    pub open spec fn label_spec(self) -> Seq<char> {
        match self {
            PositionStatus::Active => seq!['A', 'c', 't', 'i', 'v', 'e'],
            PositionStatus::Sold(p) => seq!['S', 'o', 'l', 'd', ' '] + decimal(p as nat) + seq!['%'],
            PositionStatus::FullySold => seq!['F', 'u', 'l', 'l', 'y', ' ', 'S', 'o', 'l', 'd'],
        }
    }

    /// Display text of the status (see `label_spec`).
    pub fn label(&self) -> (r: String)
        ensures
            r@ == self.label_spec(),
    {
        match self {
            PositionStatus::Active => {
                proof {
                    reveal_strlit("Active");
                }
                "Active".to_owned()
            },
            PositionStatus::Sold(p) => {
                proof {
                    reveal_strlit("Sold ");
                }
                let mut s = "Sold ".to_owned();
                push_decimal(&mut s, *p as u128);
                s.push('%');
                s
            },
            PositionStatus::FullySold => {
                proof {
                    reveal_strlit("Fully Sold");
                }
                "Fully Sold".to_owned()
            },
        }
    }
}

/// Which profit target an exit serves.
#[derive(PartialEq, Eq, Structural, Clone, Copy, Debug)]
pub enum SellTarget {
    First,
    Second,
}

/// An exit to perform: sell `amount` smallest units of the token for `target`.
#[derive(PartialEq, Eq, Structural, Clone, Copy, Debug)]
pub struct SellOrder {
    pub target: SellTarget,
    pub amount: u64,
}

/// What a successful buy reported.
pub struct BuyInfo {
    pub sol_amount_lamports: u64,
    pub token_amount: u64,
    pub token_price: u64,
    pub transaction_signature: String,
}

/// An open or closed position in one token.
pub struct TokenPosition {
    pub mint_address: [u8; 32],
    pub name: String,
    pub symbol: String,
    pub buy_price: u64,
    pub buy_amount_lamports: u64,
    pub token_amount: u64,
    pub current_price: u64,
    pub buy_time: i64,
    pub profit_target_1: u128,
    pub profit_target_2: u128,
    pub sold_percentage: u64,
    pub last_updated: i64,
    pub status: PositionStatus,
}

/// `price / buy_price >= multiplier / RATIO_SCALE`, without division.
pub open spec fn ratio_reached(price: u64, buy_price: u64, multiplier: u64) -> bool {
    price * RATIO_SCALE >= multiplier * buy_price
}

/// `percentage` percent of `amount`, rounded down.
pub open spec fn share_of(amount: u64, percentage: u64) -> int {
    amount * percentage / 100
}

/// The absolute price threshold of a multiplier.
pub open spec fn target_price(buy_price: u64, multiplier: u64) -> int {
    buy_price * multiplier / RATIO_SCALE as int
}

/// The exit that a position calls for at `price`: the first target takes precedence, and
/// a fully sold position calls for none.
pub open spec fn plan_spec(p: TokenPosition, cfg: Config, price: u64) -> Option<SellOrder> {
    if p.sold_percentage >= FULL_PERCENTAGE {
        None
    } else if p.sold_percentage < cfg.sell_percentage_1 && ratio_reached(
        price,
        p.buy_price,
        cfg.profit_target_1,
    ) {
        Some(
            SellOrder {
                target: SellTarget::First,
                amount: share_of(p.token_amount, cfg.sell_percentage_1) as u64,
            },
        )
    } else if p.sold_percentage < cfg.sell_percentage_2 && ratio_reached(
        price,
        p.buy_price,
        cfg.profit_target_2,
    ) {
        Some(
            SellOrder {
                target: SellTarget::Second,
                amount: share_of(
                    p.token_amount,
                    (cfg.sell_percentage_2 - p.sold_percentage) as u64,
                ) as u64,
            },
        )
    } else {
        None
    }
}

/// The position once a price was observed.
pub open spec fn priced_spec(p: TokenPosition, price: u64, now: i64) -> TokenPosition {
    TokenPosition { current_price: price, last_updated: now, ..p }
}

/// The position once an exit for `target` went through.
pub open spec fn sold_spec(p: TokenPosition, cfg: Config, target: SellTarget) -> TokenPosition {
    match target {
        SellTarget::First => TokenPosition {
            sold_percentage: cfg.sell_percentage_1,
            status: PositionStatus::Sold(cfg.sell_percentage_1),
            ..p
        },
        SellTarget::Second => TokenPosition {
            sold_percentage: cfg.sell_percentage_2,
            status: PositionStatus::FullySold,
            ..p
        },
    }
}

/// One poll of a position: `price` is what the price query gave (`None` on failure) and
/// `sell_ok` whether the exit it called for, if any, went through.
pub open spec fn tick_spec(
    p: TokenPosition,
    cfg: Config,
    price: Option<u64>,
    now: i64,
    sell_ok: bool,
) -> TokenPosition {
    if p.sold_percentage >= FULL_PERCENTAGE {
        p
    } else {
        match price {
            None => p,
            Some(q) => {
                let priced = priced_spec(p, q, now);
                match plan_spec(priced, cfg, q) {
                    Some(o) => if sell_ok {
                        sold_spec(priced, cfg, o.target)
                    } else {
                        priced
                    },
                    None => priced,
                }
            },
        }
    }
}

impl TokenPosition {
    /// A copy of the position.
    pub fn duplicate(&self) -> (r: TokenPosition)
        ensures
            r == *self,
    {
        TokenPosition {
            mint_address: self.mint_address,
            name: self.name.clone(),
            symbol: self.symbol.clone(),
            buy_price: self.buy_price,
            buy_amount_lamports: self.buy_amount_lamports,
            token_amount: self.token_amount,
            current_price: self.current_price,
            buy_time: self.buy_time,
            profit_target_1: self.profit_target_1,
            profit_target_2: self.profit_target_2,
            sold_percentage: self.sold_percentage,
            last_updated: self.last_updated,
            status: self.status,
        }
    }

    /// Whether the position still holds tokens to sell.
    pub fn is_open(&self) -> (r: bool)
        ensures
            r == (self.sold_percentage < FULL_PERCENTAGE),
    {
        self.sold_percentage < FULL_PERCENTAGE
    }
}

proof fn lemma_product_fits(a: u64, b: u64)
    ensures
        0 <= a * b <= u128::MAX,
{
    assert(0 <= a * b <= (u64::MAX as int) * (u64::MAX as int)) by (nonlinear_arith)
        requires
            a <= u64::MAX,
            b <= u64::MAX,
    ;
}

/// `percentage` percent of `amount`, rounded down.
pub fn share(amount: u64, percentage: u64) -> (r: u64)
    requires
        percentage <= FULL_PERCENTAGE,
    ensures
        r == share_of(amount, percentage),
        r <= amount,
{
    proof {
        lemma_product_fits(amount, percentage);
    }
    let v = (amount as u128) * (percentage as u128) / 100;
    assert(v <= amount) by (nonlinear_arith)
        requires
            v == (amount as u128) * (percentage as u128) / 100,
            percentage <= 100,
    ;
    v as u64
}

/// Whether `price` has reached `multiplier` times `buy_price`.
pub fn ratio_at_least(price: u64, buy_price: u64, multiplier: u64) -> (r: bool)
    ensures
        r == ratio_reached(price, buy_price, multiplier),
{
    proof {
        lemma_product_fits(price, RATIO_SCALE);
        lemma_product_fits(multiplier, buy_price);
    }
    (price as u128) * (RATIO_SCALE as u128) >= (multiplier as u128) * (buy_price as u128)
}

/// The exit that `pos` calls for at `price`, if any.
pub fn plan_sell(pos: &TokenPosition, cfg: &Config, price: u64) -> (r: Option<SellOrder>)
    requires
        cfg.wf(),
    ensures
        r == plan_spec(*pos, *cfg, price),
{
    if pos.sold_percentage >= FULL_PERCENTAGE {
        None
    } else if pos.sold_percentage < cfg.sell_percentage_1 && ratio_at_least(
        price,
        pos.buy_price,
        cfg.profit_target_1,
    ) {
        Some(SellOrder { target: SellTarget::First, amount: share(pos.token_amount, cfg.sell_percentage_1) })
    } else if pos.sold_percentage < cfg.sell_percentage_2 && ratio_at_least(
        price,
        pos.buy_price,
        cfg.profit_target_2,
    ) {
        let remaining = cfg.sell_percentage_2 - pos.sold_percentage;
        Some(SellOrder { target: SellTarget::Second, amount: share(pos.token_amount, remaining) })
    } else {
        None
    }
}

/// Records an observed price and returns the exit that the position then calls for.
/// A fully sold position is left untouched and calls for nothing.
pub fn observe_price(pos: &mut TokenPosition, cfg: &Config, price: u64, now: i64) -> (r: Option<
    SellOrder,
>)
    requires
        cfg.wf(),
    ensures
        old(pos).sold_percentage >= FULL_PERCENTAGE ==> *final(pos) == *old(pos) && r is None,
        old(pos).sold_percentage < FULL_PERCENTAGE ==> *final(pos) == priced_spec(*old(pos), price, now),
        r == plan_spec(*final(pos), *cfg, price),
{
    if pos.sold_percentage >= FULL_PERCENTAGE {
        return None;
    }
    pos.current_price = price;
    pos.last_updated = now;
    plan_sell(pos, cfg, price)
}

/// Records the outcome of an exit that `observe_price` called for: on success the sold
/// percentage and status advance to the target's; on failure nothing changes.
pub fn settle_sale(pos: &mut TokenPosition, cfg: &Config, target: SellTarget, sold: bool)
    ensures
        sold ==> *final(pos) == sold_spec(*old(pos), *cfg, target),
        !sold ==> *final(pos) == *old(pos),
{
    if sold {
        match target {
            SellTarget::First => {
                pos.sold_percentage = cfg.sell_percentage_1;
                pos.status = PositionStatus::Sold(cfg.sell_percentage_1);
            },
            SellTarget::Second => {
                pos.sold_percentage = cfg.sell_percentage_2;
                pos.status = PositionStatus::FullySold;
            },
        }
    }
}

/// `p` is the fresh position for `token` bought as `buy` reports at time `now`: active,
/// nothing sold, both profit targets derived from the buy price.
pub open spec fn opened_from(p: TokenPosition, token: NewTokenInfo, buy: BuyInfo, cfg: Config, now: i64) -> bool {
    &&& p.mint_address == token.mint_address
    &&& p.name == token.name
    &&& p.symbol == token.symbol
    &&& p.buy_price == buy.token_price
    &&& p.buy_amount_lamports == buy.sol_amount_lamports
    &&& p.token_amount == buy.token_amount
    &&& p.current_price == buy.token_price
    &&& p.buy_time == now
    &&& p.last_updated == now
    &&& p.profit_target_1 == target_price(buy.token_price, cfg.profit_target_1)
    &&& p.profit_target_2 == target_price(buy.token_price, cfg.profit_target_2)
    &&& p.sold_percentage == 0
    &&& p.status == PositionStatus::Active
}

/// A fresh position for a token just bought.
pub fn open_position(token: NewTokenInfo, buy: &BuyInfo, cfg: &Config, now: i64) -> (r:
    TokenPosition)
    ensures
        opened_from(r, token, *buy, *cfg, now),
{
    proof {
        lemma_product_fits(buy.token_price, cfg.profit_target_1);
        lemma_product_fits(buy.token_price, cfg.profit_target_2);
    }
    let t1 = (buy.token_price as u128) * (cfg.profit_target_1 as u128) / (RATIO_SCALE as u128);
    let t2 = (buy.token_price as u128) * (cfg.profit_target_2 as u128) / (RATIO_SCALE as u128);
    TokenPosition {
        mint_address: token.mint_address,
        name: token.name,
        symbol: token.symbol,
        buy_price: buy.token_price,
        buy_amount_lamports: buy.sol_amount_lamports,
        token_amount: buy.token_amount,
        current_price: buy.token_price,
        buy_time: now,
        profit_target_1: t1,
        profit_target_2: t2,
        sold_percentage: 0,
        last_updated: now,
        status: PositionStatus::Active,
    }
}

/// A poll never lowers the sold percentage, and keeps it within [0, 100].
pub proof fn lemma_tick_monotone(
    p: TokenPosition,
    cfg: Config,
    price: Option<u64>,
    now: i64,
    sell_ok: bool,
)
    requires
        cfg.wf(),
    ensures
        tick_spec(p, cfg, price, now, sell_ok).sold_percentage >= p.sold_percentage,
        p.sold_percentage <= FULL_PERCENTAGE ==> tick_spec(
            p,
            cfg,
            price,
            now,
            sell_ok,
        ).sold_percentage <= FULL_PERCENTAGE,
{
}

/// A fully sold position is left as it is by a poll, whatever the price and sale outcome.
pub proof fn lemma_tick_idle_when_sold_out(
    p: TokenPosition,
    cfg: Config,
    price: Option<u64>,
    now: i64,
    sell_ok: bool,
)
    requires
        p.sold_percentage >= FULL_PERCENTAGE,
    ensures
        tick_spec(p, cfg, price, now, sell_ok) == p,
        plan_spec(p, cfg, price->Some_0) is None,
{
}

/// Two-step advancement: a fresh position whose price clears both targets at once sells
/// for the first target on the first poll, and for the second on the next poll that still
/// clears the second target, ending fully sold.
pub proof fn lemma_two_step_advance(
    p: TokenPosition,
    cfg: Config,
    q1: u64,
    q2: u64,
    t1: i64,
    t2: i64,
)
    requires
        cfg.wf(),
        0 < cfg.sell_percentage_1 < cfg.sell_percentage_2,
        p.sold_percentage == 0,
        ratio_reached(q1, p.buy_price, cfg.profit_target_1),
        ratio_reached(q1, p.buy_price, cfg.profit_target_2),
        ratio_reached(q2, p.buy_price, cfg.profit_target_2),
    ensures
        plan_spec(priced_spec(p, q1, t1), cfg, q1)->Some_0.target == SellTarget::First,
        tick_spec(p, cfg, Some(q1), t1, true).sold_percentage == cfg.sell_percentage_1,
        plan_spec(priced_spec(tick_spec(p, cfg, Some(q1), t1, true), q2, t2), cfg, q2)->Some_0.target
            == SellTarget::Second,
        tick_spec(tick_spec(p, cfg, Some(q1), t1, true), cfg, Some(q2), t2, true).sold_percentage
            == cfg.sell_percentage_2,
        tick_spec(tick_spec(p, cfg, Some(q1), t1, true), cfg, Some(q2), t2, true).status
            == PositionStatus::FullySold,
{
}

} // verus!
