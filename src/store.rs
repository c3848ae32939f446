//! Position Store: the collection of positions that intake fills and the poller sweeps.
//! Exclusive access is the caller's (one lock around the store); every operation here is a
//! single scoped step under that lock.
use vstd::prelude::*;
use crate::position::{
    Config, FULL_PERCENTAGE, SellOrder, SellTarget, TokenPosition, observe_price, plan_spec,
    priced_spec, settle_sale, sold_spec,
};

verus! {

/// Number of positions in `s` that are still open.
pub open spec fn open_count(s: Seq<TokenPosition>) -> nat
    decreases s.len(),
{
    if s.len() == 0 {
        0
    } else {
        open_count(s.drop_last()) + if s.last().sold_percentage < FULL_PERCENTAGE {
            1nat
        } else {
            0nat
        }
    }
}

/// `idx` lists, once each and in increasing order, exactly the open positions of `s`.
pub open spec fn is_sweep_of(idx: Seq<usize>, s: Seq<TokenPosition>) -> bool {
    &&& forall|k: int, l: int| 0 <= k < l < idx.len() ==> idx[k] < idx[l]
    &&& forall|k: int|
        0 <= k < idx.len() ==> idx[k] < s.len() && (#[trigger] s[idx[k] as int]).sold_percentage
            < FULL_PERCENTAGE
    &&& forall|i: int|
        0 <= i < s.len() && (#[trigger] s[i]).sold_percentage < FULL_PERCENTAGE ==> exists|k: int|
            0 <= k < idx.len() && idx[k] == i
    &&& idx.len() == open_count(s)
}

/// The sweep `idx` visits index `i`.
pub open spec fn visits(idx: Seq<usize>, i: int) -> bool {
    exists|k: int| 0 <= k < idx.len() && idx[k] == i
}

/// The positions, in order of insertion. Positions are never removed: a fully sold one
/// stays with its terminal status.
pub struct PositionStore {
    positions: Vec<TokenPosition>,
}

impl View for PositionStore {
    type V = Seq<TokenPosition>;

    closed spec fn view(&self) -> Seq<TokenPosition> {
        self.positions@
    }
}

impl PositionStore {
    /// An empty store.
    pub fn new() -> (r: PositionStore)
        ensures
            r@ == Seq::<TokenPosition>::empty(),
    {
        PositionStore { positions: Vec::new() }
    }

    /// Number of positions held, open or not.
    pub fn len(&self) -> (r: usize)
        ensures
            r == self@.len(),
    {
        self.positions.len()
    }

    /// The position at index `i`.
    pub fn get(&self, i: usize) -> (r: &TokenPosition)
        requires
            i < self@.len(),
        ensures
            *r == self@[i as int],
    {
        &self.positions[i]
    }

    /// Appends a position; no uniqueness of mints is enforced.
    pub fn insert(&mut self, position: TokenPosition)
        ensures
            final(self)@ == old(self)@.push(position),
    {
        self.positions.push(position);
    }

    /// A copy of every position, in order.
    pub fn snapshot(&self) -> (r: Vec<TokenPosition>)
        ensures
            r@ == self@,
    {
        let mut out: Vec<TokenPosition> = Vec::new();
        let mut i: usize = 0;
        while i < self.positions.len()
            invariant
                i <= self@.len(),
                out@ == self@.take(i as int),
            decreases self@.len() - i,
        {
            out.push(self.positions[i].duplicate());
            assert(self@.take(i + 1) == self@.take(i as int).push(self@[i as int]));
            i = i + 1;
        }
        assert(self@.take(self@.len() as int) == self@);
        out
    }

    /// The indices of the open positions: the ones a sweep visits, each once.
    pub fn open_indices(&self) -> (r: Vec<usize>)
        ensures
            is_sweep_of(r@, self@),
    {
        let mut out: Vec<usize> = Vec::new();
        let mut i: usize = 0;
        while i < self.positions.len()
            invariant
                i <= self@.len(),
                forall|k: int, l: int| 0 <= k < l < out@.len() ==> out@[k] < out@[l],
                forall|k: int| 0 <= k < out@.len() ==> #[trigger] out@[k] < i,
                forall|k: int|
                    0 <= k < out@.len() ==> (#[trigger] self@[out@[k] as int]).sold_percentage
                        < FULL_PERCENTAGE,
                forall|j: int|
                    0 <= j < i && (#[trigger] self@[j]).sold_percentage < FULL_PERCENTAGE ==> visits(
                        out@,
                        j,
                    ),
                out@.len() == open_count(self@.take(i as int)),
            decreases self@.len() - i,
        {
            assert(self@.take(i + 1).drop_last() == self@.take(i as int));
            let ghost before = out@;
            if self.positions[i].is_open() {
                out.push(i);
                assert(out@[out@.len() - 1] == i);
                assert forall|k: int, l: int| 0 <= k < l < out@.len() implies out@[k] < out@[l] by {
                    assert(out@[k] == before[k]);
                    if l < before.len() {
                        assert(out@[l] == before[l]);
                    }
                }
                assert forall|j: int| 0 <= j < i && visits(before, j) implies visits(out@, j) by {
                    let k = choose|k: int| 0 <= k < before.len() && before[k] == j;
                    assert(out@[k] == before[k]);
                }
                assert(visits(out@, i as int));
            }
            i = i + 1;
        }
        assert(self@.take(self@.len() as int) == self@);
        assert forall|j: int|
            0 <= j < self@.len() && (#[trigger] self@[j]).sold_percentage < FULL_PERCENTAGE implies exists|k: int|
            0 <= k < out@.len() && out@[k] == j by {
            assert(visits(out@, j));
        }
        out
    }

    /// Records a price observed for the position at `i` (see `observe_price`).
    pub fn observe_price_at(&mut self, i: usize, cfg: &Config, price: u64, now: i64) -> (r: Option<
        SellOrder,
    >)
        requires
            i < old(self)@.len(),
            cfg.wf(),
        ensures
            old(self)@[i as int].sold_percentage >= FULL_PERCENTAGE ==> final(self)@ == old(self)@
                && r is None,
            old(self)@[i as int].sold_percentage < FULL_PERCENTAGE ==> final(self)@ == old(self)@.update(
                i as int,
                priced_spec(old(self)@[i as int], price, now),
            ),
            r == plan_spec(final(self)@[i as int], *cfg, price),
    {
        let mut p = self.positions[i].duplicate();
        let r = observe_price(&mut p, cfg, price, now);
        self.positions.set(i, p);
        proof {
            if old(self)@[i as int].sold_percentage >= FULL_PERCENTAGE {
                assert(self@ == old(self)@);
            }
        }
        r
    }

    /// Records the outcome of an exit for the position at `i` (see `settle_sale`).
    pub fn settle_sale_at(&mut self, i: usize, cfg: &Config, target: SellTarget, sold: bool)
        requires
            i < old(self)@.len(),
        ensures
            sold ==> final(self)@ == old(self)@.update(
                i as int,
                sold_spec(old(self)@[i as int], *cfg, target),
            ),
            !sold ==> final(self)@ == old(self)@,
    {
        if sold {
            let mut p = self.positions[i].duplicate();
            settle_sale(&mut p, cfg, target, sold);
            self.positions.set(i, p);
        }
    }
}

proof fn lemma_open_count_append(s: Seq<TokenPosition>, ps: Seq<TokenPosition>)
    ensures
        open_count(s + ps) == open_count(s) + open_count(ps),
    decreases ps.len(),
{
    if ps.len() == 0 {
        assert(s + ps == s);
    } else {
        lemma_open_count_append(s, ps.drop_last());
        assert((s + ps).drop_last() == s + ps.drop_last());
    }
}

proof fn lemma_open_count_all_open(ps: Seq<TokenPosition>)
    requires
        forall|i: int| 0 <= i < ps.len() ==> (#[trigger] ps[i]).sold_percentage < FULL_PERCENTAGE,
    ensures
        open_count(ps) == ps.len(),
    decreases ps.len(),
{
    if ps.len() > 0 {
        let d = ps.drop_last();
        assert forall|i: int| 0 <= i < d.len() implies (#[trigger] d[i]).sold_percentage
            < FULL_PERCENTAGE by {
            assert(d[i] == ps[i]);
        }
        lemma_open_count_all_open(d);
    }
}

/// No insert is lost: after open positions `ps` are inserted, one by one, into a store
/// holding `s`, a sweep visits the positions it visited before and every inserted one, each
/// exactly once; from an empty store it visits exactly `ps.len()` positions.
pub proof fn lemma_inserts_then_sweep(s: Seq<TokenPosition>, ps: Seq<TokenPosition>, idx: Seq<usize>)
    requires
        forall|i: int| 0 <= i < ps.len() ==> (#[trigger] ps[i]).sold_percentage < FULL_PERCENTAGE,
        is_sweep_of(idx, s + ps),
    ensures
        idx.len() == open_count(s) + ps.len(),
        s.len() == 0 ==> idx.len() == ps.len(),
        forall|i: int| s.len() <= i < s.len() + ps.len() ==> #[trigger] visits(idx, i),
{
    lemma_open_count_append(s, ps);
    lemma_open_count_all_open(ps);
    assert forall|i: int| s.len() <= i < s.len() + ps.len() implies #[trigger] visits(idx, i) by {
        assert((s + ps)[i] == ps[i - s.len()]);
    }
}

/// A sweep never visits a fully sold position, so no price query or sale is made for it,
/// and recording a price for it changes nothing (see `observe_price_at`).
pub proof fn lemma_sweep_skips_sold_out(idx: Seq<usize>, s: Seq<TokenPosition>, i: int)
    requires
        is_sweep_of(idx, s),
        0 <= i < s.len(),
        s[i].sold_percentage >= FULL_PERCENTAGE,
    ensures
        !visits(idx, i),
{
    if visits(idx, i) {
        let k = choose|k: int| 0 <= k < idx.len() && idx[k] == i;
        assert(s[idx[k] as int].sold_percentage < FULL_PERCENTAGE);
    }
}

} // verus!
