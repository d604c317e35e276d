use crate::game::{after_ticks, production_rate};
use crate::grid::Building;
use crate::inventory::{sold, Inventory};
use crate::items::{base_buy_price_of, item_in_slot, ItemType};
use crate::market::{bought, can_buy, MarketInventory};
use crate::timers::{produced, RepeatingTimer};
use crate::upgrade::{can_collect, collected, lists_kind};
use vstd::arithmetic::div_mod::lemma_fundamental_div_mod;
use vstd::arithmetic::div_mod::lemma_fundamental_div_mod_converse;
use vstd::prelude::*;

verus! {

/// A sale of `qty` units takes exactly `qty` units of the kind and adds exactly
/// `qty` times the current sell price to the balance; no other kind changes.
pub proof fn law_sell_moves_units(inv0: Inventory, inv1: Inventory, t: ItemType, qty: u32)
    requires
        inv0.wf(),
        inv0.can_sell(t, qty),
        sold(inv0, inv1, t, qty),
    ensures
        inv1.qty(t) == inv0.qty(t) - qty,
        inv1.balance == inv0.balance + qty * inv0.price(t),
        forall|u: ItemType| u != t ==> #[trigger] inv1.qty(u) == inv0.qty(u),
{
    crate::items::lemma_slot_round_trip(t);
    assert forall|u: ItemType| u != t implies #[trigger] inv1.qty(u) == inv0.qty(u) by {
        crate::items::lemma_slot_injective(t, u);
    }
}

/// A purchase moves units from the market to the player: the balance drops by their
/// price, the stock drops and the quantity owned rises by `qty`, and stock plus owned
/// units stay the same.
pub proof fn law_buy_conserves(
    inv0: Inventory,
    m0: MarketInventory,
    inv1: Inventory,
    m1: MarketInventory,
    t: ItemType,
    qty: u32,
)
    requires
        inv0.wf(),
        m0.wf(),
        can_buy(inv0, m0, t, qty),
        bought(inv0, m0, inv1, m1, t, qty),
    ensures
        inv1.balance == inv0.balance - qty * base_buy_price_of(t),
        inv1.qty(t) == inv0.qty(t) + qty,
        m1.stock(t) == m0.stock(t) - qty,
        m1.stock(t) + inv1.qty(t) == m0.stock(t) + inv0.qty(t),
{
}

/// Collecting twice with no production in between: the second collection is allowed and
/// changes nothing.
pub proof fn law_collect_twice(
    inv0: Inventory,
    b0: Building,
    inv1: Inventory,
    b1: Building,
    inv2: Inventory,
    b2: Building,
)
    requires
        inv0.wf(),
        inv1.wf(),
        inv2.wf(),
        collected(inv0, b0, inv1, b1),
        collected(inv1, b1, inv2, b2),
    ensures
        can_collect(inv1, b1),
        inv2.items@ == inv1.items@,
        inv2.balance == inv1.balance,
        b2.yields@ == b1.yields@,
{
    assert forall|t: ItemType| #[trigger] inv2.qty(t) == inv1.qty(t) by {
        if lists_kind(b1.yields@, t) {
            let k = choose|k: int| 0 <= k < b1.yields@.len() && (#[trigger] b1.yields@[k]).0 == t;
            assert(b1.yields@[k] == (b0.yields@[k].0, 0u32));
        }
    }
    assert forall|i: int| 0 <= i < inv1.items@.len() implies inv2.items@[i] == inv1.items@[i] by {
        crate::items::lemma_kind_in_slot(i);
        assert(inv2.qty(item_in_slot(i)) == inv1.qty(item_in_slot(i)));
        assert(inv2.items@[i] == crate::items::with_quantity(inv1.items@[i], inv2.items@[i].quantity));
    }
    assert(inv2.items@ =~= inv1.items@);
    assert(b2.yields@ =~= b1.yields@);
}

/// Splitting elapsed time changes nothing: two advances of `d1` and `d2` fire as often as
/// one advance of `d1 + d2` and leave the timer in the same state.
pub proof fn law_split_ticks(timer: RepeatingTimer, d1: nat, d2: nat)
    requires
        timer.wf(),
    ensures
        timer.fires(d1 as int) + timer.advanced(d1 as int).fires(d2 as int) == timer.fires(
            (d1 + d2) as int,
        ),
        timer.advanced(d1 as int).advanced(d2 as int) == timer.advanced((d1 + d2) as int),
{
    let p = timer.duration as int;
    let x1 = timer.elapsed + d1;
    let q1 = x1 / p;
    let r1 = x1 % p;
    lemma_fundamental_div_mod(x1, p);
    let x2 = r1 + d2;
    let q2 = x2 / p;
    let r2 = x2 % p;
    lemma_fundamental_div_mod(x2, p);
    assert(timer.advanced(d1 as int).elapsed == r1);
    assert(timer.elapsed + d1 + d2 == (q1 + q2) * p + r2) by (nonlinear_arith)
        requires
            x1 == p * q1 + r1,
            x2 == p * q2 + r2,
            x1 == timer.elapsed + d1,
            x2 == r1 + d2,
    ;
    lemma_fundamental_div_mod_converse(timer.elapsed + d1 + d2, p, q1 + q2, r2);
}

/// Production accumulates linearly: a building with empty yield slots whose timer has not
/// completed its current period, left for exactly `k` periods, holds `k` times its per-tick
/// rate in each slot (while that amount fits).
pub proof fn law_production_accumulates(timer: RepeatingTimer, k: nat, b0: Building, b1: Building)
    requires
        timer.wf(),
        timer.elapsed < timer.duration,
        after_ticks(b0, b1, timer.fires((k * timer.duration) as int)),
        forall|j: int| 0 <= j < b0.yields@.len() ==> (#[trigger] b0.yields@[j]).1 == 0,
        forall|j: int|
            0 <= j < b0.yields@.len() ==> k * production_rate(b0, (#[trigger] b0.yields@[j]).0)
                <= u32::MAX,
    ensures
        timer.fires((k * timer.duration) as int) == k,
        forall|j: int|
            0 <= j < b0.yields@.len() ==> (#[trigger] b1.yields@[j]).1 == k * production_rate(
                b0,
                b0.yields@[j].0,
            ),
{
    let p = timer.duration as int;
    assert(timer.elapsed + k * p == k * p + timer.elapsed);
    lemma_fundamental_div_mod_converse(timer.elapsed + k * p, p, k as int, timer.elapsed as int);
    assert forall|j: int| 0 <= j < b0.yields@.len() implies (#[trigger] b1.yields@[j]).1 == k
        * production_rate(b0, b0.yields@[j].0) by {
        assert(b1.yields@[j] == (
            b0.yields@[j].0,
            produced(b0.yields@[j].1, k as int, production_rate(b0, b0.yields@[j].0)),
        ));
    }
}

} // verus!
