use crate::items::{
    current_sell_price, item_slot, slot_of, with_quantity, Item, ItemType, ITEM_KINDS,
};
use vstd::prelude::*;

verus! {

/// The player's ledger: one entry per item kind, in slot order, and a currency balance.
pub struct Inventory {
    pub items: Vec<Item>,
    pub balance: u32,
}

impl Inventory {
    /// One well-formed entry per item kind, each in its own slot.
    pub open spec fn wf(&self) -> bool {
        &&& self.items@.len() == ITEM_KINDS
        &&& forall|t: ItemType|
            (#[trigger] self.items@[item_slot(t)]).item_type == t && self.items@[item_slot(
                t,
            )].wf()
    }

    /// Units of an item kind held.
    pub open spec fn qty(&self, t: ItemType) -> u32 {
        self.items@[item_slot(t)].quantity
    }

    /// Current (possibly boosted) sell price of an item kind.
    pub open spec fn price(&self, t: ItemType) -> u32 {
        self.items@[item_slot(t)].sell_price
    }

    /// The entries after the quantity of kind `t` is set to `q`.
    pub open spec fn items_with(&self, t: ItemType, q: u32) -> Seq<Item> {
        self.items@.update(item_slot(t), with_quantity(self.items@[item_slot(t)], q))
    }

    /// Whether selling `qty` units of `t` is allowed.
    pub open spec fn can_sell(&self, t: ItemType, qty: u32) -> bool {
        &&& 0 < qty <= self.qty(t)
        &&& self.balance + qty * self.price(t) <= u32::MAX
    }

    pub fn quantity_of(&self, t: ItemType) -> (r: u32)
        requires
            self.wf(),
        ensures
            r == self.qty(t),
    {
        proof {
            crate::items::lemma_slot_round_trip(t);
        }
        self.items[slot_of(t)].quantity
    }

    pub fn sell_price_of(&self, t: ItemType) -> (r: u32)
        requires
            self.wf(),
        ensures
            r == self.price(t),
            r == current_sell_price(t, self.items@[item_slot(t)].boosted),
    {
        proof {
            crate::items::lemma_slot_round_trip(t);
        }
        self.items[slot_of(t)].sell_price
    }

    /// Sets the quantity held of one item kind; nothing else changes.
    pub fn set_quantity(&mut self, t: ItemType, q: u32)
        requires
            old(self).wf(),
        ensures
            final(self).wf(),
            final(self).items@ == old(self).items_with(t, q),
            final(self).balance == old(self).balance,
    {
        proof {
            crate::items::lemma_slot_round_trip(t);
        }
        let i = slot_of(t);
        self.items[i].quantity = q;
        proof {
            assert forall|u: ItemType|
                (#[trigger] self.items@[item_slot(u)]).item_type == u && self.items@[item_slot(
                    u,
                )].wf() by {
                crate::items::lemma_slot_injective(t, u);
            }
        }
    }

    /// Sells `qty` units of `t` at its current sell price. Rejected, with nothing changed,
    /// unless `0 < qty <= owned` and the new balance fits.
    pub fn sell(&mut self, t: ItemType, qty: u32) -> (r: bool)
        requires
            old(self).wf(),
        ensures
            final(self).wf(),
            r == old(self).can_sell(t, qty),
            r ==> sold(*old(self), *final(self), t, qty),
            !r ==> *final(self) == *old(self),
    {
        let owned = self.quantity_of(t);
        let price = self.sell_price_of(t);
        if qty == 0 || qty > owned {
            return false;
        }
        let gain = wide_mul(qty, price);
        if gain > (u32::MAX - self.balance) as u64 {
            return false;
        }
        self.balance = self.balance + gain as u32;
        self.set_quantity(t, owned - qty);
        true
    }
}

/// The same entry with its boost set to `b` and its sell price following.
pub open spec fn with_boost(item: Item, b: bool) -> Item {
    Item { boosted: b, sell_price: current_sell_price(item.item_type, b) as u32, ..item }
}

/// Whether `i` is among the chosen slots.
fn contains_slot(chosen: &Vec<usize>, i: usize) -> (r: bool)
    ensures
        r == chosen@.contains(i),
{
    let mut k: usize = 0;
    while k < chosen.len()
        invariant
            0 <= k <= chosen@.len(),
            forall|j: int| 0 <= j < k ==> chosen@[j] != i,
        decreases chosen@.len() - k,
    {
        if chosen[k] == i {
            return true;
        }
        k = k + 1;
    }
    false
}

impl Inventory {
    /// Drops every boost, then boosts the entries in the chosen slots: their sell price
    /// doubles until the next call.
    pub fn apply_boosts(&mut self, chosen: &Vec<usize>)
        requires
            old(self).wf(),
        ensures
            final(self).wf(),
            final(self).balance == old(self).balance,
            final(self).items@.len() == old(self).items@.len(),
            forall|i: int|
                0 <= i < ITEM_KINDS ==> #[trigger] final(self).items@[i] == with_boost(
                    old(self).items@[i],
                    chosen@.contains(i as usize),
                ),
    {
        let mut i: usize = 0;
        while i < ITEM_KINDS
            invariant
                0 <= i <= ITEM_KINDS,
                self.items@.len() == ITEM_KINDS,
                self.balance == old(self).balance,
                old(self).wf(),
                forall|j: int|
                    0 <= j < i ==> #[trigger] self.items@[j] == with_boost(
                        old(self).items@[j],
                        chosen@.contains(j as usize),
                    ),
                forall|j: int| i <= j < ITEM_KINDS ==> #[trigger] self.items@[j] == old(self).items@[j],
            decreases ITEM_KINDS - i,
        {
            let b = contains_slot(chosen, i);
            let base = Item::get_sell_price(self.items[i].item_type);
            self.items[i].boosted = b;
            self.items[i].sell_price = if b {
                2 * base
            } else {
                base
            };
            i = i + 1;
        }
        proof {
            assert forall|t: ItemType|
                (#[trigger] self.items@[item_slot(t)]).item_type == t && self.items@[item_slot(
                    t,
                )].wf() by {
                crate::items::lemma_slot_round_trip(t);
            }
        }
    }
}

/// Units of each item kind a new player holds.
pub open spec fn initial_qty(t: ItemType) -> u32 {
    match t {
        ItemType::BronzeCoin => 5,
        ItemType::SilverCoin => 1,
        ItemType::Taffy => 26,
        ItemType::Nougat => 14,
        ItemType::Marshmallow => 3,
        _ => 0,
    }
}

impl Inventory {
    /// The inventory of a new player: a balance of 100, the starting quantities, no boosts.
    pub open spec fn is_initial(&self) -> bool {
        &&& self.wf()
        &&& self.balance == 100
        &&& forall|t: ItemType| #[trigger] self.qty(t) == initial_qty(t) && !self.items@[item_slot(t)].boosted
    }
}

/// The effect of a sale: `qty` units of `t` leave the inventory and their price at the
/// current sell price joins the balance.
pub open spec fn sold(inv0: Inventory, inv1: Inventory, t: ItemType, qty: u32) -> bool {
    &&& inv1.items@ == inv0.items_with(t, (inv0.qty(t) - qty) as u32)
    &&& inv1.balance == inv0.balance + qty * inv0.price(t)
}

impl Default for Inventory {
    fn default() -> (r: Self)
        ensures
            r.is_initial(),
    {
        let items = vec![
            Item::new(ItemType::BronzeCoin, 5),
            Item::new(ItemType::SilverCoin, 1),
            Item::new(ItemType::GoldCoin, 0),
            Item::new(ItemType::Taffy, 26),
            Item::new(ItemType::Nougat, 14),
            Item::new(ItemType::Marshmallow, 3),
            Item::new(ItemType::Coffee, 0),
            Item::new(ItemType::Cocoa, 0),
            Item::new(ItemType::Milkshake, 0),
            Item::new(ItemType::Apple, 0),
            Item::new(ItemType::Branch, 0),
            Item::new(ItemType::Honey, 0),
            Item::new(ItemType::Steel, 0),
            Item::new(ItemType::Chip, 0),
            Item::new(ItemType::Phone, 0),
            Item::new(ItemType::Log, 0),
            Item::new(ItemType::Lantern, 0),
            Item::new(ItemType::Axe, 0),
        ];
        Inventory { items, balance: 100 }
    }
}

/// The exact product of two `u32` values.
pub fn wide_mul(a: u32, b: u32) -> (r: u64)
    ensures
        r == a * b,
{
    proof {
        assert(a * b <= u32::MAX * u32::MAX) by (nonlinear_arith)
            requires
                a <= u32::MAX,
                b <= u32::MAX,
        ;
    }
    a as u64 * b as u64
}

/// Rule of the +1/-1/+10/-10 quantity buttons: increments add (saturating at the largest
/// value), decrements subtract and floor at zero.
pub open spec fn stepped(q: u32, amount: i8) -> u32 {
    if amount > 0 {
        if q + amount > u32::MAX {
            u32::MAX
        } else {
            (q + amount) as u32
        }
    } else if -amount <= q {
        (q + amount) as u32
    } else {
        0
    }
}

/// A quantity picked with the quantity buttons, and whether the operation it is for is allowed.
pub struct QuantitySelector {
    pub quantity: u32,
    pub allowed: bool,
}

impl QuantitySelector {
    /// A selector at zero that shows the operation as allowed.
    pub fn new() -> (r: Self)
        ensures
            r.quantity == 0,
            r.allowed,
    {
        QuantitySelector { quantity: 0, allowed: true }
    }

    /// Applies one button press of `amount` units.
    pub fn apply_increment(&mut self, amount: i8)
        ensures
            final(self).quantity == stepped(old(self).quantity, amount),
            amount < 0 && old(self).quantity < -amount ==> final(self).quantity == 0,
            final(self).allowed == old(self).allowed,
    {
        if amount > 0 {
            self.quantity = self.quantity.saturating_add(amount as u32);
        } else {
            let dec: u32 = (0 - amount as i16) as u32;
            if dec <= self.quantity {
                self.quantity = self.quantity - dec;
            } else {
                self.quantity = 0;
            }
        }
    }
}

/// Whether the sell signal is on: a positive quantity no larger than what is owned.
pub open spec fn sell_signal(quantity: u32, owned: u32) -> bool {
    quantity <= owned && quantity != 0
}

/// The item inspected in the inventory panel, with the figures it shows.
pub struct SelectedItemStats {
    pub item_type: Option<ItemType>,
    pub quantity: u32,
    pub sell_price: u32,
}

impl SelectedItemStats {
    pub fn new() -> (r: Self)
        ensures
            r.item_type.is_none(),
            r.quantity == 0,
            r.sell_price == 0,
    {
        SelectedItemStats { item_type: None, quantity: 0, sell_price: 0 }
    }
}

} // verus!
