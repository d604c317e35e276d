use crate::inventory::{wide_mul, Inventory};
use crate::items::{base_buy_price_of, with_quantity, Item, ItemType};
use vstd::prelude::*;

verus! {

/// Number of item kinds the market stocks.
pub const MARKET_KINDS: usize = 6;

/// The market slot of an item kind, if the market stocks it.
pub open spec fn market_slot(t: ItemType) -> Option<int> {
    match t {
        ItemType::Taffy => Some(0),
        ItemType::Nougat => Some(1),
        ItemType::Marshmallow => Some(2),
        ItemType::Coffee => Some(3),
        ItemType::Cocoa => Some(4),
        ItemType::Milkshake => Some(5),
        _ => None,
    }
}

/// The item kind in a market slot.
pub open spec fn market_kind(i: int) -> ItemType {
    if i <= 0 {
        ItemType::Taffy
    } else if i == 1 {
        ItemType::Nougat
    } else if i == 2 {
        ItemType::Marshmallow
    } else if i == 3 {
        ItemType::Coffee
    } else if i == 4 {
        ItemType::Cocoa
    } else {
        ItemType::Milkshake
    }
}

/// Stock of each market slot when the market is full.
pub open spec fn default_stock(i: int) -> u32 {
    if i <= 0 {
        26
    } else if i == 1 {
        14
    } else if i == 2 {
        3
    } else if i == 3 {
        8
    } else if i == 4 {
        9
    } else {
        18
    }
}

/// The market's ledger: one entry per stocked item kind.
pub struct MarketInventory {
    pub items: Vec<Item>,
    pub balance: u32,
}

impl MarketInventory {
    /// One well-formed, unboosted entry per stocked kind, in slot order.
    pub open spec fn wf(&self) -> bool {
        &&& self.items@.len() == MARKET_KINDS
        &&& forall|i: int|
            0 <= i < MARKET_KINDS ==> (#[trigger] self.items@[i]).item_type == market_kind(i)
                && self.items@[i].wf() && !self.items@[i].boosted
    }

    /// Units of an item kind in stock; zero for a kind the market does not stock.
    pub open spec fn stock(&self, t: ItemType) -> u32 {
        match market_slot(t) {
            Some(i) => self.items@[i].quantity,
            None => 0,
        }
    }

    /// The entries after the stock of `t` is set to `q` (unchanged for an unstocked kind).
    pub open spec fn items_with(&self, t: ItemType, q: u32) -> Seq<Item> {
        match market_slot(t) {
            Some(i) => self.items@.update(i, with_quantity(self.items@[i], q)),
            None => self.items@,
        }
    }

    /// The market holds exactly its default stock list.
    pub open spec fn is_full(&self) -> bool {
        &&& self.wf()
        &&& self.balance == 100
        &&& forall|i: int| 0 <= i < MARKET_KINDS ==> (#[trigger] self.items@[i]).quantity == default_stock(i)
    }

    /// Units of an item kind in stock.
    pub fn stock_of(&self, t: ItemType) -> (r: u32)
        requires
            self.wf(),
        ensures
            r == self.stock(t),
    {
        match t {
            ItemType::Taffy => self.items[0].quantity,
            ItemType::Nougat => self.items[1].quantity,
            ItemType::Marshmallow => self.items[2].quantity,
            ItemType::Coffee => self.items[3].quantity,
            ItemType::Cocoa => self.items[4].quantity,
            ItemType::Milkshake => self.items[5].quantity,
            _ => 0,
        }
    }

    /// Sets the stock of a stocked kind; nothing else changes.
    fn set_stock(&mut self, t: ItemType, q: u32)
        requires
            old(self).wf(),
            market_slot(t).is_some(),
        ensures
            final(self).wf(),
            final(self).items@ == old(self).items_with(t, q),
            final(self).balance == old(self).balance,
    {
        let i: usize = match t {
            ItemType::Taffy => 0,
            ItemType::Nougat => 1,
            ItemType::Marshmallow => 2,
            ItemType::Coffee => 3,
            ItemType::Cocoa => 4,
            _ => 5,
        };
        self.items[i].quantity = q;
    }
}

impl Default for MarketInventory {
    fn default() -> (r: Self)
        ensures
            r.is_full(),
    {
        let items = vec![
            Item::new(ItemType::Taffy, 26),
            Item::new(ItemType::Nougat, 14),
            Item::new(ItemType::Marshmallow, 3),
            Item::new(ItemType::Coffee, 8),
            Item::new(ItemType::Cocoa, 9),
            Item::new(ItemType::Milkshake, 18),
        ];
        MarketInventory { items, balance: 100 }
    }
}

/// Whether buying `qty` units of `t` is allowed: the player can pay for them, the market
/// has them, and the new quantity fits.
pub open spec fn can_buy(inventory: Inventory, market: MarketInventory, t: ItemType, qty: u32) -> bool {
    &&& inventory.balance >= qty * base_buy_price_of(t)
    &&& market.stock(t) >= qty
    &&& inventory.qty(t) + qty <= u32::MAX
}

/// The effect of a purchase: `qty` units of `t` move from the market to the inventory and
/// their price at the base buy price leaves the balance.
pub open spec fn bought(
    inv0: Inventory,
    m0: MarketInventory,
    inv1: Inventory,
    m1: MarketInventory,
    t: ItemType,
    qty: u32,
) -> bool {
    &&& inv1.balance == inv0.balance - qty * base_buy_price_of(t)
    &&& inv1.items@ == inv0.items_with(t, (inv0.qty(t) + qty) as u32)
    &&& m1.items@ == m0.items_with(t, (m0.stock(t) - qty) as u32)
    &&& m1.balance == m0.balance
}

/// Buys `qty` units of `t` from the market at its base price. Rejected, with nothing
/// changed, unless `can_buy` holds.
pub fn buy(inventory: &mut Inventory, market: &mut MarketInventory, t: ItemType, qty: u32) -> (r: bool)
    requires
        old(inventory).wf(),
        old(market).wf(),
    ensures
        final(inventory).wf(),
        final(market).wf(),
        r == can_buy(*old(inventory), *old(market), t, qty),
        r ==> bought(*old(inventory), *old(market), *final(inventory), *final(market), t, qty),
        r ==> final(market).stock(t) + final(inventory).qty(t) == old(market).stock(t) + old(
            inventory,
        ).qty(t),
        !r ==> *final(inventory) == *old(inventory) && *final(market) == *old(market),
{
    let cost = wide_mul(qty, Item::get_base_buy_price(t));
    let owned = inventory.quantity_of(t);
    let stock = market.stock_of(t);
    if (inventory.balance as u64) < cost || stock < qty || qty > u32::MAX - owned {
        return false;
    }
    inventory.balance = inventory.balance - cost as u32;
    inventory.set_quantity(t, owned + qty);
    if qty > 0 {
        market.set_stock(t, stock - qty);
    }
    proof {
        if market_slot(t).is_some() {
            let i = market_slot(t).unwrap();
            assert(market.items@[i] == with_quantity(old(market).items@[i], (stock - qty) as u32));
            if qty == 0 {
                assert(with_quantity(old(market).items@[i], stock) == old(market).items@[i]);
                assert(old(market).items@.update(i, old(market).items@[i]) =~= old(market).items@);
            }
        }
        assert(market.items@ == old(market).items_with(t, (stock - qty) as u32));
    }
    true
}

/// The item inspected in the market panel, with the figures it shows.
pub struct SelectedMarketItem {
    pub item_type: Option<ItemType>,
    pub quantity: u32,
    pub buy_price: u32,
}

impl SelectedMarketItem {
    pub fn new() -> (r: Self)
        ensures
            r.item_type.is_none(),
            r.quantity == 0,
            r.buy_price == 0,
    {
        SelectedMarketItem { item_type: None, quantity: 0, buy_price: 0 }
    }
}

} // verus!
