use crate::grid::BuildingType;
use crate::inventory::Inventory;
use vstd::prelude::*;

verus! {

/// Number of building kinds the construction shop sells.
pub const SHOP_KINDS: usize = 4;

/// Price of a building kind in the construction shop.
pub open spec fn construct_price(b: BuildingType) -> u32 {
    match b {
        BuildingType::CandyShop => 100,
        BuildingType::CoffeeShop => 100,
        BuildingType::Tree => 100,
        BuildingType::Factory => 100,
        _ => 0,
    }
}

/// Name of a building kind in the construction shop.
pub open spec fn construct_name(b: BuildingType) -> Seq<char> {
    match b {
        BuildingType::CandyShop => "Candy Shop"@,
        BuildingType::CoffeeShop => "Coffee Shop"@,
        BuildingType::Tree => "Tree"@,
        BuildingType::Factory => "Factory"@,
        _ => "Untitled"@,
    }
}

/// The shop slot of a building kind, if the shop sells it.
pub open spec fn shop_slot(b: BuildingType) -> Option<int> {
    match b {
        BuildingType::CandyShop => Some(0),
        BuildingType::CoffeeShop => Some(1),
        BuildingType::Tree => Some(2),
        BuildingType::Factory => Some(3),
        _ => None,
    }
}

/// The building kind in a shop slot.
pub open spec fn shop_kind(i: int) -> BuildingType {
    if i <= 0 {
        BuildingType::CandyShop
    } else if i == 1 {
        BuildingType::CoffeeShop
    } else if i == 2 {
        BuildingType::Tree
    } else {
        BuildingType::Factory
    }
}

/// A building kind on sale, with the number of units left.
pub struct BuildingItem {
    pub building_type: BuildingType,
    pub quantity: u8,
    pub name: String,
    pub price: u32,
}

impl BuildingItem {
    /// Name and price agree with the shop's list.
    pub open spec fn wf(&self) -> bool {
        self.name@ == construct_name(self.building_type) && self.price == construct_price(
            self.building_type,
        )
    }

    pub fn new(building_type: BuildingType, quantity: u8) -> (r: Self)
        ensures
            r.building_type == building_type,
            r.quantity == quantity,
            r.wf(),
    {
        Self {
            building_type,
            quantity,
            name: Self::get_name(building_type),
            price: Self::get_price(building_type),
        }
    }

    pub fn get_price(building_type: BuildingType) -> (r: u32)
        ensures
            r == construct_price(building_type),
    {
        match building_type {
            BuildingType::CandyShop => 100,
            BuildingType::CoffeeShop => 100,
            BuildingType::Tree => 100,
            BuildingType::Factory => 100,
            _ => 0,
        }
    }

    pub fn get_name(building_type: BuildingType) -> (r: String)
        ensures
            r@ == construct_name(building_type),
    {
        let s: &str = match building_type {
            BuildingType::CandyShop => "Candy Shop",
            BuildingType::CoffeeShop => "Coffee Shop",
            BuildingType::Tree => "Tree",
            BuildingType::Factory => "Factory",
            _ => "Untitled",
        };
        s.to_owned()
    }
}

/// The construction shop's ledger: one entry per building kind on sale.
pub struct ConstructInventory {
    pub items: Vec<BuildingItem>,
}

impl ConstructInventory {
    pub open spec fn wf(&self) -> bool {
        &&& self.items@.len() == SHOP_KINDS
        &&& forall|i: int|
            0 <= i < SHOP_KINDS ==> (#[trigger] self.items@[i]).building_type == shop_kind(i)
                && self.items@[i].wf()
    }

    /// Units of a building kind left; zero for a kind the shop does not sell.
    pub open spec fn stock(&self, b: BuildingType) -> u8 {
        match shop_slot(b) {
            Some(i) => self.items@[i].quantity,
            None => 0,
        }
    }

    /// Units of a building kind left.
    pub fn remaining(&self, b: BuildingType) -> (r: u8)
        requires
            self.wf(),
        ensures
            r == self.stock(b),
    {
        match b {
            BuildingType::CandyShop => self.items[0].quantity,
            BuildingType::CoffeeShop => self.items[1].quantity,
            BuildingType::Tree => self.items[2].quantity,
            BuildingType::Factory => self.items[3].quantity,
            _ => 0,
        }
    }
}

/// Units of each building kind the shop starts with.
pub open spec fn initial_stock(b: BuildingType) -> u8 {
    match b {
        BuildingType::CandyShop => 4,
        BuildingType::CoffeeShop => 3,
        BuildingType::Tree => 3,
        BuildingType::Factory => 2,
        _ => 0,
    }
}

impl ConstructInventory {
    /// The shop's starting stock.
    pub open spec fn is_initial(&self) -> bool {
        &&& self.wf()
        &&& forall|b: BuildingType| #[trigger] self.stock(b) == initial_stock(b)
    }
}

impl Default for ConstructInventory {
    fn default() -> (r: Self)
        ensures
            r.is_initial(),
    {
        let items = vec![
            BuildingItem::new(BuildingType::CandyShop, 4),
            BuildingItem::new(BuildingType::CoffeeShop, 3),
            BuildingItem::new(BuildingType::Tree, 3),
            BuildingItem::new(BuildingType::Factory, 2),
        ];
        ConstructInventory { items }
    }
}

/// Whether buying one unit of building kind `b` is allowed.
pub open spec fn can_buy_construct(inventory: Inventory, shop: ConstructInventory, b: BuildingType) -> bool {
    inventory.balance >= construct_price(b) && shop.stock(b) > 0
}

/// Buys one unit of building kind `b`: the price leaves the balance and one unit leaves
/// the shop. Rejected, with nothing changed, unless `can_buy_construct` holds.
pub fn buy_construct(inventory: &mut Inventory, shop: &mut ConstructInventory, b: BuildingType) -> (r: bool)
    requires
        old(inventory).wf(),
        old(shop).wf(),
    ensures
        final(inventory).wf(),
        final(shop).wf(),
        r == can_buy_construct(*old(inventory), *old(shop), b),
        r ==> final(inventory).balance == old(inventory).balance - construct_price(b),
        r ==> final(inventory).items@ == old(inventory).items@,
        r ==> final(shop).items@ == old(shop).items@.update(
            shop_slot(b).unwrap(),
            BuildingItem { quantity: (old(shop).stock(b) - 1) as u8, ..old(shop).items@[shop_slot(b).unwrap()] },
        ),
        !r ==> *final(inventory) == *old(inventory) && *final(shop) == *old(shop),
{
    let price = BuildingItem::get_price(b);
    let left = shop.remaining(b);
    if inventory.balance < price || left == 0 {
        return false;
    }
    let i: usize = match b {
        BuildingType::CandyShop => 0,
        BuildingType::CoffeeShop => 1,
        BuildingType::Tree => 2,
        _ => 3,
    };
    shop.items[i].quantity = left - 1;
    inventory.balance = inventory.balance - price;
    true
}

/// Phase of the construction flow.
#[derive(Clone, Copy, Debug, PartialEq, Eq, Structural, Hash)]
pub enum ConstructPhase {
    /// Normal interaction.
    Normal,
    /// A purchased building waits for a free tile.
    Preview,
}

/// The building kind bought and not yet placed.
pub struct BuildingStash(pub Option<BuildingType>);

/// The building kind inspected in the construction panel, with its price.
pub struct SelectedConstructItem {
    pub building_type: Option<BuildingType>,
    pub buy_price: u32,
}

} // verus!
