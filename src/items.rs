use vstd::prelude::*;

verus! {

/// Number of item kinds, and so of slots in the player's inventory.
pub const ITEM_KINDS: usize = 18;

/// Every kind of item the economy knows: coins, raw materials and goods.
#[derive(Clone, Copy, Debug, PartialEq, Eq, Structural, Hash)]
pub enum ItemType {
    BronzeCoin,
    SilverCoin,
    GoldCoin,
    Taffy,
    Nougat,
    Marshmallow,
    Coffee,
    Cocoa,
    Milkshake,
    Apple,
    Branch,
    Honey,
    Steel,
    Chip,
    Phone,
    Log,
    Lantern,
    Axe,
}

/// The inventory slot that holds an item kind.
pub open spec fn item_slot(t: ItemType) -> int {
    match t {
        ItemType::BronzeCoin => 0,
        ItemType::SilverCoin => 1,
        ItemType::GoldCoin => 2,
        ItemType::Taffy => 3,
        ItemType::Nougat => 4,
        ItemType::Marshmallow => 5,
        ItemType::Coffee => 6,
        ItemType::Cocoa => 7,
        ItemType::Milkshake => 8,
        ItemType::Apple => 9,
        ItemType::Branch => 10,
        ItemType::Honey => 11,
        ItemType::Steel => 12,
        ItemType::Chip => 13,
        ItemType::Phone => 14,
        ItemType::Log => 15,
        ItemType::Lantern => 16,
        ItemType::Axe => 17,
    }
}

/// The item kind held in a slot: the inverse of `item_slot`.
pub open spec fn item_in_slot(i: int) -> ItemType {
    if i <= 0 {
        ItemType::BronzeCoin
    } else if i == 1 {
        ItemType::SilverCoin
    } else if i == 2 {
        ItemType::GoldCoin
    } else if i == 3 {
        ItemType::Taffy
    } else if i == 4 {
        ItemType::Nougat
    } else if i == 5 {
        ItemType::Marshmallow
    } else if i == 6 {
        ItemType::Coffee
    } else if i == 7 {
        ItemType::Cocoa
    } else if i == 8 {
        ItemType::Milkshake
    } else if i == 9 {
        ItemType::Apple
    } else if i == 10 {
        ItemType::Branch
    } else if i == 11 {
        ItemType::Honey
    } else if i == 12 {
        ItemType::Steel
    } else if i == 13 {
        ItemType::Chip
    } else if i == 14 {
        ItemType::Phone
    } else if i == 15 {
        ItemType::Log
    } else if i == 16 {
        ItemType::Lantern
    } else {
        ItemType::Axe
    }
}

pub proof fn lemma_slot_round_trip(t: ItemType)
    ensures
        0 <= item_slot(t) < ITEM_KINDS,
        item_in_slot(item_slot(t)) == t,
{
}

pub proof fn lemma_kind_in_slot(i: int)
    requires
        0 <= i < ITEM_KINDS,
    ensures
        item_slot(item_in_slot(i)) == i,
{
}

pub proof fn lemma_slot_injective(a: ItemType, b: ItemType)
    ensures
        item_slot(a) == item_slot(b) <==> a == b,
{
    lemma_slot_round_trip(a);
    lemma_slot_round_trip(b);
}

/// Display name of an item kind.
pub open spec fn item_name(t: ItemType) -> Seq<char> {
    match t {
        ItemType::BronzeCoin => "Bronze Coin"@,
        ItemType::SilverCoin => "Silver Coin"@,
        ItemType::GoldCoin => "Gold Coin"@,
        ItemType::Taffy => "Taffy"@,
        ItemType::Nougat => "Nougat"@,
        ItemType::Marshmallow => "Marshmallow"@,
        ItemType::Coffee => "Coffee"@,
        ItemType::Cocoa => "Cocoa"@,
        ItemType::Milkshake => "Milkshake"@,
        ItemType::Apple => "Apple"@,
        ItemType::Branch => "Branch"@,
        ItemType::Honey => "Honey"@,
        ItemType::Steel => "Steel"@,
        ItemType::Chip => "Chip"@,
        ItemType::Phone => "Phone"@,
        ItemType::Log => "Log"@,
        ItemType::Lantern => "Lantern"@,
        ItemType::Axe => "Axe"@,
    }
}

/// Unboosted price the player receives for one unit.
pub open spec fn sell_price_of(t: ItemType) -> u32 {
    match t {
        ItemType::BronzeCoin => 7,
        ItemType::SilverCoin => 40,
        ItemType::GoldCoin => 160,
        ItemType::Taffy => 5,
        ItemType::Nougat => 12,
        ItemType::Marshmallow => 26,
        ItemType::Coffee => 8,
        ItemType::Cocoa => 15,
        ItemType::Milkshake => 35,
        ItemType::Apple => 18,
        ItemType::Branch => 30,
        ItemType::Honey => 56,
        ItemType::Steel => 60,
        ItemType::Chip => 82,
        ItemType::Phone => 350,
        ItemType::Log => 42,
        ItemType::Lantern => 70,
        ItemType::Axe => 210,
    }
}

/// Price the market asks for one unit; coins cannot be bought and cost nothing here.
pub open spec fn base_buy_price_of(t: ItemType) -> u32 {
    match t {
        ItemType::BronzeCoin => 0,
        ItemType::SilverCoin => 0,
        ItemType::GoldCoin => 0,
        ItemType::Taffy => 6,
        ItemType::Nougat => 14,
        ItemType::Marshmallow => 30,
        ItemType::Coffee => 9,
        ItemType::Cocoa => 16,
        ItemType::Milkshake => 40,
        ItemType::Apple => 21,
        ItemType::Branch => 35,
        ItemType::Honey => 63,
        ItemType::Steel => 92,
        ItemType::Chip => 145,
        ItemType::Phone => 620,
        ItemType::Log => 55,
        ItemType::Lantern => 104,
        ItemType::Axe => 410,
    }
}

/// The sell price of an item kind, doubled while the kind is boosted.
pub open spec fn current_sell_price(t: ItemType, boosted: bool) -> int {
    if boosted {
        2 * sell_price_of(t)
    } else {
        sell_price_of(t) as int
    }
}

/// Slot of an item kind.
pub fn slot_of(t: ItemType) -> (r: usize)
    ensures
        r == item_slot(t),
        r < ITEM_KINDS,
{
    match t {
        ItemType::BronzeCoin => 0,
        ItemType::SilverCoin => 1,
        ItemType::GoldCoin => 2,
        ItemType::Taffy => 3,
        ItemType::Nougat => 4,
        ItemType::Marshmallow => 5,
        ItemType::Coffee => 6,
        ItemType::Cocoa => 7,
        ItemType::Milkshake => 8,
        ItemType::Apple => 9,
        ItemType::Branch => 10,
        ItemType::Honey => 11,
        ItemType::Steel => 12,
        ItemType::Chip => 13,
        ItemType::Phone => 14,
        ItemType::Log => 15,
        ItemType::Lantern => 16,
        ItemType::Axe => 17,
    }
}

/// A ledger entry: an item kind, how many units are held, and its display data.
pub struct Item {
    pub item_type: ItemType,
    pub quantity: u32,
    pub name: String,
    pub sell_price: u32,
    pub base_buy_price: u32,
    /// Whether the sell price is currently doubled by a market boost.
    pub boosted: bool,
}

/// The same entry holding another quantity.
pub open spec fn with_quantity(item: Item, q: u32) -> Item {
    Item { quantity: q, ..item }
}

impl Item {
    /// The display data agree with the catalog for the item's kind.
    pub open spec fn wf(&self) -> bool {
        &&& self.name@ == item_name(self.item_type)
        &&& self.base_buy_price == base_buy_price_of(self.item_type)
        &&& self.sell_price == current_sell_price(self.item_type, self.boosted)
    }

    pub fn new(item_type: ItemType, quantity: u32) -> (r: Self)
        ensures
            r.item_type == item_type,
            r.quantity == quantity,
            !r.boosted,
            r.wf(),
    {
        Self {
            item_type,
            quantity,
            name: Self::get_name(item_type),
            sell_price: Self::get_sell_price(item_type),
            base_buy_price: Self::get_base_buy_price(item_type),
            boosted: false,
        }
    }

    pub fn get_name(item_type: ItemType) -> (r: String)
        ensures
            r@ == item_name(item_type),
    {
        let s: &str = match item_type {
            ItemType::BronzeCoin => "Bronze Coin",
            ItemType::SilverCoin => "Silver Coin",
            ItemType::GoldCoin => "Gold Coin",
            ItemType::Taffy => "Taffy",
            ItemType::Nougat => "Nougat",
            ItemType::Marshmallow => "Marshmallow",
            ItemType::Coffee => "Coffee",
            ItemType::Cocoa => "Cocoa",
            ItemType::Milkshake => "Milkshake",
            ItemType::Apple => "Apple",
            ItemType::Branch => "Branch",
            ItemType::Honey => "Honey",
            ItemType::Steel => "Steel",
            ItemType::Chip => "Chip",
            ItemType::Phone => "Phone",
            ItemType::Log => "Log",
            ItemType::Lantern => "Lantern",
            ItemType::Axe => "Axe",
        };
        s.to_owned()
    }

    pub fn get_sell_price(item_type: ItemType) -> (r: u32)
        ensures
            r == sell_price_of(item_type),
    {
        match item_type {
            ItemType::BronzeCoin => 7,
            ItemType::SilverCoin => 40,
            ItemType::GoldCoin => 160,
            ItemType::Taffy => 5,
            ItemType::Nougat => 12,
            ItemType::Marshmallow => 26,
            ItemType::Coffee => 8,
            ItemType::Cocoa => 15,
            ItemType::Milkshake => 35,
            ItemType::Apple => 18,
            ItemType::Branch => 30,
            ItemType::Honey => 56,
            ItemType::Steel => 60,
            ItemType::Chip => 82,
            ItemType::Phone => 350,
            ItemType::Log => 42,
            ItemType::Lantern => 70,
            ItemType::Axe => 210,
        }
    }

    pub fn get_base_buy_price(item_type: ItemType) -> (r: u32)
        ensures
            r == base_buy_price_of(item_type),
    {
        match item_type {
            ItemType::BronzeCoin => 0,
            ItemType::SilverCoin => 0,
            ItemType::GoldCoin => 0,
            ItemType::Taffy => 6,
            ItemType::Nougat => 14,
            ItemType::Marshmallow => 30,
            ItemType::Coffee => 9,
            ItemType::Cocoa => 16,
            ItemType::Milkshake => 40,
            ItemType::Apple => 21,
            ItemType::Branch => 35,
            ItemType::Honey => 63,
            ItemType::Steel => 92,
            ItemType::Chip => 145,
            ItemType::Phone => 620,
            ItemType::Log => 55,
            ItemType::Lantern => 104,
            ItemType::Axe => 410,
        }
    }
}

/// Path of the icon of an item kind.
pub open spec fn item_icon_path(t: ItemType) -> Seq<char> {
    match t {
        ItemType::BronzeCoin => "icons/items/bronze_coin256.png"@,
        ItemType::SilverCoin => "icons/items/silver_coin256.png"@,
        ItemType::GoldCoin => "icons/items/gold_coin256.png"@,
        ItemType::Taffy => "icons/items/taffy256.png"@,
        ItemType::Nougat => "icons/items/nougat256.png"@,
        ItemType::Marshmallow => "icons/items/marshmallow256.png"@,
        ItemType::Coffee => "icons/items/coffee256.png"@,
        ItemType::Cocoa => "icons/items/cocoa256.png"@,
        ItemType::Milkshake => "icons/items/milkshake256.png"@,
        ItemType::Apple => "icons/items/apple256.png"@,
        ItemType::Branch => "icons/items/branch256.png"@,
        ItemType::Honey => "icons/items/honey256.png"@,
        ItemType::Steel => "icons/items/steel256.png"@,
        ItemType::Chip => "icons/items/chip256.png"@,
        ItemType::Phone => "icons/items/phone256.png"@,
        ItemType::Log => "icons/items/log256.png"@,
        ItemType::Lantern => "icons/items/lantern256.png"@,
        ItemType::Axe => "icons/items/axe256.png"@,
    }
}

/// Paths of the icons the panels show: one per item kind, in slot order, a blank one,
/// and one per building kind on sale.
pub struct ItemIcons {
    pub items: Vec<String>,
    pub empty: String,
    pub candy_shop: String,
    pub coffee_shop: String,
    pub tree: String,
    pub factory: String,
    pub cabin: String,
}

impl ItemIcons {
    pub open spec fn wf(&self) -> bool {
        &&& self.items@.len() == ITEM_KINDS
        &&& forall|t: ItemType| (#[trigger] self.items@[item_slot(t)])@ == item_icon_path(t)
    }

    /// The icon of an item kind.
    pub fn item_icon(&self, t: ItemType) -> (r: &String)
        requires
            self.wf(),
        ensures
            r@ == item_icon_path(t),
    {
        &self.items[slot_of(t)]
    }
}

/// The icon paths of every item kind and every building kind on sale.
pub fn load_item_icons() -> (r: ItemIcons)
    ensures
        r.wf(),
        r.empty@ == "icons/items/empty256.png"@,
        r.candy_shop@ == "icons/buildings/candy_shop256.png"@,
        r.coffee_shop@ == "icons/buildings/coffee_shop256.png"@,
        r.tree@ == "icons/buildings/tree256.png"@,
        r.factory@ == "icons/buildings/factory256.png"@,
        r.cabin@ == "icons/buildings/cabin256.png"@,
{
    let mut items: Vec<String> = Vec::new();
    items.push("icons/items/bronze_coin256.png".to_owned());
    items.push("icons/items/silver_coin256.png".to_owned());
    items.push("icons/items/gold_coin256.png".to_owned());
    items.push("icons/items/taffy256.png".to_owned());
    items.push("icons/items/nougat256.png".to_owned());
    items.push("icons/items/marshmallow256.png".to_owned());
    items.push("icons/items/coffee256.png".to_owned());
    items.push("icons/items/cocoa256.png".to_owned());
    items.push("icons/items/milkshake256.png".to_owned());
    items.push("icons/items/apple256.png".to_owned());
    items.push("icons/items/branch256.png".to_owned());
    items.push("icons/items/honey256.png".to_owned());
    items.push("icons/items/steel256.png".to_owned());
    items.push("icons/items/chip256.png".to_owned());
    items.push("icons/items/phone256.png".to_owned());
    items.push("icons/items/log256.png".to_owned());
    items.push("icons/items/lantern256.png".to_owned());
    items.push("icons/items/axe256.png".to_owned());
    let r = ItemIcons {
        items,
        empty: "icons/items/empty256.png".to_owned(),
        candy_shop: "icons/buildings/candy_shop256.png".to_owned(),
        coffee_shop: "icons/buildings/coffee_shop256.png".to_owned(),
        tree: "icons/buildings/tree256.png".to_owned(),
        factory: "icons/buildings/factory256.png".to_owned(),
        cabin: "icons/buildings/cabin256.png".to_owned(),
    };
    proof {
        assert forall|t: ItemType| (#[trigger] r.items@[item_slot(t)])@ == item_icon_path(t) by {
            match t {
                ItemType::BronzeCoin => {},
                ItemType::SilverCoin => {},
                ItemType::GoldCoin => {},
                ItemType::Taffy => {},
                ItemType::Nougat => {},
                ItemType::Marshmallow => {},
                ItemType::Coffee => {},
                ItemType::Cocoa => {},
                ItemType::Milkshake => {},
                ItemType::Apple => {},
                ItemType::Branch => {},
                ItemType::Honey => {},
                ItemType::Steel => {},
                ItemType::Chip => {},
                ItemType::Phone => {},
                ItemType::Log => {},
                ItemType::Lantern => {},
                ItemType::Axe => {},
            }
        }
    }
    r
}

} // verus!
