use cityidle::construct::{buy_construct, BuildingItem, ConstructInventory};
use cityidle::grid::{Building, BuildingType};
use cityidle::inventory::{wide_mul, Inventory, QuantitySelector};
use cityidle::items::{load_item_icons, slot_of, Item, ItemType};
use cityidle::market::{buy, MarketInventory};
use cityidle::upgrade::{collect_yields, upgrade_building, upgrade_view, YieldCountText};
use cityidle::upgrade_data::UpgradeData;

fn qty(inv: &Inventory, t: ItemType) -> u32 {
    inv.items[slot_of(t)].quantity
}

fn set_qty(inv: &mut Inventory, t: ItemType, q: u32) {
    inv.items[slot_of(t)].quantity = q;
}

fn city_centre() -> Building {
    Building::spawn(BuildingType::CityCentre, &UpgradeData::new()).unwrap()
}

#[test]
fn item_catalog_prices_and_names() {
    assert_eq!(Item::get_sell_price(ItemType::Phone), 350);
    assert_eq!(Item::get_sell_price(ItemType::BronzeCoin), 7);
    assert_eq!(Item::get_base_buy_price(ItemType::BronzeCoin), 0);
    assert_eq!(Item::get_base_buy_price(ItemType::Axe), 410);
    assert_eq!(Item::get_name(ItemType::Marshmallow), "Marshmallow");
    let item = Item::new(ItemType::Cocoa, 9);
    assert_eq!(item.quantity, 9);
    assert_eq!(item.sell_price, 15);
    assert_eq!(item.base_buy_price, 16);
    assert_eq!(item.name, "Cocoa");
    assert!(!item.boosted);
}

#[test]
fn icon_paths_follow_item_kinds() {
    let icons = load_item_icons();
    assert_eq!(icons.items.len(), 18);
    assert_eq!(icons.item_icon(ItemType::Log), "icons/items/log256.png");
    assert_eq!(icons.item_icon(ItemType::BronzeCoin), "icons/items/bronze_coin256.png");
    assert_eq!(icons.cabin, "icons/buildings/cabin256.png");
}

#[test]
fn starting_inventory() {
    let inv = Inventory::default();
    assert_eq!(inv.balance, 100);
    assert_eq!(inv.items.len(), 18);
    assert_eq!(qty(&inv, ItemType::BronzeCoin), 5);
    assert_eq!(qty(&inv, ItemType::Taffy), 26);
    assert_eq!(qty(&inv, ItemType::Axe), 0);
    assert_eq!(inv.quantity_of(ItemType::Nougat), 14);
}

#[test]
fn sell_moves_units_into_balance() {
    let mut inv = Inventory::default();
    assert!(inv.sell(ItemType::Taffy, 5));
    assert_eq!(qty(&inv, ItemType::Taffy), 21);
    assert_eq!(inv.balance, 125);
    assert_eq!(qty(&inv, ItemType::Nougat), 14);
}

#[test]
fn sell_of_zero_or_too_many_is_rejected() {
    let mut inv = Inventory::default();
    assert!(!inv.sell(ItemType::Taffy, 0));
    assert!(!inv.sell(ItemType::Taffy, 27));
    assert!(!inv.sell(ItemType::Apple, 1));
    assert_eq!(inv.balance, 100);
    assert_eq!(qty(&inv, ItemType::Taffy), 26);
}

#[test]
fn sell_that_would_overflow_balance_is_rejected() {
    let mut inv = Inventory::default();
    inv.balance = u32::MAX - 10;
    assert!(!inv.sell(ItemType::Taffy, 3));
    assert_eq!(qty(&inv, ItemType::Taffy), 26);
    assert!(inv.sell(ItemType::Taffy, 2));
    assert_eq!(inv.balance, u32::MAX);
}

#[test]
fn sell_uses_boosted_price() {
    let mut inv = Inventory::default();
    inv.apply_boosts(&vec![slot_of(ItemType::Taffy)]);
    assert!(inv.items[slot_of(ItemType::Taffy)].boosted);
    assert_eq!(inv.sell_price_of(ItemType::Taffy), 10);
    assert!(inv.sell(ItemType::Taffy, 3));
    assert_eq!(inv.balance, 130);
    inv.apply_boosts(&vec![]);
    assert_eq!(inv.sell_price_of(ItemType::Taffy), 5);
}

#[test]
fn buy_moves_units_from_market() {
    let mut inv = Inventory::default();
    let mut market = MarketInventory::default();
    assert!(buy(&mut inv, &mut market, ItemType::Taffy, 2));
    assert_eq!(inv.balance, 88);
    assert_eq!(qty(&inv, ItemType::Taffy), 28);
    assert_eq!(market.stock_of(ItemType::Taffy), 24);
    assert_eq!(market.stock_of(ItemType::Taffy) + qty(&inv, ItemType::Taffy), 26 + 26);
}

#[test]
fn buy_without_funds_or_stock_is_rejected() {
    let mut inv = Inventory::default();
    let mut market = MarketInventory::default();
    assert!(!buy(&mut inv, &mut market, ItemType::Nougat, 8));
    assert!(!buy(&mut inv, &mut market, ItemType::Marshmallow, 4));
    assert!(!buy(&mut inv, &mut market, ItemType::Apple, 1));
    assert_eq!(inv.balance, 100);
    assert_eq!(market.stock_of(ItemType::Nougat), 14);
    assert_eq!(market.stock_of(ItemType::Marshmallow), 3);
    assert!(buy(&mut inv, &mut market, ItemType::Marshmallow, 3));
    assert_eq!(inv.balance, 10);
    assert_eq!(market.stock_of(ItemType::Marshmallow), 0);
}

#[test]
fn market_default_stock() {
    let market = MarketInventory::default();
    let stock: Vec<u32> = market.items.iter().map(|i| i.quantity).collect();
    assert_eq!(stock, vec![26, 14, 3, 8, 9, 18]);
    assert_eq!(market.stock_of(ItemType::Steel), 0);
}

#[test]
fn construct_purchase() {
    let mut inv = Inventory::default();
    let mut shop = ConstructInventory::default();
    assert_eq!(shop.remaining(BuildingType::Factory), 2);
    assert!(buy_construct(&mut inv, &mut shop, BuildingType::CandyShop));
    assert_eq!(inv.balance, 0);
    assert_eq!(shop.remaining(BuildingType::CandyShop), 3);
    assert!(!buy_construct(&mut inv, &mut shop, BuildingType::Tree));
    assert_eq!(shop.remaining(BuildingType::Tree), 3);
    inv.balance = 500;
    assert!(!buy_construct(&mut inv, &mut shop, BuildingType::Cabin));
    assert_eq!(inv.balance, 500);
    assert_eq!(BuildingItem::get_name(BuildingType::CoffeeShop), "Coffee Shop");
    assert_eq!(BuildingItem::get_price(BuildingType::Market), 0);
}

#[test]
fn upgrade_city_centre_with_exact_funds() {
    let mut inv = Inventory::default();
    inv.balance = 1000;
    set_qty(&mut inv, ItemType::Branch, 20);
    set_qty(&mut inv, ItemType::Taffy, 50);
    set_qty(&mut inv, ItemType::Coffee, 50);
    let mut cc = city_centre();
    assert_eq!(cc.speed, 15);
    assert!(upgrade_building(&mut inv, &mut cc, &UpgradeData::new()));
    assert_eq!(inv.balance, 0);
    assert_eq!(cc.level, 2);
    assert_eq!(cc.speed, 12);
    assert_eq!(qty(&inv, ItemType::Branch), 0);
    assert_eq!(qty(&inv, ItemType::Taffy), 0);
    assert_eq!(qty(&inv, ItemType::Coffee), 0);
    assert_eq!(qty(&inv, ItemType::Nougat), 14);
}

#[test]
fn upgrade_city_centre_one_short_fails() {
    let mut inv = Inventory::default();
    inv.balance = 999;
    set_qty(&mut inv, ItemType::Branch, 20);
    set_qty(&mut inv, ItemType::Taffy, 50);
    set_qty(&mut inv, ItemType::Coffee, 50);
    let mut cc = city_centre();
    assert!(!upgrade_building(&mut inv, &mut cc, &UpgradeData::new()));
    assert_eq!(cc.level, 1);
    assert_eq!(inv.balance, 999);
    assert_eq!(qty(&inv, ItemType::Taffy), 50);
}

#[test]
fn upgrade_missing_material_fails() {
    let mut inv = Inventory::default();
    inv.balance = 5000;
    set_qty(&mut inv, ItemType::Branch, 19);
    set_qty(&mut inv, ItemType::Taffy, 50);
    set_qty(&mut inv, ItemType::Coffee, 50);
    let mut cc = city_centre();
    assert!(!upgrade_building(&mut inv, &mut cc, &UpgradeData::new()));
    assert_eq!(cc.level, 1);
    assert_eq!(inv.balance, 5000);
}

#[test]
fn upgrade_at_max_level_fails() {
    let mut inv = Inventory::default();
    inv.balance = 100_000;
    for t in [ItemType::Log, ItemType::Nougat, ItemType::Cocoa] {
        set_qty(&mut inv, t, 500);
    }
    let mut cc = city_centre();
    cc.level = 2;
    assert!(!upgrade_building(&mut inv, &mut cc, &UpgradeData::new()));
    assert_eq!(cc.level, 2);
    assert_eq!(inv.balance, 100_000);
    let mut market = Building::service(BuildingType::Market, 30);
    assert!(!upgrade_building(&mut inv, &mut market, &UpgradeData::new()));
}

#[test]
fn catalog_lookup() {
    let data = UpgradeData::new();
    let row = data.get(BuildingType::Factory, 2).unwrap();
    assert_eq!(row.speed, 12);
    assert_eq!(row.upgrade_cost, 5600);
    assert_eq!(row.yields[0], (ItemType::Steel, 14));
    assert!(data.get(BuildingType::Factory, 3).is_none());
    assert!(data.next(BuildingType::Cabin, 2).is_none());
    assert!(data.get(BuildingType::Market, 1).is_none());
    assert_eq!(data.next(BuildingType::Tree, 1).unwrap().upgrade_cost, 2600);
}

#[test]
fn collect_moves_yields_and_zeroes_them() {
    let mut inv = Inventory::default();
    let mut cc = city_centre();
    cc.yields[0].1 = 30;
    cc.yields[1].1 = 3;
    assert!(collect_yields(&mut inv, &mut cc));
    assert_eq!(qty(&inv, ItemType::BronzeCoin), 35);
    assert_eq!(qty(&inv, ItemType::SilverCoin), 4);
    assert_eq!(qty(&inv, ItemType::GoldCoin), 0);
    assert_eq!(inv.balance, 100);
    assert!(cc.yields.iter().all(|y| y.1 == 0));
    assert_eq!(YieldCountText { position: 0 }.count(&cc), Some(0));
    assert_eq!(YieldCountText { position: 3 }.count(&cc), None);
}

#[test]
fn collect_twice_changes_nothing_the_second_time() {
    let mut inv = Inventory::default();
    let mut cc = city_centre();
    cc.yields[0].1 = 12;
    assert!(collect_yields(&mut inv, &mut cc));
    let bronze = qty(&inv, ItemType::BronzeCoin);
    assert!(collect_yields(&mut inv, &mut cc));
    assert_eq!(qty(&inv, ItemType::BronzeCoin), bronze);
    assert_eq!(bronze, 17);
    assert_eq!(inv.balance, 100);
}

#[test]
fn collect_that_would_overflow_is_rejected() {
    let mut inv = Inventory::default();
    set_qty(&mut inv, ItemType::SilverCoin, u32::MAX);
    let mut cc = city_centre();
    cc.yields[0].1 = 4;
    cc.yields[1].1 = 1;
    assert!(!collect_yields(&mut inv, &mut cc));
    assert_eq!(cc.yields[0].1, 4);
    assert_eq!(qty(&inv, ItemType::BronzeCoin), 5);
}

#[test]
fn quantity_selector_clamps_at_zero() {
    let mut q = QuantitySelector::new();
    q.apply_increment(1);
    q.apply_increment(1);
    q.apply_increment(1);
    q.apply_increment(1);
    q.apply_increment(1);
    q.apply_increment(1);
    q.apply_increment(1);
    assert_eq!(q.quantity, 7);
    q.apply_increment(-10);
    assert_eq!(q.quantity, 0);
    q.apply_increment(-1);
    assert_eq!(q.quantity, 0);
    q.apply_increment(10);
    q.apply_increment(-1);
    assert_eq!(q.quantity, 9);
    q.quantity = u32::MAX - 3;
    q.apply_increment(10);
    assert_eq!(q.quantity, u32::MAX);
}

#[test]
fn wide_product() {
    assert_eq!(wide_mul(u32::MAX, u32::MAX), 18446744065119617025);
    assert_eq!(wide_mul(20, 14), 280);
}

#[test]
fn upgrade_panel_figures() {
    let mut inv = Inventory::default();
    inv.balance = 1200;
    set_qty(&mut inv, ItemType::Branch, 7);
    let data = UpgradeData::new();
    let mut cc = city_centre();
    let v = upgrade_view(&inv, &cc, &data).unwrap();
    assert_eq!(v.level, 1);
    assert_eq!(v.next_level, Some(2));
    assert_eq!(v.speed, 15);
    assert_eq!(v.next_speed, Some(12));
    assert_eq!(v.cost, 1000);
    assert!(v.cost_met);
    assert_eq!(v.materials.len(), 3);
    assert_eq!(v.materials[0].item_type, ItemType::Branch);
    assert_eq!((v.materials[0].held, v.materials[0].required, v.materials[0].met), (7, 20, false));
    assert_eq!((v.materials[1].held, v.materials[1].required, v.materials[1].met), (26, 50, false));
    cc.level = 2;
    let v = upgrade_view(&inv, &cc, &data).unwrap();
    assert_eq!(v.next_level, None);
    assert_eq!(v.next_speed, None);
    assert_eq!(v.cost, 5500);
    assert!(!v.cost_met);
    let market = Building::service(BuildingType::Market, 30);
    assert!(upgrade_view(&inv, &market, &data).is_none());
}
