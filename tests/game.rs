use cityidle::camera::{on_change_camera_state, set_cursor_lock, CameraState, ChangeCameraStateEvent, Cursor};
use cityidle::construct::ConstructPhase;
use cityidle::game::{GameState, CITY_CENTRE_TILE, CONSTRUCT_TILE, MARKET_TILE};
use cityidle::grid::{spawn_grid, tile_at, BuildingType};
use cityidle::items::{slot_of, ItemType};
use cityidle::timers::NANOS_PER_SEC;
use cityidle::ui::UiState;

const S: u64 = NANOS_PER_SEC;

fn market_stock(g: &GameState) -> Vec<u32> {
    g.market.items.iter().map(|i| i.quantity).collect()
}

#[test]
fn grid_layout() {
    let tiles = spawn_grid();
    assert_eq!(tiles.len(), 121);
    assert_eq!((tiles[83].x, tiles[83].z), (70, 60));
    assert_eq!((tiles[120].x, tiles[120].z), (100, 100));
    assert_eq!(tile_at(70, 60), Some(83));
    assert_eq!(tile_at(80, 40), Some(92));
    assert_eq!(tile_at(75, 0), None);
    assert_eq!(tile_at(110, 0), None);
}

#[test]
fn new_game_places_starting_buildings() {
    let g = GameState::new();
    assert_eq!(g.buildings.len(), 3);
    assert_eq!(g.tiles[CITY_CENTRE_TILE].building, Some(0));
    assert_eq!(g.tiles[MARKET_TILE].building, Some(1));
    assert_eq!(g.tiles[CONSTRUCT_TILE].building, Some(2));
    assert_eq!(g.buildings[0].building_type, BuildingType::CityCentre);
    assert_eq!(g.buildings[1].speed, 30);
    assert_eq!(g.timers.map.len(), 3);
    assert_eq!(g.ui_state, UiState::Closed);
    assert_eq!(g.camera_state, CameraState::CursorLocked);
}

#[test]
fn first_second_fires_every_timer() {
    let mut g = GameState::new();
    g.tick_timers(S);
    assert_eq!(g.buildings[0].yields[0].1, 10);
    let boosted: Vec<usize> = (0..18).filter(|&i| g.inventory.items[i].boosted).collect();
    assert_eq!(boosted.len(), 5);
    for i in 0..18 {
        let item = &g.inventory.items[i];
        let base = cityidle::items::Item::get_sell_price(item.item_type);
        assert_eq!(item.sell_price, if item.boosted { 2 * base } else { base });
    }
}

#[test]
fn market_restocks_every_thirty_seconds() {
    let mut g = GameState::new();
    g.tick_timers(S);
    g.click_tile(MARKET_TILE);
    assert_eq!(g.ui_state, UiState::Market);
    g.select_market_item(ItemType::Taffy);
    g.change_buy_quantity(10);
    assert!(g.buy_quantity.allowed);
    g.buy_button_interaction();
    assert_eq!(g.inventory.balance, 40);
    assert_eq!(market_stock(&g), vec![16, 14, 3, 8, 9, 18]);
    g.exit_uistate();
    g.tick_timers(29 * S);
    assert_eq!(market_stock(&g), vec![16, 14, 3, 8, 9, 18]);
    g.tick_timers(S);
    assert_eq!(market_stock(&g), vec![26, 14, 3, 8, 9, 18]);
}

#[test]
fn restock_closes_open_market_panel() {
    let mut g = GameState::new();
    g.tick_timers(S);
    g.click_tile(MARKET_TILE);
    assert_eq!(g.camera_state, CameraState::Frozen);
    g.tick_timers(30 * S);
    assert_eq!(g.ui_state, UiState::Closed);
    assert_eq!(g.camera_state, CameraState::CursorLocked);
}

#[test]
fn city_centre_accumulates_over_whole_periods() {
    let mut g = GameState::new();
    g.tick_timers(S);
    g.click_tile(CITY_CENTRE_TILE);
    assert_eq!(g.ui_state, UiState::Upgrade);
    assert_eq!(g.selected_building.building, Some(0));
    g.collect_button_interaction();
    assert_eq!(g.inventory.items[slot_of(ItemType::BronzeCoin)].quantity, 15);
    assert_eq!(g.buildings[0].yields[0].1, 0);
    g.tick_timers(15 * S);
    g.tick_timers(20 * S);
    g.tick_timers(10 * S);
    assert_eq!(g.buildings[0].yields[0].1, 30);
    g.collect_button_interaction();
    g.collect_button_interaction();
    assert_eq!(g.inventory.items[slot_of(ItemType::BronzeCoin)].quantity, 45);
}

#[test]
fn upgrade_through_panel_changes_timer_period() {
    let mut g = GameState::new();
    g.inventory.balance = 1000;
    g.inventory.items[slot_of(ItemType::Branch)].quantity = 20;
    g.inventory.items[slot_of(ItemType::Taffy)].quantity = 50;
    g.inventory.items[slot_of(ItemType::Coffee)].quantity = 50;
    g.click_tile(CITY_CENTRE_TILE);
    g.upgrade_button_interaction();
    assert_eq!(g.buildings[0].level, 2);
    assert_eq!(g.buildings[0].speed, 12);
    assert_eq!(g.inventory.balance, 0);
    assert_eq!(g.timers.map[0].1.duration, 12 * S);
    g.upgrade_button_interaction();
    assert_eq!(g.buildings[0].level, 2);
}

#[test]
fn upgrade_through_panel_one_short() {
    let mut g = GameState::new();
    g.inventory.balance = 999;
    g.inventory.items[slot_of(ItemType::Branch)].quantity = 20;
    g.inventory.items[slot_of(ItemType::Taffy)].quantity = 50;
    g.inventory.items[slot_of(ItemType::Coffee)].quantity = 50;
    g.click_tile(CITY_CENTRE_TILE);
    g.upgrade_button_interaction();
    assert_eq!(g.buildings[0].level, 1);
    assert_eq!(g.inventory.balance, 999);
    assert_eq!(g.timers.map[0].1.duration, 15 * S);
}

#[test]
fn inventory_panel_sell_flow() {
    let mut g = GameState::new();
    g.toggle_inventory();
    assert_eq!(g.ui_state, UiState::Inventory);
    assert_eq!(g.camera_state, CameraState::Frozen);
    g.select_inventory_item(ItemType::Taffy);
    assert_eq!(g.selected_item.quantity, 26);
    g.change_sell_quantity(-10);
    assert_eq!(g.sell_quantity.quantity, 0);
    assert!(!g.sell_quantity.allowed);
    g.sell_button_interaction();
    assert_eq!(g.inventory.balance, 100);
    g.change_sell_quantity(10);
    assert!(g.sell_quantity.allowed);
    g.sell_button_interaction();
    assert_eq!(g.inventory.balance, 150);
    assert_eq!(g.selected_item.quantity, 16);
    assert_eq!(g.sell_quantity.quantity, 0);
    g.toggle_inventory();
    assert_eq!(g.ui_state, UiState::Closed);
    assert_eq!(g.camera_state, CameraState::CursorLocked);
    assert!(g.selected_item.item_type.is_none());
}

#[test]
fn sell_signal_off_above_owned() {
    let mut g = GameState::new();
    g.toggle_inventory();
    g.select_inventory_item(ItemType::Marshmallow);
    g.change_sell_quantity(10);
    assert!(!g.sell_quantity.allowed);
    g.sell_button_interaction();
    assert_eq!(g.inventory.items[slot_of(ItemType::Marshmallow)].quantity, 3);
}

#[test]
fn construction_flow_places_building() {
    let mut g = GameState::new();
    g.click_tile(CONSTRUCT_TILE);
    assert_eq!(g.ui_state, UiState::Construct);
    g.select_construct_item(BuildingType::CandyShop);
    assert_eq!(g.selected_construct_item.buy_price, 100);
    g.construct_buy_button_interaction();
    assert_eq!(g.inventory.balance, 0);
    assert_eq!(g.stash.0, Some(BuildingType::CandyShop));
    assert_eq!(g.phase, ConstructPhase::Preview);
    assert_eq!(g.ui_state, UiState::Closed);
    assert_eq!(g.camera_state, CameraState::ConstructPreview);
    g.toggle_inventory();
    assert_eq!(g.ui_state, UiState::Closed);
    g.hover_tile(CITY_CENTRE_TILE);
    assert_eq!(g.preview_tile, Some(CITY_CENTRE_TILE));
    g.click_tile(CITY_CENTRE_TILE);
    assert_eq!(g.buildings.len(), 3);
    assert_eq!(g.phase, ConstructPhase::Preview);
    g.unhover_tile(CITY_CENTRE_TILE);
    assert_eq!(g.preview_tile, None);
    g.click_tile(0);
    assert_eq!(g.buildings.len(), 4);
    assert_eq!(g.tiles[0].building, Some(3));
    assert_eq!(g.buildings[3].building_type, BuildingType::CandyShop);
    assert_eq!(g.buildings[3].level, 1);
    assert_eq!(g.buildings[3].speed, 15);
    assert_eq!(g.buildings[3].yields, vec![(ItemType::Taffy, 0), (ItemType::Nougat, 0), (ItemType::Marshmallow, 0)]);
    assert_eq!(g.timers.map.len(), 4);
    assert_eq!(g.phase, ConstructPhase::Normal);
    assert!(g.stash.0.is_none());
    assert_eq!(g.camera_state, CameraState::CursorLocked);
    g.tick_timers(S);
    assert_eq!(g.buildings[3].yields[0].1, 10);
    assert_eq!(g.buildings[3].yields[1].1, 1);
}

#[test]
fn construction_buy_without_funds_does_nothing() {
    let mut g = GameState::new();
    g.inventory.balance = 99;
    g.click_tile(CONSTRUCT_TILE);
    g.select_construct_item(BuildingType::Tree);
    g.construct_buy_button_interaction();
    assert_eq!(g.phase, ConstructPhase::Normal);
    assert_eq!(g.ui_state, UiState::Construct);
    assert_eq!(g.inventory.balance, 99);
    assert_eq!(g.construct.remaining(BuildingType::Tree), 3);
}

#[test]
fn clicks_on_empty_tiles_do_nothing_in_normal_phase() {
    let mut g = GameState::new();
    g.click_tile(5);
    g.click_tile(500);
    assert_eq!(g.ui_state, UiState::Closed);
    assert_eq!(g.buildings.len(), 3);
}

#[test]
fn camera_toggles_and_effects() {
    let mut g = GameState::new();
    g.toggle_camera_state();
    assert_eq!(g.camera_state, CameraState::CursorUnlocked);
    g.toggle_camera_state();
    assert_eq!(g.camera_state, CameraState::CursorLocked);
    g.toggle_inventory();
    g.toggle_camera_state();
    assert_eq!(g.camera_state, CameraState::Frozen);
    let fx = on_change_camera_state(&ChangeCameraStateEvent(CameraState::CursorUnlocked));
    assert!(!fx.cursor_locked);
    assert!(fx.picking);
    let fx = on_change_camera_state(&ChangeCameraStateEvent(CameraState::Frozen));
    assert!(!fx.picking);
    let mut cursor = Cursor { locked: false, visible: true };
    set_cursor_lock(&mut cursor, true);
    assert!(cursor.locked);
    assert!(!cursor.visible);
}

#[test]
fn exit_key_restores_previous_camera() {
    let mut g = GameState::new();
    g.toggle_camera_state();
    g.click_tile(CITY_CENTRE_TILE);
    assert_eq!(g.previous_camera_state.0, Some(CameraState::CursorUnlocked));
    g.exit_uistate();
    assert_eq!(g.ui_state, UiState::Closed);
    assert_eq!(g.camera_state, CameraState::CursorUnlocked);
    assert!(g.selected_building.building.is_none());
}

#[test]
fn starting_buildings_levels_speeds_and_tiles() {
    let g = GameState::new();
    assert_eq!((g.buildings[1].level, g.buildings[2].level), (1, 1));
    assert_eq!(g.buildings[2].speed, 0);
    assert_eq!((g.tiles[MARKET_TILE].x, g.tiles[MARKET_TILE].z), (70, 70));
    assert_eq!((g.tiles[CONSTRUCT_TILE].x, g.tiles[CONSTRUCT_TILE].z), (80, 40));
    assert_eq!(g.tiles.iter().filter(|t| t.building.is_some()).count(), 3);
    let periods: Vec<u64> = g.timers.map.iter().map(|(_, t)| t.duration / S).collect();
    assert_eq!(periods, vec![15, 30, 30]);
}

#[test]
fn boost_rotation_updates_inspected_price() {
    let mut g = GameState::new();
    g.toggle_inventory();
    g.select_inventory_item(ItemType::Phone);
    g.tick_timers(S);
    let shown = g.selected_item.sell_price;
    assert_eq!(shown, g.inventory.items[slot_of(ItemType::Phone)].sell_price);
    assert!(shown == 350 || shown == 700);
    assert_eq!(g.selected_item.item_type, Some(ItemType::Phone));
}

#[test]
fn ignored_inventory_key_keeps_selection() {
    let mut g = GameState::new();
    g.click_tile(CITY_CENTRE_TILE);
    g.toggle_inventory();
    assert_eq!(g.ui_state, UiState::Upgrade);
    assert_eq!(g.selected_building.building, Some(0));
    assert_eq!(g.previous_camera_state.0, Some(CameraState::CursorLocked));
}

#[test]
fn shop_purchase_leaves_other_entries() {
    let mut g = GameState::new();
    g.click_tile(CONSTRUCT_TILE);
    g.select_construct_item(BuildingType::Factory);
    g.construct_buy_button_interaction();
    assert_eq!(g.construct.remaining(BuildingType::Factory), 1);
    assert_eq!(g.construct.remaining(BuildingType::CandyShop), 4);
    assert_eq!(g.construct.remaining(BuildingType::CoffeeShop), 3);
    assert_eq!(g.construct.remaining(BuildingType::Tree), 3);
    assert!(g.selected_construct_item.building_type.is_none());
}
