use crate::camera::{restored, toggled, CameraState, PreviousCameraState};
use crate::construct::{
    buy_construct, can_buy_construct, construct_price, shop_slot, BuildingItem, BuildingStash,
    ConstructInventory, ConstructPhase, SelectedConstructItem,
};
use crate::grid::{fresh_yields, spawn_grid, tile_x, tile_z, Building, BuildingType, Tile, GRID_TILES};
use crate::inventory::{
    sell_signal, sold, stepped, with_boost, Inventory, QuantitySelector, SelectedItemStats,
};
use crate::items::{base_buy_price_of, Item, ItemType, ITEM_KINDS};
use crate::market::{bought, buy, can_buy, market_slot, MarketInventory, SelectedMarketItem};
use crate::timers::{produce, produced, yield_rate, RepeatingTimer, Timers};
use crate::ui::UiState;
use crate::upgrade::{can_collect, can_upgrade, collect_yields, collected, upgrade_building, upgraded};
use crate::upgrade_data::{lemma_row_shape, level_stats, UpgradeData};
use rand::seq::IteratorRandom;
use vstd::prelude::*;

verus! {

/// Item kinds boosted at each boost rotation.
pub const BOOSTED_KINDS: usize = 5;

/// Seconds between two restocks of the market.
pub const RESTOCK_SECS: u8 = 30;

/// Seconds between two boost rotations.
pub const BOOST_SECS: u8 = 30;

/// Tile of the city centre at the start of a game.
pub const CITY_CENTRE_TILE: usize = 83;

/// Tile of the market.
pub const MARKET_TILE: usize = 84;

/// Tile of the construction office, whose timer drives the boost rotation.
pub const CONSTRUCT_TILE: usize = 92;

/// The building whose upgrade panel is open.
pub struct SelectedBuilding {
    pub building: Option<usize>,
}

/// The whole state of a game: the grid and its buildings, the production timers, the
/// ledgers, and the state of the camera, of the panels and of the construction flow.
pub struct GameState {
    pub tiles: Vec<Tile>,
    /// Every building placed, indexed by its id.
    pub buildings: Vec<Building>,
    pub timers: Timers,
    pub upgrade_data: UpgradeData,
    pub inventory: Inventory,
    pub market: MarketInventory,
    pub construct: ConstructInventory,
    pub stash: BuildingStash,
    pub phase: ConstructPhase,
    pub ui_state: UiState,
    pub camera_state: CameraState,
    pub previous_camera_state: PreviousCameraState,
    pub selected_building: SelectedBuilding,
    pub selected_item: SelectedItemStats,
    pub sell_quantity: QuantitySelector,
    pub selected_market_item: SelectedMarketItem,
    pub buy_quantity: QuantitySelector,
    pub selected_construct_item: SelectedConstructItem,
    /// The tile showing the placement indicator while a building waits to be placed.
    pub preview_tile: Option<usize>,
}

/// Tile `k` lies at world position `(tile_x(k), tile_z(k))`.
pub open spec fn tiles_laid_out(tiles: Seq<Tile>) -> bool {
    &&& tiles.len() == GRID_TILES
    &&& forall|k: int| 0 <= k < GRID_TILES ==> (#[trigger] tiles[k]).x == tile_x(k) && tiles[k].z == tile_z(k)
}

/// The ledgers, the buildings, the tiles and the timers are the same in both states.
pub open spec fn same_world(a: GameState, b: GameState) -> bool {
    &&& a.tiles == b.tiles
    &&& a.buildings == b.buildings
    &&& a.timers == b.timers
    &&& a.inventory == b.inventory
    &&& a.market == b.market
    &&& a.construct == b.construct
}

/// The camera, the panels, the construction flow and the selections are the same in both states.
pub open spec fn same_controls(a: GameState, b: GameState) -> bool {
    &&& a.stash == b.stash
    &&& a.phase == b.phase
    &&& a.ui_state == b.ui_state
    &&& a.camera_state == b.camera_state
    &&& a.previous_camera_state == b.previous_camera_state
    &&& a.selected_building == b.selected_building
    &&& a.selected_item == b.selected_item
    &&& a.sell_quantity == b.sell_quantity
    &&& a.selected_market_item == b.selected_market_item
    &&& a.buy_quantity == b.buy_quantity
    &&& a.selected_construct_item == b.selected_construct_item
    &&& a.preview_tile == b.preview_tile
}

/// Nothing in the two states differs, up to the identity of the building list.
pub open spec fn unchanged(a: GameState, b: GameState) -> bool {
    &&& same_controls(a, b)
    &&& a.tiles == b.tiles
    &&& a.buildings@ == b.buildings@
    &&& a.timers == b.timers
    &&& a.inventory == b.inventory
    &&& a.market == b.market
    &&& a.construct == b.construct
}

/// `b` is `a` with its open panel closed: the camera back to the saved state, every
/// selection dropped, and the construction flow as it was.
pub open spec fn closed_panel(a: GameState, b: GameState) -> bool {
    &&& b.ui_state == UiState::Closed
    &&& b.camera_state == restored(a.previous_camera_state.0)
    &&& b.previous_camera_state == a.previous_camera_state
    &&& b.phase == a.phase
    &&& b.stash == a.stash
    &&& b.preview_tile == a.preview_tile
    &&& selections_cleared(b)
}

/// The controls are the same in both states, but for the shown price of the inspected item.
pub open spec fn same_controls_but_price(a: GameState, b: GameState) -> bool {
    &&& a.stash == b.stash
    &&& a.phase == b.phase
    &&& a.ui_state == b.ui_state
    &&& a.camera_state == b.camera_state
    &&& a.previous_camera_state == b.previous_camera_state
    &&& a.selected_building == b.selected_building
    &&& a.selected_item.item_type == b.selected_item.item_type
    &&& a.selected_item.quantity == b.selected_item.quantity
    &&& a.sell_quantity == b.sell_quantity
    &&& a.selected_market_item == b.selected_market_item
    &&& a.buy_quantity == b.buy_quantity
    &&& a.selected_construct_item == b.selected_construct_item
    &&& a.preview_tile == b.preview_tile
}

/// The inspected item, if any, shows its current price in the inventory.
pub open spec fn shown_price_current(g: GameState) -> bool {
    g.selected_item.item_type matches Some(t) ==> g.selected_item.sell_price == g.inventory.price(t)
}

impl GameState {
    pub open spec fn wf(&self) -> bool {
        &&& self.inventory.wf()
        &&& self.market.wf()
        &&& self.construct.wf()
        &&& self.timers.wf()
        &&& self.tiles@.len() == GRID_TILES
        &&& forall|i: int| 0 <= i < self.buildings@.len() ==> (#[trigger] self.buildings@[i]).wf()
        &&& forall|j: int|
            0 <= j < self.timers.map@.len() ==> (#[trigger] self.timers.map@[j]).0
                < self.buildings@.len()
        &&& forall|i: int| 0 <= i < self.buildings@.len() ==> #[trigger] self.timers.has(i as usize)
        &&& forall|k: int|
            0 <= k < self.tiles@.len() ==> ((#[trigger] self.tiles@[k]).building matches Some(id)
                ==> id < self.buildings@.len())
        &&& shown_price_current(*self)
        &&& (self.selected_market_item.item_type matches Some(t) ==> self.selected_market_item.buy_price
            == base_buy_price_of(t))
    }

    /// Puts a building on a tile, gives it an id and registers its timer.
    fn place(&mut self, tile: usize, building: Building, speed: u8) -> (id: usize)
        requires
            old(self).wf(),
            tile < GRID_TILES,
            building.wf(),
            speed >= 1,
        ensures
            final(self).wf(),
            id == old(self).buildings@.len(),
            final(self).buildings@ == old(self).buildings@.push(building),
            final(self).tiles@ == old(self).tiles@.update(
                tile as int,
                Tile { building: Some(id), ..old(self).tiles@[tile as int] },
            ),
            final(self).timers.map@ == old(self).timers.map@.push((id, RepeatingTimer::new_spec(speed))),
            final(self).inventory == old(self).inventory,
            final(self).market == old(self).market,
            final(self).construct == old(self).construct,
            same_controls(*old(self), *final(self)),
    {
        let id = self.buildings.len();
        proof {
            assert(!self.timers.has(id)) by {
                if self.timers.has(id) {
                    let j = choose|j: int| 0 <= j < self.timers.map@.len() && (#[trigger] self.timers.map@[j]).0 == id;
                    assert(self.timers.map@[j].0 < self.buildings@.len());
                }
            }
        }
        self.buildings.push(building);
        self.tiles[tile].building = Some(id);
        self.timers.add_timer(id, speed);
        proof {
            assert forall|i: int| 0 <= i < self.buildings@.len() implies #[trigger] self.timers.has(i as usize) by {
                if i < id {
                    assert(old(self).timers.has(i as usize));
                    let j = choose|j: int| 0 <= j < old(self).timers.map@.len() && (#[trigger] old(self).timers.map@[j]).0 == i as usize;
                    assert(self.timers.map@[j] == old(self).timers.map@[j]);
                } else {
                    let last = old(self).timers.map@.len() as int;
                    assert(self.timers.map@[last].0 == id);
                }
            }
            assert forall|j: int| 0 <= j < self.timers.map@.len() implies (#[trigger] self.timers.map@[j]).0 < self.buildings@.len() by {
                if j < old(self).timers.map@.len() {
                    assert(self.timers.map@[j] == old(self).timers.map@[j]);
                }
            }
            assert forall|i: int| 0 <= i < self.buildings@.len() implies (#[trigger] self.buildings@[i]).wf() by {
                if i < id {
                    assert(self.buildings@[i] == old(self).buildings@[i]);
                }
            }
        }
        id
    }
}

/// The panel a click on a building opens.
pub open spec fn panel_for(b: BuildingType) -> UiState {
    match b {
        BuildingType::Market => UiState::Market,
        BuildingType::Construct => UiState::Construct,
        _ => UiState::Upgrade,
    }
}

/// Whether the exit key closes the open panel.
pub open spec fn closable(ui: UiState, phase: ConstructPhase) -> bool {
    ui == UiState::Market || ui == UiState::Upgrade || (ui == UiState::Construct && phase
        == ConstructPhase::Normal)
}

/// No panel selection is held and the quantity selectors are back at zero.
pub open spec fn selections_cleared(g: GameState) -> bool {
    &&& g.selected_item.item_type.is_none()
    &&& g.selected_market_item.item_type.is_none()
    &&& g.selected_construct_item.building_type.is_none()
    &&& g.selected_building.building.is_none()
    &&& g.sell_quantity.quantity == 0
    &&& g.buy_quantity.quantity == 0
}

impl GameState {
    /// A new game: the empty grid with the city centre, the market and the construction
    /// office placed, full ledgers, every panel closed and the cursor locked.
    pub fn new() -> (r: Self)
        ensures
            r.wf(),
            r.buildings@.len() == 3,
            r.buildings@[0].building_type == BuildingType::CityCentre,
            r.buildings@[0].level == 1,
            r.buildings@[0].yields@ == fresh_yields(level_stats(BuildingType::CityCentre, 1).unwrap()),
            r.buildings@[0].speed == 15,
            r.buildings@[1].building_type == BuildingType::Market,
            r.buildings@[1].yields@.len() == 0,
            r.buildings@[1].level == 1,
            r.buildings@[1].speed == RESTOCK_SECS,
            r.buildings@[2].building_type == BuildingType::Construct,
            r.buildings@[2].level == 1,
            r.buildings@[2].yields@.len() == 0,
            r.buildings@[2].speed == 0,
            tiles_laid_out(r.tiles@),
            (r.tiles@[CITY_CENTRE_TILE as int].x, r.tiles@[CITY_CENTRE_TILE as int].z) == (70u32, 60u32),
            (r.tiles@[MARKET_TILE as int].x, r.tiles@[MARKET_TILE as int].z) == (70u32, 70u32),
            (r.tiles@[CONSTRUCT_TILE as int].x, r.tiles@[CONSTRUCT_TILE as int].z) == (80u32, 40u32),
            r.tiles@[CITY_CENTRE_TILE as int].building == Some(0usize),
            r.tiles@[MARKET_TILE as int].building == Some(1usize),
            r.tiles@[CONSTRUCT_TILE as int].building == Some(2usize),
            forall|k: int|
                0 <= k < GRID_TILES && k != CITY_CENTRE_TILE && k != MARKET_TILE && k != CONSTRUCT_TILE
                    ==> (#[trigger] r.tiles@[k]).building.is_none(),
            r.timers.map@ == seq![
                (0usize, RepeatingTimer::new_spec(15)),
                (1usize, RepeatingTimer::new_spec(RESTOCK_SECS)),
                (2usize, RepeatingTimer::new_spec(BOOST_SECS)),
            ],
            r.inventory.is_initial(),
            r.market.is_full(),
            r.construct.is_initial(),
            r.stash.0.is_none(),
            r.phase == ConstructPhase::Normal,
            r.ui_state == UiState::Closed,
            r.camera_state == CameraState::CursorLocked,
            r.previous_camera_state.0.is_none(),
            r.preview_tile.is_none(),
            selections_cleared(r),
    {
        let mut g = GameState {
            tiles: spawn_grid(),
            buildings: Vec::new(),
            timers: Timers::new(),
            upgrade_data: UpgradeData::new(),
            inventory: Inventory::default(),
            market: MarketInventory::default(),
            construct: ConstructInventory::default(),
            stash: BuildingStash(None),
            phase: ConstructPhase::Normal,
            ui_state: UiState::Closed,
            camera_state: CameraState::CursorLocked,
            previous_camera_state: PreviousCameraState(None),
            selected_building: SelectedBuilding { building: None },
            selected_item: SelectedItemStats::new(),
            sell_quantity: QuantitySelector::new(),
            selected_market_item: SelectedMarketItem::new(),
            buy_quantity: QuantitySelector::new(),
            selected_construct_item: SelectedConstructItem { building_type: None, buy_price: 0 },
            preview_tile: None,
        };
        g.setup_buildings();
        g
    }

    /// Places the buildings every game starts with, each with its timer.
    fn setup_buildings(&mut self)
        requires
            old(self).wf(),
            old(self).buildings@.len() == 0,
            old(self).timers.map@.len() == 0,
            tiles_laid_out(old(self).tiles@),
            forall|k: int| 0 <= k < GRID_TILES ==> (#[trigger] old(self).tiles@[k]).building.is_none(),
        ensures
            final(self).wf(),
            final(self).buildings@.len() == 3,
            final(self).buildings@[0].building_type == BuildingType::CityCentre,
            final(self).buildings@[0].level == 1,
            final(self).buildings@[0].yields@ == fresh_yields(level_stats(BuildingType::CityCentre, 1).unwrap()),
            final(self).buildings@[0].speed == 15,
            final(self).buildings@[1].building_type == BuildingType::Market,
            final(self).buildings@[1].yields@.len() == 0,
            final(self).buildings@[1].level == 1,
            final(self).buildings@[1].speed == RESTOCK_SECS,
            final(self).buildings@[2].building_type == BuildingType::Construct,
            final(self).buildings@[2].level == 1,
            final(self).buildings@[2].yields@.len() == 0,
            final(self).buildings@[2].speed == 0,
            tiles_laid_out(final(self).tiles@),
            (final(self).tiles@[CITY_CENTRE_TILE as int].x, final(self).tiles@[CITY_CENTRE_TILE as int].z) == (70u32, 60u32),
            (final(self).tiles@[MARKET_TILE as int].x, final(self).tiles@[MARKET_TILE as int].z) == (70u32, 70u32),
            (final(self).tiles@[CONSTRUCT_TILE as int].x, final(self).tiles@[CONSTRUCT_TILE as int].z) == (80u32, 40u32),
            final(self).tiles@[CITY_CENTRE_TILE as int].building == Some(0usize),
            final(self).tiles@[MARKET_TILE as int].building == Some(1usize),
            final(self).tiles@[CONSTRUCT_TILE as int].building == Some(2usize),
            forall|k: int|
                0 <= k < GRID_TILES && k != CITY_CENTRE_TILE && k != MARKET_TILE && k != CONSTRUCT_TILE
                    ==> (#[trigger] final(self).tiles@[k]).building.is_none(),
            final(self).timers.map@ == seq![
                (0usize, RepeatingTimer::new_spec(15)),
                (1usize, RepeatingTimer::new_spec(RESTOCK_SECS)),
                (2usize, RepeatingTimer::new_spec(BOOST_SECS)),
            ],
            final(self).inventory == old(self).inventory,
            final(self).market == old(self).market,
            final(self).construct == old(self).construct,
            same_controls(*old(self), *final(self)),
    {
        let city_centre = Building::spawn(BuildingType::CityCentre, &self.upgrade_data);
        match city_centre {
            Some(b) => {
                self.place(CITY_CENTRE_TILE, b, 15);
            },
            None => {
                proof {
                    assert(false);
                }
            },
        }
        let market = Building::service(BuildingType::Market, RESTOCK_SECS);
        self.place(MARKET_TILE, market, RESTOCK_SECS);
        // The construction office does not produce; its timer drives the boost rotation.
        let office = Building::service(BuildingType::Construct, 0);
        self.place(CONSTRUCT_TILE, office, BOOST_SECS);
        proof {
            assert(self.timers.map@ =~= seq![
                (0usize, RepeatingTimer::new_spec(15)),
                (1usize, RepeatingTimer::new_spec(RESTOCK_SECS)),
                (2usize, RepeatingTimer::new_spec(BOOST_SECS)),
            ]);
        }
    }

    /// Switches to another panel; leaving a panel drops what it had selected.
    fn set_ui(&mut self, next: UiState)
        ensures
            final(self).ui_state == next,
            same_world(*old(self), *final(self)),
            final(self).camera_state == old(self).camera_state,
            final(self).previous_camera_state == old(self).previous_camera_state,
            final(self).phase == old(self).phase,
            final(self).stash == old(self).stash,
            final(self).preview_tile == old(self).preview_tile,
            final(self).upgrade_data == old(self).upgrade_data,
            selections_cleared(*final(self)),
    {
        self.ui_state = next;
        self.selected_item = SelectedItemStats::new();
        self.selected_market_item = SelectedMarketItem::new();
        self.selected_construct_item = SelectedConstructItem { building_type: None, buy_price: 0 };
        self.selected_building = SelectedBuilding { building: None };
        self.sell_quantity = QuantitySelector::new();
        self.buy_quantity = QuantitySelector::new();
    }

    /// The inventory key: opens the inventory from the world, freezing the camera, or
    /// closes it and restores the camera. Ignored while a building waits to be placed.
    pub fn toggle_inventory(&mut self)
        requires
            old(self).wf(),
        ensures
            final(self).wf(),
            same_world(*old(self), *final(self)),
            old(self).phase == ConstructPhase::Normal && old(self).ui_state == UiState::Inventory
                ==> closed_panel(*old(self), *final(self)),
            old(self).phase == ConstructPhase::Normal && old(self).ui_state == UiState::Closed ==> {
                &&& final(self).ui_state == UiState::Inventory
                &&& final(self).camera_state == CameraState::Frozen
                &&& final(self).previous_camera_state.0 == Some(old(self).camera_state)
                &&& final(self).phase == old(self).phase
                &&& final(self).stash == old(self).stash
                &&& final(self).preview_tile == old(self).preview_tile
                &&& selections_cleared(*final(self))
            },
            !(old(self).phase == ConstructPhase::Normal && (old(self).ui_state == UiState::Inventory
                || old(self).ui_state == UiState::Closed)) ==> same_controls(*old(self), *final(self)),
    {
        if self.phase == ConstructPhase::Preview {
            return;
        }
        if self.ui_state == UiState::Inventory {
            self.set_ui(UiState::Closed);
            self.camera_state = self.previous_camera_state.restore();
        } else if self.ui_state == UiState::Closed {
            self.previous_camera_state = PreviousCameraState(Some(self.camera_state));
            self.camera_state = CameraState::Frozen;
            self.set_ui(UiState::Inventory);
        }
    }

    /// The mouse-lock key: switches between locked and free cursor, unless a panel froze
    /// the camera.
    pub fn toggle_camera_state(&mut self)
        requires
            old(self).wf(),
        ensures
            final(self).wf(),
            same_world(*old(self), *final(self)),
            final(self).ui_state == old(self).ui_state,
            final(self).camera_state == if old(self).camera_state == CameraState::Frozen {
                CameraState::Frozen
            } else {
                toggled(old(self).camera_state)
            },
    {
        if self.camera_state != CameraState::Frozen {
            self.camera_state = crate::camera::toggle_camera_state(self.camera_state);
        }
    }

    /// The exit key: closes the market, upgrade or construction panel and restores the camera.
    pub fn exit_uistate(&mut self)
        requires
            old(self).wf(),
        ensures
            final(self).wf(),
            same_world(*old(self), *final(self)),
            closable(old(self).ui_state, old(self).phase) ==> closed_panel(*old(self), *final(self)),
            !closable(old(self).ui_state, old(self).phase) ==> same_controls(*old(self), *final(self)),
    {
        let closes = match self.ui_state {
            UiState::Market => true,
            UiState::Upgrade => true,
            UiState::Construct => self.phase == ConstructPhase::Normal,
            _ => false,
        };
        if closes {
            self.set_ui(UiState::Closed);
            self.camera_state = self.previous_camera_state.restore();
        }
    }
}

impl GameState {
    /// A click on a tile. In the normal phase a click on a building opens its panel and
    /// freezes the camera; while a bought building waits, a click on a free tile places it
    /// at level 1, registers its timer and ends the preview. A click on an occupied tile
    /// during the preview changes nothing.
    pub fn click_tile(&mut self, tile: usize)
        requires
            old(self).wf(),
        ensures
            final(self).wf(),
            tile >= GRID_TILES ==> *final(self) == *old(self),
            tile < GRID_TILES && old(self).phase == ConstructPhase::Normal ==> {
                match old(self).tiles@[tile as int].building {
                    Some(id) => {
                        let kind = old(self).buildings@[id as int].building_type;
                        &&& same_world(*old(self), *final(self))
                        &&& final(self).previous_camera_state.0 == Some(old(self).camera_state)
                        &&& final(self).camera_state == CameraState::Frozen
                        &&& final(self).ui_state == panel_for(kind)
                        &&& final(self).selected_building.building == if panel_for(kind)
                            == UiState::Upgrade {
                            Some(id)
                        } else {
                            None
                        }
                    },
                    None => *final(self) == *old(self),
                }
            },
            tile < GRID_TILES && old(self).phase == ConstructPhase::Preview
                && old(self).tiles@[tile as int].building.is_some() ==> *final(self) == *old(self),
            tile < GRID_TILES && old(self).phase == ConstructPhase::Preview
                && old(self).tiles@[tile as int].building.is_none() ==> {
                &&& final(self).stash.0.is_none()
                &&& final(self).phase == ConstructPhase::Normal
                &&& final(self).camera_state == CameraState::CursorLocked
                &&& final(self).preview_tile.is_none()
                &&& final(self).inventory == old(self).inventory
                &&& final(self).market == old(self).market
                &&& final(self).construct == old(self).construct
                &&& match old(self).stash.0 {
                    Some(b) if level_stats(b, 1).is_some() => {
                        let id = old(self).buildings@.len();
                        let s = level_stats(b, 1).unwrap();
                        &&& final(self).buildings@.len() == id + 1
                        &&& final(self).buildings@.take(id as int) == old(self).buildings@
                        &&& final(self).buildings@[id as int].building_type == b
                        &&& final(self).buildings@[id as int].level == 1
                        &&& final(self).buildings@[id as int].yields@ == fresh_yields(s)
                        &&& final(self).buildings@[id as int].speed == s.speed
                        &&& final(self).tiles@[tile as int].building == Some(id as usize)
                        &&& final(self).timers.map@ == old(self).timers.map@.push(
                            (id as usize, RepeatingTimer::new_spec(s.speed)),
                        )
                    },
                    _ => {
                        &&& final(self).buildings == old(self).buildings
                        &&& final(self).tiles == old(self).tiles
                        &&& final(self).timers == old(self).timers
                    },
                }
            },
    {
        if tile >= GRID_TILES {
            return;
        }
        match self.phase {
            ConstructPhase::Normal => {
                match self.tiles[tile].building {
                    Some(id) => {
                        let kind = self.buildings[id].building_type;
                        self.previous_camera_state = PreviousCameraState(Some(self.camera_state));
                        self.camera_state = CameraState::Frozen;
                        match kind {
                            BuildingType::Market => self.set_ui(UiState::Market),
                            BuildingType::Construct => self.set_ui(UiState::Construct),
                            _ => {
                                self.set_ui(UiState::Upgrade);
                                self.selected_building = SelectedBuilding { building: Some(id) };
                            },
                        }
                    },
                    None => {},
                }
            },
            ConstructPhase::Preview => {
                if self.tiles[tile].building.is_some() {
                    return;
                }
                match self.stash.0 {
                    Some(b) => {
                        match Building::spawn(b, &self.upgrade_data) {
                            Some(building) => {
                                let speed = building.speed;
                                let ghost before = self.buildings@;
                                self.place(tile, building, speed);
                                proof {
                                    assert(self.buildings@.take(before.len() as int) =~= before);
                                }
                            },
                            None => {},
                        }
                    },
                    None => {},
                }
                self.stash = BuildingStash(None);
                self.phase = ConstructPhase::Normal;
                self.camera_state = CameraState::CursorLocked;
                self.preview_tile = None;
            },
        }
    }

    /// The pointer enters a tile: during the preview it shows the placement indicator.
    pub fn hover_tile(&mut self, tile: usize)
        requires
            old(self).wf(),
        ensures
            final(self).wf(),
            same_world(*old(self), *final(self)),
            final(self).preview_tile == if old(self).phase == ConstructPhase::Preview && tile
                < GRID_TILES {
                Some(tile)
            } else {
                old(self).preview_tile
            },
    {
        if self.phase == ConstructPhase::Preview && tile < GRID_TILES {
            self.preview_tile = Some(tile);
        }
    }

    /// The pointer leaves a tile: its placement indicator goes.
    pub fn unhover_tile(&mut self, tile: usize)
        requires
            old(self).wf(),
        ensures
            final(self).wf(),
            same_world(*old(self), *final(self)),
            final(self).preview_tile == if old(self).preview_tile == Some(tile) {
                None
            } else {
                old(self).preview_tile
            },
    {
        if self.preview_tile == Some(tile) {
            self.preview_tile = None;
        }
    }
}

/// Whether the buy signal is on: the player can pay for the quantity, an item is
/// selected, and the market has that many units.
pub open spec fn buy_signal(g: GameState, quantity: u32) -> bool {
    match g.selected_market_item.item_type {
        Some(t) => g.inventory.balance >= quantity * g.selected_market_item.buy_price
            && g.market.stock(t) >= quantity,
        None => false,
    }
}

impl GameState {
    /// Inspects an item kind in the inventory panel; the sell quantity goes back to zero.
    pub fn select_inventory_item(&mut self, t: ItemType)
        requires
            old(self).wf(),
        ensures
            final(self).wf(),
            same_world(*old(self), *final(self)),
            final(self).ui_state == old(self).ui_state,
            final(self).camera_state == old(self).camera_state,
            old(self).ui_state == UiState::Inventory ==> {
                &&& final(self).selected_item.item_type == Some(t)
                &&& final(self).selected_item.quantity == old(self).inventory.qty(t)
                &&& final(self).selected_item.sell_price == old(self).inventory.price(t)
                &&& final(self).sell_quantity.quantity == 0
                &&& final(self).sell_quantity.allowed
            },
            old(self).ui_state != UiState::Inventory ==> *final(self) == *old(self),
    {
        if self.ui_state != UiState::Inventory {
            return;
        }
        self.selected_item = SelectedItemStats {
            item_type: Some(t),
            quantity: self.inventory.quantity_of(t),
            sell_price: self.inventory.sell_price_of(t),
        };
        self.sell_quantity = QuantitySelector::new();
    }

    /// A quantity button of the inventory panel; the sell signal follows the new quantity.
    pub fn change_sell_quantity(&mut self, amount: i8)
        requires
            old(self).wf(),
        ensures
            final(self).wf(),
            same_world(*old(self), *final(self)),
            final(self).ui_state == old(self).ui_state,
            final(self).selected_item == old(self).selected_item,
            old(self).ui_state == UiState::Inventory ==> {
                &&& final(self).sell_quantity.quantity == stepped(old(self).sell_quantity.quantity, amount)
                &&& final(self).sell_quantity.allowed == sell_signal(
                    final(self).sell_quantity.quantity,
                    old(self).selected_item.quantity,
                )
            },
            old(self).ui_state != UiState::Inventory ==> *final(self) == *old(self),
    {
        if self.ui_state != UiState::Inventory {
            return;
        }
        self.sell_quantity.apply_increment(amount);
        let q = self.sell_quantity.quantity;
        self.sell_quantity.allowed = q <= self.selected_item.quantity && q != 0;
    }

    /// The sell button: sells the selected quantity of the inspected item kind when the sell
    /// signal is on and the sale is allowed; the selector then goes back to zero.
    pub fn sell_button_interaction(&mut self)
        requires
            old(self).wf(),
        ensures
            final(self).wf(),
            final(self).market == old(self).market,
            final(self).construct == old(self).construct,
            final(self).buildings == old(self).buildings,
            final(self).ui_state == old(self).ui_state,
            ({
                let attempt = old(self).ui_state == UiState::Inventory
                    && old(self).selected_item.item_type.is_some()
                    && old(self).sell_quantity.allowed && old(self).sell_quantity.quantity != 0;
                let t = old(self).selected_item.item_type->0;
                let q = old(self).sell_quantity.quantity;
                &&& attempt && old(self).inventory.can_sell(t, q) ==> {
                    &&& sold(old(self).inventory, final(self).inventory, t, q)
                    &&& final(self).inventory.balance == old(self).inventory.balance + q * old(self).selected_item.sell_price
                    &&& final(self).selected_item.quantity == final(self).inventory.qty(t)
                    &&& final(self).sell_quantity.quantity == 0
                }
                &&& !(attempt && old(self).inventory.can_sell(t, q)) ==> *final(self) == *old(self)
            }),
    {
        if self.ui_state != UiState::Inventory || !self.sell_quantity.allowed
            || self.sell_quantity.quantity == 0 {
            return;
        }
        let t = match self.selected_item.item_type {
            Some(t) => t,
            None => return,
        };
        let q = self.sell_quantity.quantity;
        if self.inventory.sell(t, q) {
            self.selected_item.quantity = self.inventory.quantity_of(t);
            self.sell_quantity = QuantitySelector::new();
        }
    }

    /// Inspects a stocked item kind in the market panel; the buy quantity goes back to zero.
    pub fn select_market_item(&mut self, t: ItemType)
        requires
            old(self).wf(),
        ensures
            final(self).wf(),
            same_world(*old(self), *final(self)),
            final(self).ui_state == old(self).ui_state,
            old(self).ui_state == UiState::Market && market_slot(t).is_some() ==> {
                &&& final(self).selected_market_item.item_type == Some(t)
                &&& final(self).selected_market_item.quantity == old(self).market.stock(t)
                &&& final(self).selected_market_item.buy_price == base_buy_price_of(t)
                &&& final(self).buy_quantity.quantity == 0
                &&& final(self).buy_quantity.allowed
            },
            !(old(self).ui_state == UiState::Market && market_slot(t).is_some()) ==> *final(self)
                == *old(self),
    {
        if self.ui_state != UiState::Market {
            return;
        }
        let stock = self.market.stock_of(t);
        match t {
            ItemType::Taffy | ItemType::Nougat | ItemType::Marshmallow | ItemType::Coffee
            | ItemType::Cocoa | ItemType::Milkshake => {
                self.selected_market_item = SelectedMarketItem {
                    item_type: Some(t),
                    quantity: stock,
                    buy_price: Item::get_base_buy_price(t),
                };
                self.buy_quantity = QuantitySelector::new();
            },
            _ => {},
        }
    }

    /// A quantity button of the market panel; the buy signal follows the new quantity.
    pub fn change_buy_quantity(&mut self, amount: i8)
        requires
            old(self).wf(),
        ensures
            final(self).wf(),
            same_world(*old(self), *final(self)),
            final(self).ui_state == old(self).ui_state,
            final(self).selected_market_item == old(self).selected_market_item,
            old(self).ui_state == UiState::Market ==> {
                &&& final(self).buy_quantity.quantity == stepped(old(self).buy_quantity.quantity, amount)
                &&& final(self).buy_quantity.allowed == buy_signal(
                    *old(self),
                    final(self).buy_quantity.quantity,
                )
            },
            old(self).ui_state != UiState::Market ==> *final(self) == *old(self),
    {
        if self.ui_state != UiState::Market {
            return;
        }
        self.buy_quantity.apply_increment(amount);
        let q = self.buy_quantity.quantity;
        self.buy_quantity.allowed = match self.selected_market_item.item_type {
            Some(t) => {
                let cost = crate::inventory::wide_mul(q, self.selected_market_item.buy_price);
                self.inventory.balance as u64 >= cost && self.market.stock_of(t) >= q
            },
            None => false,
        };
    }

    /// The buy button: buys the selected quantity of the inspected item kind when the buy
    /// signal is on and the purchase is allowed; the selector then goes back to zero.
    pub fn buy_button_interaction(&mut self)
        requires
            old(self).wf(),
        ensures
            final(self).wf(),
            final(self).construct == old(self).construct,
            final(self).buildings == old(self).buildings,
            final(self).ui_state == old(self).ui_state,
            ({
                let attempt = old(self).ui_state == UiState::Market
                    && old(self).selected_market_item.item_type.is_some()
                    && old(self).buy_quantity.allowed && old(self).buy_quantity.quantity != 0;
                let t = old(self).selected_market_item.item_type->0;
                let q = old(self).buy_quantity.quantity;
                &&& attempt && can_buy(old(self).inventory, old(self).market, t, q) ==> {
                    &&& bought(old(self).inventory, old(self).market, final(self).inventory, final(self).market, t, q)
                    &&& final(self).inventory.balance == old(self).inventory.balance - q * old(self).selected_market_item.buy_price
                    &&& final(self).selected_market_item.quantity == final(self).market.stock(t)
                    &&& final(self).buy_quantity.quantity == 0
                }
                &&& !(attempt && can_buy(old(self).inventory, old(self).market, t, q)) ==> *final(self)
                    == *old(self)
            }),
    {
        if self.ui_state != UiState::Market || !self.buy_quantity.allowed
            || self.buy_quantity.quantity == 0 {
            return;
        }
        let t = match self.selected_market_item.item_type {
            Some(t) => t,
            None => return,
        };
        let q = self.buy_quantity.quantity;
        if buy(&mut self.inventory, &mut self.market, t, q) {
            self.selected_market_item.quantity = self.market.stock_of(t);
            self.buy_quantity = QuantitySelector::new();
        }
    }
}

impl GameState {
    /// Inspects a building kind in the construction panel.
    pub fn select_construct_item(&mut self, b: BuildingType)
        requires
            old(self).wf(),
        ensures
            final(self).wf(),
            same_world(*old(self), *final(self)),
            final(self).ui_state == old(self).ui_state,
            final(self).phase == old(self).phase,
            old(self).ui_state == UiState::Construct && shop_slot(b).is_some() ==> {
                &&& final(self).selected_construct_item.building_type == Some(b)
                &&& final(self).selected_construct_item.buy_price == construct_price(b)
            },
            !(old(self).ui_state == UiState::Construct && shop_slot(b).is_some()) ==> *final(self)
                == *old(self),
    {
        if self.ui_state != UiState::Construct {
            return;
        }
        match b {
            BuildingType::CandyShop | BuildingType::CoffeeShop | BuildingType::Tree
            | BuildingType::Factory => {
                self.selected_construct_item = SelectedConstructItem {
                    building_type: Some(b),
                    buy_price: BuildingItem::get_price(b),
                };
            },
            _ => {},
        }
    }

    /// The buy button of the construction panel: buys one unit of the inspected building
    /// kind, stashes it and enters the preview phase, with the panel closed.
    pub fn construct_buy_button_interaction(&mut self)
        requires
            old(self).wf(),
        ensures
            final(self).wf(),
            final(self).market == old(self).market,
            final(self).buildings == old(self).buildings,
            final(self).tiles == old(self).tiles,
            final(self).timers == old(self).timers,
            ({
                let attempt = old(self).ui_state == UiState::Construct && old(self).phase
                    == ConstructPhase::Normal && old(self).selected_construct_item.building_type.is_some();
                let b = old(self).selected_construct_item.building_type->0;
                &&& attempt && can_buy_construct(old(self).inventory, old(self).construct, b) ==> {
                    &&& final(self).inventory.balance == old(self).inventory.balance - construct_price(b)
                    &&& final(self).inventory.items@ == old(self).inventory.items@
                    &&& final(self).construct.stock(b) == old(self).construct.stock(b) - 1
                    &&& final(self).construct.items@ == old(self).construct.items@.update(
                        shop_slot(b)->0,
                        BuildingItem {
                            quantity: (old(self).construct.stock(b) - 1) as u8,
                            ..old(self).construct.items@[shop_slot(b)->0]
                        },
                    )
                    &&& final(self).previous_camera_state == old(self).previous_camera_state
                    &&& selections_cleared(*final(self))
                    &&& final(self).stash.0 == Some(b)
                    &&& final(self).phase == ConstructPhase::Preview
                    &&& final(self).ui_state == UiState::Closed
                    &&& final(self).camera_state == CameraState::ConstructPreview
                }
                &&& !(attempt && can_buy_construct(old(self).inventory, old(self).construct, b))
                    ==> *final(self) == *old(self)
            }),
    {
        if self.ui_state != UiState::Construct || self.phase != ConstructPhase::Normal {
            return;
        }
        let b = match self.selected_construct_item.building_type {
            Some(b) => b,
            None => return,
        };
        if buy_construct(&mut self.inventory, &mut self.construct, b) {
            self.stash = BuildingStash(Some(b));
            self.phase = ConstructPhase::Preview;
            self.set_ui(UiState::Closed);
            self.camera_state = CameraState::ConstructPreview;
        }
    }

    /// The collect button of the upgrade panel: moves the selected building's yields into
    /// the inventory. Nothing happens without a selected building.
    pub fn collect_button_interaction(&mut self)
        requires
            old(self).wf(),
        ensures
            final(self).wf(),
            final(self).market == old(self).market,
            final(self).construct == old(self).construct,
            final(self).tiles == old(self).tiles,
            final(self).timers == old(self).timers,
            same_controls(*old(self), *final(self)),
            final(self).buildings@.len() == old(self).buildings@.len(),
            old(self).ui_state != UiState::Upgrade ==> unchanged(*old(self), *final(self)),
            old(self).ui_state == UiState::Upgrade ==> match old(self).selected_building.building {
                Some(id) if id < old(self).buildings@.len() => if can_collect(
                    old(self).inventory,
                    old(self).buildings@[id as int],
                ) {
                    &&& collected(
                        old(self).inventory,
                        old(self).buildings@[id as int],
                        final(self).inventory,
                        final(self).buildings@[id as int],
                    )
                    &&& forall|i: int|
                        0 <= i < old(self).buildings@.len() && i != id ==> #[trigger] final(self).buildings@[i]
                            == old(self).buildings@[i]
                } else {
                    unchanged(*old(self), *final(self))
                },
                _ => unchanged(*old(self), *final(self)),
            },
    {
        if self.ui_state != UiState::Upgrade {
            return;
        }
        let id = match self.selected_building.building {
            Some(id) => id,
            None => return,
        };
        if id >= self.buildings.len() {
            return;
        }
        let ghost before = self.buildings@;
        proof {
            assert(self.buildings@[id as int].wf());
        }
        let r = collect_yields(&mut self.inventory, &mut self.buildings[id]);
        proof {
            assert forall|i: int| 0 <= i < self.buildings@.len() implies (#[trigger] self.buildings@[i]).wf() by {
                if i != id {
                    assert(self.buildings@[i] == before[i]);
                }
            }
            if !r {
                assert(self.buildings@ =~= before);
            }
        }
    }

    /// The upgrade button of the upgrade panel: upgrades the selected building when the
    /// upgrade is allowed and gives its timer the new period.
    pub fn upgrade_button_interaction(&mut self)
        requires
            old(self).wf(),
        ensures
            final(self).wf(),
            final(self).market == old(self).market,
            final(self).construct == old(self).construct,
            final(self).tiles == old(self).tiles,
            same_controls(*old(self), *final(self)),
            final(self).buildings@.len() == old(self).buildings@.len(),
            old(self).ui_state != UiState::Upgrade ==> unchanged(*old(self), *final(self)),
            old(self).ui_state == UiState::Upgrade ==> match old(self).selected_building.building {
                Some(id) if id < old(self).buildings@.len() => if can_upgrade(
                    old(self).inventory,
                    old(self).buildings@[id as int],
                ) {
                    &&& upgraded(
                        old(self).inventory,
                        old(self).buildings@[id as int],
                        final(self).inventory,
                        final(self).buildings@[id as int],
                    )
                    &&& forall|i: int|
                        0 <= i < old(self).buildings@.len() && i != id ==> #[trigger] final(self).buildings@[i]
                            == old(self).buildings@[i]
                    &&& final(self).timers.map@.len() == old(self).timers.map@.len()
                    &&& forall|j: int|
                        0 <= j < old(self).timers.map@.len() ==> #[trigger] final(self).timers.map@[j]
                            == if old(self).timers.map@[j].0 == id {
                            (
                                id,
                                RepeatingTimer {
                                    duration: (final(self).buildings@[id as int].speed
                                        * crate::timers::NANOS_PER_SEC) as u64,
                                    elapsed: old(self).timers.map@[j].1.elapsed,
                                },
                            )
                        } else {
                            old(self).timers.map@[j]
                        }
                } else {
                    unchanged(*old(self), *final(self))
                },
                _ => unchanged(*old(self), *final(self)),
            },
    {
        if self.ui_state != UiState::Upgrade {
            return;
        }
        let id = match self.selected_building.building {
            Some(id) => id,
            None => return,
        };
        if id >= self.buildings.len() {
            return;
        }
        let ghost before = self.buildings@;
        proof {
            assert(self.buildings@[id as int].wf());
            lemma_row_shape(before[id as int].building_type, before[id as int].level + 1);
        }
        let r = upgrade_building(&mut self.inventory, &mut self.buildings[id], &self.upgrade_data);
        proof {
            assert forall|i: int| 0 <= i < self.buildings@.len() implies (#[trigger] self.buildings@[i]).wf() by {
                if i != id {
                    assert(self.buildings@[i] == before[i]);
                }
            }
            if !r {
                assert(self.buildings@ =~= before);
            }
        }
        if r {
            let speed = self.buildings[id].speed;
            proof {
                let k = id as int;
                assert(0 <= k < old(self).buildings@.len());
                assert(old(self).timers.has(k as usize));
            }
            self.timers.update_timer_speed(id, speed);
            proof {
                assert forall|j: int| 0 <= j < self.timers.map@.len() implies (#[trigger] self.timers.map@[j]).0 < self.buildings@.len() by {
                    assert(self.timers.map@[j].0 == old(self).timers.map@[j].0);
                }
                assert forall|i: int| 0 <= i < self.buildings@.len() implies #[trigger] self.timers.has(i as usize) by {
                    assert(old(self).timers.has(i as usize));
                    let j = choose|j: int| 0 <= j < old(self).timers.map@.len() && (#[trigger] old(self).timers.map@[j]).0 == i as usize;
                    assert(self.timers.map@[j].0 == i as usize);
                }
            }
        }
    }
}

/// Relies on rand's `IteratorRandom::choose_multiple` over the range `0..n`, drawn with
/// `rand::thread_rng`: it returns `min(amount, n)` values of the range, each taken from a
/// different position of it.
#[verifier::external_body]
fn choose_slots(n: usize, amount: usize) -> (r: Vec<usize>)
    ensures
        r@.len() == if amount < n {
            amount
        } else {
            n
        },
        forall|i: int| 0 <= i < r@.len() ==> #[trigger] r@[i] < n,
        r@.no_duplicates(),
{
    (0..n).choose_multiple(&mut rand::thread_rng(), amount)
}

/// The boosts of `inv1` are a fresh draw over `inv0`: exactly `BOOSTED_KINDS` item kinds
/// are boosted, every other entry is unboosted, and nothing else differs.
pub open spec fn boosts_rotated(inv0: Inventory, inv1: Inventory) -> bool {
    &&& inv1.wf()
    &&& inv1.balance == inv0.balance
    &&& inv1.items@.len() == inv0.items@.len()
    &&& exists|chosen: Seq<usize>|
        {
            &&& chosen.len() == BOOSTED_KINDS
            &&& chosen.no_duplicates()
            &&& forall|i: int| 0 <= i < chosen.len() ==> #[trigger] chosen[i] < ITEM_KINDS
            &&& forall|i: int|
                0 <= i < ITEM_KINDS ==> #[trigger] inv1.items@[i] == with_boost(
                    inv0.items@[i],
                    chosen.contains(i as usize),
                )
        }
}

pub proof fn lemma_boosts_compose(a: Inventory, b: Inventory, c: Inventory)
    requires
        a.wf(),
        boosts_rotated(a, b),
        boosts_rotated(b, c),
    ensures
        boosts_rotated(a, c),
{
    let chosen = choose|chosen: Seq<usize>|
        {
            &&& chosen.len() == BOOSTED_KINDS
            &&& chosen.no_duplicates()
            &&& forall|i: int| 0 <= i < chosen.len() ==> #[trigger] chosen[i] < ITEM_KINDS
            &&& forall|i: int|
                0 <= i < ITEM_KINDS ==> #[trigger] c.items@[i] == with_boost(
                    b.items@[i],
                    chosen.contains(i as usize),
                )
        };
    assert forall|i: int| 0 <= i < ITEM_KINDS implies #[trigger] c.items@[i] == with_boost(
        a.items@[i],
        chosen.contains(i as usize),
    ) by {
        let b0 = choose|chosen: Seq<usize>|
            {
                &&& chosen.len() == BOOSTED_KINDS
                &&& chosen.no_duplicates()
                &&& forall|i: int| 0 <= i < chosen.len() ==> #[trigger] chosen[i] < ITEM_KINDS
                &&& forall|i: int|
                    0 <= i < ITEM_KINDS ==> #[trigger] b.items@[i] == with_boost(
                        a.items@[i],
                        chosen.contains(i as usize),
                    )
            };
        assert(b.items@[i] == with_boost(a.items@[i], b0.contains(i as usize)));
    }
}

/// Units of kind `t` one production tick adds to building `b`: its catalog row's rate for
/// a producing building, nothing for the market, the construction office, or a building
/// without a catalog row.
pub open spec fn production_rate(b: Building, t: ItemType) -> int {
    if b.building_type == BuildingType::Market || b.building_type == BuildingType::Construct {
        0
    } else {
        match level_stats(b.building_type, b.level as int) {
            Some(s) => yield_rate(s, t),
            None => 0,
        }
    }
}

/// `b1` is `b0` after `fires` production ticks.
pub open spec fn after_ticks(b0: Building, b1: Building, fires: int) -> bool {
    &&& b1.building_type == b0.building_type
    &&& b1.level == b0.level
    &&& b1.speed == b0.speed
    &&& b1.yields@.len() == b0.yields@.len()
    &&& forall|j: int|
        0 <= j < b0.yields@.len() ==> #[trigger] b1.yields@[j] == (
            b0.yields@[j].0,
            produced(b0.yields@[j].1, fires, production_rate(b0, b0.yields@[j].0)),
        )
}

/// Whether a timer of a building of kind `kind` fires when `delta` nanoseconds pass.
pub open spec fn kind_fires(g: GameState, kind: BuildingType, delta: int) -> bool {
    exists|j: int|
        0 <= j < g.timers.map@.len() && g.buildings@[(#[trigger] g.timers.map@[j]).0 as int].building_type
            == kind && g.timers.map@[j].1.fires(delta) > 0
}

pub proof fn lemma_no_ticks(b: Building, fires: int)
    requires
        fires == 0 || forall|j: int| 0 <= j < b.yields@.len() ==> production_rate(b, (#[trigger] b.yields@[j]).0) == 0,
    ensures
        after_ticks(b, b, fires),
{
    assert forall|j: int| 0 <= j < b.yields@.len() implies #[trigger] b.yields@[j] == (
        b.yields@[j].0,
        produced(b.yields@[j].1, fires, production_rate(b, b.yields@[j].0)),
    ) by {
        assert(fires * production_rate(b, b.yields@[j].0) == 0) by (nonlinear_arith)
            requires
                fires == 0 || production_rate(b, b.yields@[j].0) == 0,
        ;
    }
}

impl GameState {
    /// Refills the market to its default stock; an open market panel closes.
    fn restock_market(&mut self)
        requires
            old(self).wf(),
        ensures
            final(self).wf(),
            final(self).market.is_full(),
            final(self).inventory == old(self).inventory,
            final(self).construct == old(self).construct,
            final(self).buildings == old(self).buildings,
            final(self).tiles == old(self).tiles,
            final(self).timers == old(self).timers,
            old(self).ui_state == UiState::Market ==> closed_panel(*old(self), *final(self)),
            old(self).ui_state != UiState::Market ==> same_controls(*old(self), *final(self)),
    {
        self.market = MarketInventory::default();
        if self.ui_state == UiState::Market {
            self.set_ui(UiState::Closed);
            self.camera_state = self.previous_camera_state.restore();
        }
    }

    /// Draws a new set of boosted item kinds; the inspected item shows its new price.
    fn rotate_boosts(&mut self)
        requires
            old(self).wf(),
        ensures
            final(self).wf(),
            boosts_rotated(old(self).inventory, final(self).inventory),
            final(self).market == old(self).market,
            final(self).construct == old(self).construct,
            final(self).buildings == old(self).buildings,
            final(self).tiles == old(self).tiles,
            final(self).timers == old(self).timers,
            same_controls_but_price(*old(self), *final(self)),
            shown_price_current(*final(self)),
    {
        let chosen = choose_slots(ITEM_KINDS, BOOSTED_KINDS);
        self.inventory.apply_boosts(&chosen);
        match self.selected_item.item_type {
            Some(t) => {
                self.selected_item.sell_price = self.inventory.sell_price_of(t);
            },
            None => {},
        }
        proof {
            assert(chosen@.len() == BOOSTED_KINDS);
        }
    }

    /// Acts on `count` firings of the timer of building `id`.
    fn fire(&mut self, id: usize, count: u64)
        requires
            old(self).wf(),
            id < old(self).buildings@.len(),
            count > 0,
        ensures
            final(self).wf(),
            final(self).construct == old(self).construct,
            final(self).tiles == old(self).tiles,
            final(self).timers == old(self).timers,
            final(self).buildings@.len() == old(self).buildings@.len(),
            after_ticks(old(self).buildings@[id as int], final(self).buildings@[id as int], count as int),
            forall|i: int|
                0 <= i < old(self).buildings@.len() && i != id ==> #[trigger] final(self).buildings@[i]
                    == old(self).buildings@[i],
            ({
                let kind = old(self).buildings@[id as int].building_type;
                &&& kind == BuildingType::Market ==> {
                    &&& final(self).market.is_full()
                    &&& old(self).ui_state == UiState::Market ==> closed_panel(*old(self), *final(self))
                    &&& old(self).ui_state != UiState::Market ==> same_controls(*old(self), *final(self))
                }
                &&& kind != BuildingType::Market ==> final(self).market == old(self).market
                &&& kind == BuildingType::Construct ==> {
                    &&& boosts_rotated(old(self).inventory, final(self).inventory)
                    &&& same_controls_but_price(*old(self), *final(self))
                    &&& shown_price_current(*final(self))
                }
                &&& kind != BuildingType::Construct ==> final(self).inventory == old(self).inventory
                &&& kind != BuildingType::Construct && kind != BuildingType::Market ==> same_controls(
                    *old(self),
                    *final(self),
                )
            }),
    {
        let kind = self.buildings[id].building_type;
        let level = self.buildings[id].level;
        proof {
            assert(self.buildings@[id as int].wf());
        }
        match kind {
            BuildingType::Market => {
                self.restock_market();
                proof {
                    lemma_no_ticks(self.buildings@[id as int], count as int);
                }
            },
            BuildingType::Construct => {
                self.rotate_boosts();
                proof {
                    lemma_no_ticks(self.buildings@[id as int], count as int);
                }
            },
            _ => {
                match self.upgrade_data.get(kind, level) {
                    Some(s) => {
                        let ghost before = self.buildings@;
                        produce(&mut self.buildings[id], &s, count);
                        proof {
                            assert forall|i: int| 0 <= i < self.buildings@.len() implies (#[trigger] self.buildings@[i]).wf() by {
                                if i != id {
                                    assert(self.buildings@[i] == before[i]);
                                }
                            }
                        }
                    },
                    None => {
                        proof {
                            lemma_no_ticks(self.buildings@[id as int], count as int);
                        }
                    },
                }
            },
        }
    }

    /// Lets `delta` nanoseconds of game time pass. Every timer advances; each building whose
    /// timer fires acts once per firing: a producing building adds its catalog yields to its
    /// slots, the market restocks (closing its open panel), and the construction office
    /// draws new boosted item kinds.
    pub fn tick_timers(&mut self, delta: u64)
        requires
            old(self).wf(),
        ensures
            final(self).wf(),
            final(self).construct == old(self).construct,
            final(self).tiles == old(self).tiles,
            final(self).previous_camera_state == old(self).previous_camera_state,
            final(self).timers.map@.len() == old(self).timers.map@.len(),
            forall|j: int|
                0 <= j < old(self).timers.map@.len() ==> #[trigger] final(self).timers.map@[j] == (
                    old(self).timers.map@[j].0,
                    old(self).timers.map@[j].1.advanced(delta as int),
                ),
            final(self).buildings@.len() == old(self).buildings@.len(),
            forall|j: int|
                0 <= j < old(self).timers.map@.len() ==> after_ticks(
                    old(self).buildings@[(#[trigger] old(self).timers.map@[j]).0 as int],
                    final(self).buildings@[old(self).timers.map@[j].0 as int],
                    old(self).timers.map@[j].1.fires(delta as int),
                ),
            kind_fires(*old(self), BuildingType::Market, delta as int) ==> final(self).market.is_full(),
            !kind_fires(*old(self), BuildingType::Market, delta as int) ==> final(self).market == old(self).market,
            kind_fires(*old(self), BuildingType::Market, delta as int) && old(self).ui_state == UiState::Market
                ==> closed_panel(*old(self), *final(self)),
            !(kind_fires(*old(self), BuildingType::Market, delta as int) && old(self).ui_state == UiState::Market)
                ==> same_controls_but_price(*old(self), *final(self)),
            kind_fires(*old(self), BuildingType::Construct, delta as int) ==> shown_price_current(*final(self)),
            !kind_fires(*old(self), BuildingType::Construct, delta as int) && !(kind_fires(
                *old(self),
                BuildingType::Market,
                delta as int,
            ) && old(self).ui_state == UiState::Market) ==> same_controls(*old(self), *final(self)),
            kind_fires(*old(self), BuildingType::Construct, delta as int) ==> boosts_rotated(
                old(self).inventory,
                final(self).inventory,
            ),
            !kind_fires(*old(self), BuildingType::Construct, delta as int) ==> final(self).inventory
                == old(self).inventory,
    {
        let ghost g0 = *self;
        let fired = self.timers.tick(delta);
        let ghost t1 = self.timers;
        proof {
            assert forall|j: int| 0 <= j < self.timers.map@.len() implies (#[trigger] self.timers.map@[j]).0 < self.buildings@.len() by {
                assert(self.timers.map@[j].0 == g0.timers.map@[j].0);
            }
            assert forall|i: int| 0 <= i < self.buildings@.len() implies #[trigger] self.timers.has(i as usize) by {
                assert(g0.timers.has(i as usize));
                let j = choose|j: int| 0 <= j < g0.timers.map@.len() && (#[trigger] g0.timers.map@[j]).0 == i as usize;
                assert(self.timers.map@[j].0 == i as usize);
            }
        }
        let n = fired.len();
        let mut k: usize = 0;
        while k < n
            invariant
                self.wf(),
                n == fired@.len(),
                n == g0.timers.map@.len(),
                0 <= k <= n,
                self.timers == t1,
                g0.wf(),
                forall|j: int|
                    0 <= j < n ==> (#[trigger] fired@[j]).0 == g0.timers.map@[j].0 && fired@[j].1
                        == g0.timers.map@[j].1.fires(delta as int),
                forall|j: int| 0 <= j < n ==> (#[trigger] g0.timers.map@[j]).0 < g0.buildings@.len(),
                self.buildings@.len() == g0.buildings@.len(),
                self.construct == g0.construct,
                self.tiles == g0.tiles,
                self.previous_camera_state == g0.previous_camera_state,
                forall|i: int| 0 <= i < g0.buildings@.len() ==> (#[trigger] self.buildings@[i]).building_type == g0.buildings@[i].building_type,
                forall|j: int|
                    0 <= j < k ==> after_ticks(
                        g0.buildings@[(#[trigger] g0.timers.map@[j]).0 as int],
                        self.buildings@[g0.timers.map@[j].0 as int],
                        g0.timers.map@[j].1.fires(delta as int),
                    ),
                forall|i: int|
                    0 <= i < g0.buildings@.len() && (forall|j: int| 0 <= j < k ==> (#[trigger] g0.timers.map@[j]).0 != i)
                        ==> #[trigger] self.buildings@[i] == g0.buildings@[i],
                ({
                    let market_fired = exists|j: int|
                        0 <= j < k && g0.buildings@[(#[trigger] g0.timers.map@[j]).0 as int].building_type
                            == BuildingType::Market && g0.timers.map@[j].1.fires(delta as int) > 0;
                    &&& market_fired ==> self.market.is_full()
                    &&& !market_fired ==> self.market == g0.market
                    &&& market_fired && g0.ui_state == UiState::Market ==> closed_panel(g0, *self)
                    &&& !(market_fired && g0.ui_state == UiState::Market) ==> same_controls_but_price(g0, *self)
                }),
                ({
                    let boost_fired = exists|j: int|
                        0 <= j < k && g0.buildings@[(#[trigger] g0.timers.map@[j]).0 as int].building_type
                            == BuildingType::Construct && g0.timers.map@[j].1.fires(delta as int) > 0;
                    let market_fired = exists|j: int|
                        0 <= j < k && g0.buildings@[(#[trigger] g0.timers.map@[j]).0 as int].building_type
                            == BuildingType::Market && g0.timers.map@[j].1.fires(delta as int) > 0;
                    &&& boost_fired ==> boosts_rotated(g0.inventory, self.inventory)
                    &&& !boost_fired ==> self.inventory == g0.inventory
                    &&& boost_fired ==> shown_price_current(*self)
                    &&& !boost_fired && !(market_fired && g0.ui_state == UiState::Market) ==> same_controls(g0, *self)
                }),
            decreases n - k,
        {
            let (id, count) = fired[k];
            let ghost before = *self;
            proof {
                assert(g0.timers.map@[k as int].0 == id);
                assert(id < g0.buildings@.len());
            }
            if count > 0 {
                self.fire(id, count);
                proof {
                    if before.buildings@[id as int].building_type == BuildingType::Construct {
                        if before.inventory != g0.inventory {
                            lemma_boosts_compose(g0.inventory, before.inventory, self.inventory);
                        }
                    }
                }
            } else {
                proof {
                    lemma_no_ticks(self.buildings@[id as int], 0);
                }
            }
            proof {
                let kk = k as int;
                assert forall|j: int| 0 <= j < kk + 1 implies after_ticks(
                    g0.buildings@[(#[trigger] g0.timers.map@[j]).0 as int],
                    self.buildings@[g0.timers.map@[j].0 as int],
                    g0.timers.map@[j].1.fires(delta as int),
                ) by {
                    if j < kk {
                        assert(g0.timers.map@[j].0 != g0.timers.map@[kk].0);
                    } else {
                        assert(before.buildings@[id as int] == g0.buildings@[id as int]) by {
                            assert forall|j2: int| 0 <= j2 < kk implies (#[trigger] g0.timers.map@[j2]).0 != id as int by {
                                assert(g0.timers.map@[j2].0 != g0.timers.map@[kk].0);
                            }
                        }
                    }
                }
                assert forall|i: int|
                    0 <= i < g0.buildings@.len() && (forall|j: int| 0 <= j < kk + 1 ==> (#[trigger] g0.timers.map@[j]).0 != i)
                        implies #[trigger] self.buildings@[i] == g0.buildings@[i] by {
                    assert(g0.timers.map@[kk].0 != i);
                    assert forall|j: int| 0 <= j < kk implies (#[trigger] g0.timers.map@[j]).0 != i by {
                        assert(0 <= j < kk + 1);
                    }
                }
                let kind = g0.buildings@[id as int].building_type;
                if count > 0 && kind == BuildingType::Market {
                    assert(g0.buildings@[(g0.timers.map@[kk]).0 as int].building_type == BuildingType::Market);
                }
                if count > 0 && kind == BuildingType::Construct {
                    assert(g0.buildings@[(g0.timers.map@[kk]).0 as int].building_type == BuildingType::Construct);
                }
            }
            k = k + 1;
        }
    }
}

} // verus!
