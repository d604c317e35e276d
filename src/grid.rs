use crate::items::ItemType;
use crate::upgrade_data::{distinct_kinds, level_stats, lemma_row_shape, LevelStats, UpgradeData};
use vstd::prelude::*;

verus! {

/// Every kind of building that can stand on a tile.
#[derive(Clone, Copy, Debug, PartialEq, Eq, Structural, Hash)]
pub enum BuildingType {
    CityCentre,
    Market,
    Construct,
    CandyShop,
    CoffeeShop,
    Tree,
    Factory,
    Cabin,
}

/// Display name of a building kind.
pub open spec fn building_name(b: BuildingType) -> Seq<char> {
    match b {
        BuildingType::CityCentre => "City Centre"@,
        BuildingType::Market => "The Market"@,
        BuildingType::Construct => "The Construct"@,
        BuildingType::CandyShop => "Candy Shop"@,
        BuildingType::CoffeeShop => "Café"@,
        BuildingType::Tree => "Big Tree"@,
        BuildingType::Factory => "Factory"@,
        BuildingType::Cabin => "Cabin"@,
    }
}

impl BuildingType {
    pub fn get_name(&self) -> (r: String)
        ensures
            r@ == building_name(*self),
    {
        let s: &str = match self {
            BuildingType::CityCentre => "City Centre",
            BuildingType::Market => "The Market",
            BuildingType::Construct => "The Construct",
            BuildingType::CandyShop => "Candy Shop",
            BuildingType::CoffeeShop => "Café",
            BuildingType::Tree => "Big Tree",
            BuildingType::Factory => "Factory",
            BuildingType::Cabin => "Cabin",
        };
        s.to_owned()
    }
}

/// Tiles along each side of the square grid.
pub const GRID_SIDE: usize = 11;

/// Tiles in the grid.
pub const GRID_TILES: usize = 121;

/// World units along one side of a tile.
pub const TILE_SIZE: u32 = 10;

/// A grid cell at world position `(x, z)`, holding at most one building.
pub struct Tile {
    pub x: u32,
    pub z: u32,
    /// Id of the building standing on the tile.
    pub building: Option<usize>,
}

impl Tile {
    pub fn new(x: u32, z: u32) -> (r: Self)
        ensures
            r.x == x,
            r.z == z,
            r.building.is_none(),
    {
        Tile { x, z, building: None }
    }
}

/// Tile `k` of the grid lies in column `k / 11` and row `k % 11`.
pub open spec fn tile_x(k: int) -> int {
    TILE_SIZE * (k / GRID_SIDE as int)
}

pub open spec fn tile_z(k: int) -> int {
    TILE_SIZE * (k % GRID_SIDE as int)
}

/// The empty 11 x 11 grid, column by column.
pub fn spawn_grid() -> (r: Vec<Tile>)
    ensures
        r@.len() == GRID_TILES,
        forall|k: int|
            0 <= k < GRID_TILES ==> (#[trigger] r@[k]).x == tile_x(k) && r@[k].z == tile_z(k)
                && r@[k].building.is_none(),
{
    let mut tiles: Vec<Tile> = Vec::new();
    let mut k: usize = 0;
    while k < GRID_TILES
        invariant
            0 <= k <= GRID_TILES,
            tiles@.len() == k,
            forall|j: int|
                0 <= j < k ==> (#[trigger] tiles@[j]).x == tile_x(j) && tiles@[j].z == tile_z(j)
                    && tiles@[j].building.is_none(),
        decreases GRID_TILES - k,
    {
        let x: u32 = TILE_SIZE * (k / GRID_SIDE) as u32;
        let z: u32 = TILE_SIZE * (k % GRID_SIDE) as u32;
        tiles.push(Tile::new(x, z));
        k = k + 1;
    }
    tiles
}

/// The index of the tile at world position `(x, z)`, if it is a tile's position.
pub fn tile_at(x: u32, z: u32) -> (r: Option<usize>)
    ensures
        r matches Some(k) ==> k < GRID_TILES && tile_x(k as int) == x && tile_z(k as int) == z,
        r.is_none() ==> forall|k: int| 0 <= k < GRID_TILES ==> !(tile_x(k) == x && tile_z(k) == z),
{
    if x % TILE_SIZE != 0 || z % TILE_SIZE != 0 || x / TILE_SIZE >= GRID_SIDE as u32 || z / TILE_SIZE
        >= GRID_SIDE as u32 {
        proof {
            assert forall|k: int| 0 <= k < GRID_TILES implies !(tile_x(k) == x && tile_z(k) == z) by {
                if tile_x(k) == x && tile_z(k) == z {
                    assert(k / 11 < 11);
                    assert(k % 11 < 11);
                }
            }
        }
        return None;
    }
    let k = (x / TILE_SIZE) as usize * GRID_SIDE + (z / TILE_SIZE) as usize;
    proof {
        assert(k / 11 == x / 10);
        assert(k % 11 == z / 10);
    }
    Some(k)
}

/// Yield slots of a fresh building: the kinds of a catalog row, each at zero.
pub open spec fn fresh_yields(s: LevelStats) -> Seq<(ItemType, u32)> {
    seq![(s.yields[0].0, 0u32), (s.yields[1].0, 0u32), (s.yields[2].0, 0u32)]
}

/// A building placed on a tile, with its level, unclaimed yields and production speed.
pub struct Building {
    pub building_type: BuildingType,
    pub level: u8,
    /// Accumulated, not yet collected units of each item kind the building produces.
    pub yields: Vec<(ItemType, u32)>,
    /// Seconds per production tick.
    pub speed: u8,
}

impl Building {
    /// Each item kind has at most one yield slot.
    pub open spec fn wf(&self) -> bool {
        distinct_kinds(self.yields@)
    }

    /// A building of a catalog kind at level 1: zero yields for the kinds of its level-1
    /// row, and that row's speed. `None` for a kind that has no catalog row.
    pub fn spawn(building_type: BuildingType, data: &UpgradeData) -> (r: Option<Building>)
        ensures
            r.is_some() == level_stats(building_type, 1).is_some(),
            r matches Some(b) ==> {
                &&& b.wf()
                &&& b.building_type == building_type
                &&& b.level == 1
                &&& b.yields@ == fresh_yields(level_stats(building_type, 1).unwrap())
                &&& b.speed == level_stats(building_type, 1).unwrap().speed
                &&& b.speed >= 1
            },
    {
        proof {
            lemma_row_shape(building_type, 1);
        }
        match data.get(building_type, 1) {
            Some(s) => {
                let yields = vec![(s.yields[0].0, 0u32), (s.yields[1].0, 0u32), (s.yields[2].0, 0u32)];
                proof {
                    assert(yields@ == fresh_yields(s));
                }
                Some(Building { building_type, level: 1, yields, speed: s.speed })
            },
            None => None,
        }
    }

    /// A building outside the catalog (the market, the construction office), with no yields.
    pub fn service(building_type: BuildingType, speed: u8) -> (r: Building)
        ensures
            r.wf(),
            r.building_type == building_type,
            r.level == 1,
            r.yields@.len() == 0,
            r.speed == speed,
    {
        Building { building_type, level: 1, yields: Vec::new(), speed }
    }
}

} // verus!
