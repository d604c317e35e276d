use crate::grid::BuildingType;
use crate::items::ItemType;
use vstd::prelude::*;

verus! {

/// One row of the upgrade catalog: what a building kind does at one level.
#[derive(Clone, Copy, Debug)]
pub struct LevelStats {
    /// Seconds per production tick.
    pub speed: u8,
    /// Units of each item kind added per tick.
    pub yields: [(ItemType, u8); 3],
    /// Units of each item kind consumed by an upgrade to the next level.
    pub upgrade_materials: [(ItemType, u32); 3],
    /// Currency consumed by an upgrade to the next level.
    pub upgrade_cost: u32,
}

/// The upgrade catalog: the stats of a building kind at a level, if the kind has that level.
/// The absence of `level + 1` marks `level` as the highest one.
pub open spec fn level_stats(building_type: BuildingType, level: int) -> Option<LevelStats> {
    match building_type {
        BuildingType::CityCentre => if level == 1 {
            Some(LevelStats {
                speed: 15,
                yields: [(ItemType::BronzeCoin, 10), (ItemType::SilverCoin, 0), (ItemType::GoldCoin, 0)],
                upgrade_materials: [(ItemType::Branch, 20), (ItemType::Taffy, 50), (ItemType::Coffee, 50)],
                upgrade_cost: 1000,
            })
        } else if level == 2 {
            Some(LevelStats {
                speed: 12,
                yields: [(ItemType::BronzeCoin, 15), (ItemType::SilverCoin, 3), (ItemType::GoldCoin, 0)],
                upgrade_materials: [(ItemType::Log, 40), (ItemType::Nougat, 38), (ItemType::Cocoa, 38)],
                upgrade_cost: 5500,
            })
        } else {
            None
        },
        BuildingType::CandyShop => if level == 1 {
            Some(LevelStats {
                speed: 15,
                yields: [(ItemType::Taffy, 10), (ItemType::Nougat, 1), (ItemType::Marshmallow, 0)],
                upgrade_materials: [(ItemType::Taffy, 60), (ItemType::Nougat, 10), (ItemType::Steel, 5)],
                upgrade_cost: 800,
            })
        } else if level == 2 {
            Some(LevelStats {
                speed: 12,
                yields: [(ItemType::Taffy, 18), (ItemType::Nougat, 6), (ItemType::Marshmallow, 0)],
                upgrade_materials: [(ItemType::Nougat, 30), (ItemType::BronzeCoin, 35), (ItemType::Steel, 18)],
                upgrade_cost: 1600,
            })
        } else {
            None
        },
        BuildingType::CoffeeShop => if level == 1 {
            Some(LevelStats {
                speed: 15,
                yields: [(ItemType::Coffee, 10), (ItemType::Cocoa, 2), (ItemType::Milkshake, 0)],
                upgrade_materials: [(ItemType::Coffee, 60), (ItemType::Cocoa, 20), (ItemType::Branch, 5)],
                upgrade_cost: 1000,
            })
        } else if level == 2 {
            Some(LevelStats {
                speed: 12,
                yields: [(ItemType::Coffee, 20), (ItemType::Cocoa, 5), (ItemType::Milkshake, 1)],
                upgrade_materials: [(ItemType::Cocoa, 35), (ItemType::BronzeCoin, 35), (ItemType::Branch, 30)],
                upgrade_cost: 2100,
            })
        } else {
            None
        },
        BuildingType::Tree => if level == 1 {
            Some(LevelStats {
                speed: 15,
                yields: [(ItemType::Apple, 8), (ItemType::Branch, 2), (ItemType::Honey, 0)],
                upgrade_materials: [(ItemType::Apple, 60), (ItemType::BronzeCoin, 30), (ItemType::Branch, 16)],
                upgrade_cost: 1700,
            })
        } else if level == 2 {
            Some(LevelStats {
                speed: 12,
                yields: [(ItemType::Apple, 20), (ItemType::Branch, 6), (ItemType::Honey, 1)],
                upgrade_materials: [(ItemType::Branch, 40), (ItemType::SilverCoin, 30), (ItemType::Honey, 10)],
                upgrade_cost: 2600,
            })
        } else {
            None
        },
        BuildingType::Factory => if level == 1 {
            Some(LevelStats {
                speed: 15,
                yields: [(ItemType::Steel, 6), (ItemType::Chip, 1), (ItemType::Phone, 0)],
                upgrade_materials: [(ItemType::Steel, 36), (ItemType::Chip, 10), (ItemType::Log, 20)],
                upgrade_cost: 2500,
            })
        } else if level == 2 {
            Some(LevelStats {
                speed: 12,
                yields: [(ItemType::Steel, 14), (ItemType::Chip, 3), (ItemType::Phone, 0)],
                upgrade_materials: [(ItemType::Steel, 120), (ItemType::Phone, 5), (ItemType::Log, 50)],
                upgrade_cost: 5600,
            })
        } else {
            None
        },
        BuildingType::Cabin => if level == 1 {
            Some(LevelStats {
                speed: 15,
                yields: [(ItemType::Log, 6), (ItemType::Lantern, 2), (ItemType::Axe, 0)],
                upgrade_materials: [(ItemType::Log, 36), (ItemType::BronzeCoin, 35), (ItemType::Branch, 50)],
                upgrade_cost: 2400,
            })
        } else if level == 2 {
            Some(LevelStats {
                speed: 12,
                yields: [(ItemType::Log, 14), (ItemType::Lantern, 5), (ItemType::Axe, 0)],
                upgrade_materials: [(ItemType::Log, 130), (ItemType::SilverCoin, 30), (ItemType::Axe, 5)],
                upgrade_cost: 5300,
            })
        } else {
            None
        },
        _ => None,
    }
}

/// No two entries of a list name the same item kind.
pub open spec fn distinct_kinds<A>(s: Seq<(ItemType, A)>) -> bool {
    forall|i: int, j: int| 0 <= i < j < s.len() ==> s[i].0 != s[j].0
}

/// Every catalog row has a positive speed and lists each item kind at most once.
pub proof fn lemma_row_shape(building_type: BuildingType, level: int)
    ensures
        level_stats(building_type, level) matches Some(s) ==> {
            &&& s.speed >= 1
            &&& s.yields@.len() == 3
            &&& s.upgrade_materials@.len() == 3
            &&& distinct_kinds(s.yields@)
            &&& distinct_kinds(s.upgrade_materials@)
        },
{
}

/// The immutable upgrade catalog, shared by every operation that needs it.
pub struct UpgradeData {}

impl UpgradeData {
    pub fn new() -> (r: Self) {
        UpgradeData {}
    }

    /// The catalog row of a building kind at a level.
    pub fn get(&self, building_type: BuildingType, level: u8) -> (r: Option<LevelStats>)
        ensures
            r == level_stats(building_type, level as int),
    {
        match building_type {
            BuildingType::CityCentre => if level == 1 {
                Some(LevelStats {
                    speed: 15,
                    yields: [(ItemType::BronzeCoin, 10), (ItemType::SilverCoin, 0), (ItemType::GoldCoin, 0)],
                    upgrade_materials: [(ItemType::Branch, 20), (ItemType::Taffy, 50), (ItemType::Coffee, 50)],
                    upgrade_cost: 1000,
                })
            } else if level == 2 {
                Some(LevelStats {
                    speed: 12,
                    yields: [(ItemType::BronzeCoin, 15), (ItemType::SilverCoin, 3), (ItemType::GoldCoin, 0)],
                    upgrade_materials: [(ItemType::Log, 40), (ItemType::Nougat, 38), (ItemType::Cocoa, 38)],
                    upgrade_cost: 5500,
                })
            } else {
                None
            },
            BuildingType::CandyShop => if level == 1 {
                Some(LevelStats {
                    speed: 15,
                    yields: [(ItemType::Taffy, 10), (ItemType::Nougat, 1), (ItemType::Marshmallow, 0)],
                    upgrade_materials: [(ItemType::Taffy, 60), (ItemType::Nougat, 10), (ItemType::Steel, 5)],
                    upgrade_cost: 800,
                })
            } else if level == 2 {
                Some(LevelStats {
                    speed: 12,
                    yields: [(ItemType::Taffy, 18), (ItemType::Nougat, 6), (ItemType::Marshmallow, 0)],
                    upgrade_materials: [(ItemType::Nougat, 30), (ItemType::BronzeCoin, 35), (ItemType::Steel, 18)],
                    upgrade_cost: 1600,
                })
            } else {
                None
            },
            BuildingType::CoffeeShop => if level == 1 {
                Some(LevelStats {
                    speed: 15,
                    yields: [(ItemType::Coffee, 10), (ItemType::Cocoa, 2), (ItemType::Milkshake, 0)],
                    upgrade_materials: [(ItemType::Coffee, 60), (ItemType::Cocoa, 20), (ItemType::Branch, 5)],
                    upgrade_cost: 1000,
                })
            } else if level == 2 {
                Some(LevelStats {
                    speed: 12,
                    yields: [(ItemType::Coffee, 20), (ItemType::Cocoa, 5), (ItemType::Milkshake, 1)],
                    upgrade_materials: [(ItemType::Cocoa, 35), (ItemType::BronzeCoin, 35), (ItemType::Branch, 30)],
                    upgrade_cost: 2100,
                })
            } else {
                None
            },
            BuildingType::Tree => if level == 1 {
                Some(LevelStats {
                    speed: 15,
                    yields: [(ItemType::Apple, 8), (ItemType::Branch, 2), (ItemType::Honey, 0)],
                    upgrade_materials: [(ItemType::Apple, 60), (ItemType::BronzeCoin, 30), (ItemType::Branch, 16)],
                    upgrade_cost: 1700,
                })
            } else if level == 2 {
                Some(LevelStats {
                    speed: 12,
                    yields: [(ItemType::Apple, 20), (ItemType::Branch, 6), (ItemType::Honey, 1)],
                    upgrade_materials: [(ItemType::Branch, 40), (ItemType::SilverCoin, 30), (ItemType::Honey, 10)],
                    upgrade_cost: 2600,
                })
            } else {
                None
            },
            BuildingType::Factory => if level == 1 {
                Some(LevelStats {
                    speed: 15,
                    yields: [(ItemType::Steel, 6), (ItemType::Chip, 1), (ItemType::Phone, 0)],
                    upgrade_materials: [(ItemType::Steel, 36), (ItemType::Chip, 10), (ItemType::Log, 20)],
                    upgrade_cost: 2500,
                })
            } else if level == 2 {
                Some(LevelStats {
                    speed: 12,
                    yields: [(ItemType::Steel, 14), (ItemType::Chip, 3), (ItemType::Phone, 0)],
                    upgrade_materials: [(ItemType::Steel, 120), (ItemType::Phone, 5), (ItemType::Log, 50)],
                    upgrade_cost: 5600,
                })
            } else {
                None
            },
            BuildingType::Cabin => if level == 1 {
                Some(LevelStats {
                    speed: 15,
                    yields: [(ItemType::Log, 6), (ItemType::Lantern, 2), (ItemType::Axe, 0)],
                    upgrade_materials: [(ItemType::Log, 36), (ItemType::BronzeCoin, 35), (ItemType::Branch, 50)],
                    upgrade_cost: 2400,
                })
            } else if level == 2 {
                Some(LevelStats {
                    speed: 12,
                    yields: [(ItemType::Log, 14), (ItemType::Lantern, 5), (ItemType::Axe, 0)],
                    upgrade_materials: [(ItemType::Log, 130), (ItemType::SilverCoin, 30), (ItemType::Axe, 5)],
                    upgrade_cost: 5300,
                })
            } else {
                None
            },
            _ => None,
        }
    }

    /// The catalog row of the level above `level`, or `None` at the highest level.
    pub fn next(&self, building_type: BuildingType, level: u8) -> (r: Option<LevelStats>)
        ensures
            r == level_stats(building_type, level + 1),
    {
        if level == 255 {
            None
        } else {
            self.get(building_type, level + 1)
        }
    }
}

impl Default for UpgradeData {
    fn default() -> (r: Self) {
        UpgradeData {}
    }
}

} // verus!
