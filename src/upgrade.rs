use crate::grid::Building;
use crate::inventory::Inventory;
use crate::items::{with_quantity, ItemType};
use crate::upgrade_data::{level_stats, lemma_row_shape, UpgradeData};
use vstd::prelude::*;

verus! {

/// `after` holds the entries of `before`, with only quantities possibly changed.
pub open spec fn same_entries(before: Inventory, after: Inventory) -> bool {
    &&& after.items@.len() == before.items@.len()
    &&& forall|i: int|
        0 <= i < before.items@.len() ==> (#[trigger] after.items@[i]) == with_quantity(
            before.items@[i],
            after.items@[i].quantity,
        )
}

pub proof fn lemma_same_entries_trans(a: Inventory, b: Inventory, c: Inventory)
    requires
        same_entries(a, b),
        same_entries(b, c),
    ensures
        same_entries(a, c),
{
    assert forall|i: int| 0 <= i < a.items@.len() implies (#[trigger] c.items@[i]) == with_quantity(
        a.items@[i],
        c.items@[i].quantity,
    ) by {
        assert(b.items@[i] == with_quantity(a.items@[i], b.items@[i].quantity));
    }
}

/// Whether some entry of a list names item kind `t`.
pub open spec fn lists_kind<A>(s: Seq<(ItemType, A)>, t: ItemType) -> bool {
    exists|k: int| 0 <= k < s.len() && (#[trigger] s[k]).0 == t
}

/// Whether collecting a building's yields keeps every inventory quantity in range.
pub open spec fn can_collect(inventory: Inventory, building: Building) -> bool {
    forall|k: int|
        0 <= k < building.yields@.len() ==> inventory.qty((#[trigger] building.yields@[k]).0)
            + building.yields@[k].1 <= u32::MAX
}

/// The effect of a collection: every yield slot moved into the inventory and zeroed.
pub open spec fn collected(inv0: Inventory, b0: Building, inv1: Inventory, b1: Building) -> bool {
    &&& same_entries(inv0, inv1)
    &&& inv1.balance == inv0.balance
    &&& forall|k: int|
        0 <= k < b0.yields@.len() ==> inv1.qty(
            (#[trigger] b0.yields@[k]).0,
        ) == inv0.qty(b0.yields@[k].0) + b0.yields@[k].1
    &&& forall|t: ItemType|
        !lists_kind(b0.yields@, t) ==> #[trigger] inv1.qty(t)
            == inv0.qty(t)
    &&& b1.yields@.len() == b0.yields@.len()
    &&& forall|k: int|
        0 <= k < b0.yields@.len() ==> #[trigger] b1.yields@[k] == (
            b0.yields@[k].0,
            0u32,
        )
    &&& b1.building_type == b0.building_type
    &&& b1.level == b0.level
    &&& b1.speed == b0.speed
}

/// Moves every accumulated yield of a building into the inventory and zeroes it.
/// Rejected, with nothing changed, only where a quantity would leave its range.
pub fn collect_yields(inventory: &mut Inventory, building: &mut Building) -> (r: bool)
    requires
        old(inventory).wf(),
        old(building).wf(),
    ensures
        final(inventory).wf(),
        final(building).wf(),
        r == can_collect(*old(inventory), *old(building)),
        r ==> collected(*old(inventory), *old(building), *final(inventory), *final(building)),
        !r ==> *final(inventory) == *old(inventory) && *final(building) == *old(building),
{
    let n = building.yields.len();
    let mut k: usize = 0;
    while k < n
        invariant
            n == building.yields@.len(),
            inventory.wf(),
            building.wf(),
            *inventory == *old(inventory),
            *building == *old(building),
            0 <= k <= n,
            forall|j: int|
                0 <= j < k ==> inventory.qty((#[trigger] building.yields@[j]).0)
                    + building.yields@[j].1 <= u32::MAX,
        decreases n - k,
    {
        let (t, q) = building.yields[k];
        if q > u32::MAX - inventory.quantity_of(t) {
            return false;
        }
        k = k + 1;
    }
    let ghost inv0 = *inventory;
    let ghost b0 = *building;
    k = 0;
    while k < n
        invariant
            n == building.yields@.len(),
            n == b0.yields@.len(),
            b0.wf(),
            inventory.wf(),
            inv0.wf(),
            0 <= k <= n,
            can_collect(inv0, b0),
            same_entries(inv0, *inventory),
            inventory.balance == inv0.balance,
            building.building_type == b0.building_type,
            building.level == b0.level,
            building.speed == b0.speed,
            forall|j: int| 0 <= j < k ==> #[trigger] building.yields@[j] == (b0.yields@[j].0, 0u32),
            forall|j: int| k <= j < n ==> #[trigger] building.yields@[j] == b0.yields@[j],
            forall|j: int|
                0 <= j < k ==> inventory.qty((#[trigger] b0.yields@[j]).0) == inv0.qty(
                    b0.yields@[j].0,
                ) + b0.yields@[j].1,
            forall|t: ItemType|
                (forall|j: int| 0 <= j < k ==> (#[trigger] b0.yields@[j]).0 != t)
                    ==> #[trigger] inventory.qty(t) == inv0.qty(t),
        decreases n - k,
    {
        let (t, q) = building.yields[k];
        let owned = inventory.quantity_of(t);
        proof {
            assert(b0.yields@[k as int].0 == t);
            assert forall|j: int| 0 <= j < k implies (#[trigger] b0.yields@[j]).0 != t by {}
        }
        let ghost before = *inventory;
        inventory.set_quantity(t, owned + q);
        building.yields.set(k, (t, 0));
        proof {
            crate::items::lemma_slot_round_trip(t);
            assert forall|u: ItemType| u != t implies #[trigger] inventory.qty(u) == before.qty(u) by {
                crate::items::lemma_slot_injective(t, u);
            }
            assert forall|j: int|
                0 <= j < k + 1 implies inventory.qty((#[trigger] b0.yields@[j]).0) == inv0.qty(
                b0.yields@[j].0,
            ) + b0.yields@[j].1 by {
                if j < k {
                    assert(b0.yields@[j].0 != t);
                }
            }
            assert forall|i: int|
                0 <= i < inv0.items@.len() implies (#[trigger] inventory.items@[i]) == with_quantity(
                inv0.items@[i],
                inventory.items@[i].quantity,
            ) by {
                assert(before.items@[i] == with_quantity(inv0.items@[i], before.items@[i].quantity));
            }
        }
        k = k + 1;
    }
    proof {
        assert(building.wf());
        assert forall|t: ItemType| !lists_kind(b0.yields@, t) implies #[trigger] inventory.qty(t)
            == inv0.qty(t) by {
            assert forall|j: int| 0 <= j < n implies (#[trigger] b0.yields@[j]).0 != t by {
                if b0.yields@[j].0 == t {
                    assert(lists_kind(b0.yields@, t));
                }
            }
        }
    }
    true
}

/// Whether a building can be upgraded: it is below its highest level, the player holds
/// every material its current row asks for, and can pay the row's upgrade cost.
pub open spec fn can_upgrade(inventory: Inventory, building: Building) -> bool {
    match (
        level_stats(building.building_type, building.level as int),
        level_stats(building.building_type, building.level + 1),
    ) {
        (Some(cur), Some(_)) => {
            &&& forall|k: int|
                0 <= k < 3 ==> inventory.qty((#[trigger] cur.upgrade_materials@[k]).0)
                    >= cur.upgrade_materials@[k].1
            &&& inventory.balance >= cur.upgrade_cost
        },
        _ => false,
    }
}

/// The effect of an upgrade: the current row's materials and cost consumed, one level
/// gained, and the next row's speed taken.
pub open spec fn upgraded(inv0: Inventory, b0: Building, inv1: Inventory, b1: Building) -> bool {
    let cur = level_stats(b0.building_type, b0.level as int).unwrap();
    let next = level_stats(b0.building_type, b0.level + 1).unwrap();
    &&& same_entries(inv0, inv1)
    &&& inv1.balance == inv0.balance - cur.upgrade_cost
    &&& forall|k: int|
        0 <= k < 3 ==> inv1.qty((#[trigger] cur.upgrade_materials@[k]).0)
            == inv0.qty(cur.upgrade_materials@[k].0) - cur.upgrade_materials@[k].1
    &&& forall|t: ItemType|
        !lists_kind(cur.upgrade_materials@, t) ==> #[trigger] inv1.qty(t)
            == inv0.qty(t)
    &&& b1.level == b0.level + 1
    &&& b1.speed == next.speed
    &&& b1.building_type == b0.building_type
    &&& b1.yields@ == b0.yields@
}

/// Takes `q` units of `t` out of the inventory.
fn take_units(inventory: &mut Inventory, t: ItemType, q: u32)
    requires
        old(inventory).wf(),
        old(inventory).qty(t) >= q,
    ensures
        final(inventory).wf(),
        same_entries(*old(inventory), *final(inventory)),
        final(inventory).balance == old(inventory).balance,
        final(inventory).qty(t) == old(inventory).qty(t) - q,
        forall|u: ItemType| u != t ==> #[trigger] final(inventory).qty(u) == old(inventory).qty(u),
{
    let owned = inventory.quantity_of(t);
    inventory.set_quantity(t, owned - q);
    proof {
        crate::items::lemma_slot_round_trip(t);
        assert forall|u: ItemType| u != t implies #[trigger] inventory.qty(u) == old(inventory).qty(u) by {
            crate::items::lemma_slot_injective(t, u);
        }
    }
}

/// Upgrades a building by one level: consumes the materials and the cost of its current
/// catalog row, raises its level and takes the speed of the next row. Rejected, with
/// nothing changed, unless `can_upgrade` holds.
pub fn upgrade_building(inventory: &mut Inventory, building: &mut Building, data: &UpgradeData) -> (r: bool)
    requires
        old(inventory).wf(),
        old(building).wf(),
    ensures
        final(inventory).wf(),
        final(building).wf(),
        r == can_upgrade(*old(inventory), *old(building)),
        r ==> upgraded(*old(inventory), *old(building), *final(inventory), *final(building)),
        !r ==> *final(inventory) == *old(inventory) && *final(building) == *old(building),
{
    let bt = building.building_type;
    let level = building.level;
    proof {
        lemma_row_shape(bt, level as int);
    }
    let cur = match data.get(bt, level) {
        Some(s) => s,
        None => return false,
    };
    let next = match data.next(bt, level) {
        Some(s) => s,
        None => return false,
    };
    let (t0, q0) = cur.upgrade_materials[0];
    let (t1, q1) = cur.upgrade_materials[1];
    let (t2, q2) = cur.upgrade_materials[2];
    if inventory.quantity_of(t0) < q0 || inventory.quantity_of(t1) < q1 || inventory.quantity_of(t2)
        < q2 || inventory.balance < cur.upgrade_cost {
        proof {
            let m = cur.upgrade_materials@;
            assert(m[0].0 == t0 && m[1].0 == t1 && m[2].0 == t2);
        }
        return false;
    }
    let ghost inv0 = *inventory;
    proof {
        let m = cur.upgrade_materials@;
        assert(m[0] == (t0, q0) && m[1] == (t1, q1) && m[2] == (t2, q2));
        assert(t0 != t1 && t0 != t2 && t1 != t2);
        assert forall|k: int| 0 <= k < 3 implies inv0.qty((#[trigger] m[k]).0) >= m[k].1 by {}
    }
    take_units(inventory, t0, q0);
    let ghost inv1 = *inventory;
    take_units(inventory, t1, q1);
    let ghost inv2 = *inventory;
    take_units(inventory, t2, q2);
    let ghost inv3 = *inventory;
    proof {
        lemma_same_entries_trans(inv0, inv1, inv2);
        lemma_same_entries_trans(inv0, inv2, inv3);
        assert(inv1.qty(t0) == inv0.qty(t0) - q0);
        assert(inv2.qty(t0) == inv1.qty(t0));
        assert(inv3.qty(t0) == inv2.qty(t0));
        assert(inv2.qty(t1) == inv1.qty(t1) - q1);
        assert(inv1.qty(t1) == inv0.qty(t1));
        assert(inv3.qty(t1) == inv2.qty(t1));
        assert(inv3.qty(t2) == inv2.qty(t2) - q2);
        assert(inv1.qty(t2) == inv0.qty(t2));
        assert(inv2.qty(t2) == inv1.qty(t2));
    }
    inventory.balance = inventory.balance - cur.upgrade_cost;
    building.level = level + 1;
    building.speed = next.speed;
    proof {
        let m = cur.upgrade_materials@;
        assert(m[0] == (t0, q0) && m[1] == (t1, q1) && m[2] == (t2, q2));
        assert forall|t: ItemType| !lists_kind(m, t) implies #[trigger] inventory.qty(t) == inv0.qty(t) by {
            if t == t0 {
                assert(m[0].0 == t);
            }
            if t == t1 {
                assert(m[1].0 == t);
            }
            if t == t2 {
                assert(m[2].0 == t);
            }
            assert(inv1.qty(t) == inv0.qty(t));
            assert(inv2.qty(t) == inv1.qty(t));
            assert(inv3.qty(t) == inv2.qty(t));
        }
        assert(inventory.qty(t0) == inv0.qty(t0) - q0);
        assert(inventory.qty(t1) == inv0.qty(t1) - q1);
        assert(inventory.qty(t2) == inv0.qty(t2) - q2);
    }
    true
}

/// One upgrade material as the upgrade panel shows it.
pub struct MaterialView {
    pub item_type: ItemType,
    pub held: u32,
    pub required: u32,
    /// Whether the player holds enough of it.
    pub met: bool,
}

/// What the upgrade panel shows of a building: its current figures, those of the next
/// level (`None` at the highest level), and what an upgrade asks for.
pub struct UpgradeView {
    pub level: u8,
    pub next_level: Option<u8>,
    pub speed: u8,
    pub next_speed: Option<u8>,
    pub materials: Vec<MaterialView>,
    pub balance: u32,
    pub cost: u32,
    /// Whether the balance covers the cost.
    pub cost_met: bool,
}

/// The upgrade panel's figures for a building, or `None` for a building without a
/// catalog row at its level.
pub fn upgrade_view(inventory: &Inventory, building: &Building, data: &UpgradeData) -> (r: Option<UpgradeView>)
    requires
        inventory.wf(),
    ensures
        r.is_some() == level_stats(building.building_type, building.level as int).is_some(),
        r matches Some(v) ==> {
            let cur = level_stats(building.building_type, building.level as int).unwrap();
            let next = level_stats(building.building_type, building.level + 1);
            &&& v.level == building.level
            &&& v.speed == cur.speed
            &&& next.is_none() ==> v.next_level.is_none() && v.next_speed.is_none()
            &&& next matches Some(n) ==> v.next_level == Some((building.level + 1) as u8)
                && v.next_speed == Some(n.speed)
            &&& v.balance == inventory.balance
            &&& v.cost == cur.upgrade_cost
            &&& v.cost_met == (inventory.balance >= cur.upgrade_cost)
            &&& v.materials@.len() == 3
            &&& forall|k: int|
                0 <= k < 3 ==> {
                    let m = #[trigger] v.materials@[k];
                    &&& m.item_type == cur.upgrade_materials@[k].0
                    &&& m.required == cur.upgrade_materials@[k].1
                    &&& m.held == inventory.qty(m.item_type)
                    &&& m.met == (m.held >= m.required)
                }
        },
{
    let bt = building.building_type;
    let level = building.level;
    let cur = match data.get(bt, level) {
        Some(s) => s,
        None => return None,
    };
    let (next_level, next_speed) = match data.next(bt, level) {
        Some(n) => (Some(level + 1), Some(n.speed)),
        None => (None, None),
    };
    let mut materials: Vec<MaterialView> = Vec::new();
    let mut k: usize = 0;
    while k < 3
        invariant
            0 <= k <= 3,
            inventory.wf(),
            materials@.len() == k,
            cur.upgrade_materials@.len() == 3,
            forall|j: int|
                0 <= j < k ==> {
                    let m = #[trigger] materials@[j];
                    &&& m.item_type == cur.upgrade_materials@[j].0
                    &&& m.required == cur.upgrade_materials@[j].1
                    &&& m.held == inventory.qty(m.item_type)
                    &&& m.met == (m.held >= m.required)
                },
        decreases 3 - k,
    {
        let (t, required) = cur.upgrade_materials[k];
        let held = inventory.quantity_of(t);
        materials.push(MaterialView { item_type: t, held, required, met: held >= required });
        k = k + 1;
    }
    Some(UpgradeView {
        level,
        next_level,
        speed: cur.speed,
        next_speed,
        materials,
        balance: inventory.balance,
        cost: cur.upgrade_cost,
        cost_met: inventory.balance >= cur.upgrade_cost,
    })
}

/// A yield counter of the upgrade panel: it shows the yield slot at `position`.
pub struct YieldCountText {
    pub position: usize,
}

impl YieldCountText {
    /// The accumulated amount the counter shows for a building, if it has that slot.
    pub fn count(&self, building: &Building) -> (r: Option<u32>)
        ensures
            self.position < building.yields@.len() ==> r == Some(building.yields@[self.position as int].1),
            self.position >= building.yields@.len() ==> r.is_none(),
    {
        if self.position < building.yields.len() {
            Some(building.yields[self.position].1)
        } else {
            None
        }
    }
}

} // verus!
