use cityidle::grid::{Building, BuildingType};
use cityidle::timers::{produce, AutoSaver, RepeatingTimer, Timers, NANOS_PER_SEC};
use cityidle::upgrade_data::UpgradeData;

const S: u64 = NANOS_PER_SEC;

#[test]
fn new_timer_fires_on_first_second() {
    let mut t = RepeatingTimer::new(15);
    assert_eq!(t.duration, 15 * S);
    assert_eq!(t.elapsed, 14 * S);
    assert_eq!(t.tick(S / 2), 0);
    assert_eq!(t.tick(S / 2), 1);
    assert_eq!(t.elapsed, 0);
}

#[test]
fn timer_fires_once_per_elapsed_period() {
    let mut t = RepeatingTimer::new(10);
    t.elapsed = 0;
    assert_eq!(t.tick(35 * S), 3);
    assert_eq!(t.elapsed, 5 * S);
    assert_eq!(t.tick(5 * S), 1);
    assert_eq!(t.elapsed, 0);
    assert_eq!(t.tick(u64::MAX), u64::MAX / (10 * S));
}

#[test]
fn changing_duration_keeps_elapsed() {
    let mut t = RepeatingTimer::new(15);
    t.elapsed = 13 * S;
    t.set_duration(12);
    assert_eq!(t.duration, 12 * S);
    assert_eq!(t.elapsed, 13 * S);
    assert_eq!(t.tick(0), 1);
    assert_eq!(t.elapsed, S);
}

#[test]
fn registry_adds_updates_and_ticks() {
    let mut timers = Timers::new();
    timers.add_timer(4, 15);
    timers.add_timer(9, 30);
    assert_eq!(timers.map.len(), 2);
    assert_eq!(timers.find(9), Some(1));
    assert_eq!(timers.find(5), None);
    timers.add_timer(4, 20);
    assert_eq!(timers.map.len(), 2);
    assert_eq!(timers.map[0].1.duration, 20 * S);
    timers.update_timer_speed(9, 12);
    assert_eq!(timers.map[1].1.duration, 12 * S);
    assert_eq!(timers.map[1].1.elapsed, 29 * S);
    let fired = timers.tick(S);
    assert_eq!(fired, vec![(4, 1), (9, 2)]);
    assert_eq!(timers.map[1].1.elapsed, 6 * S);
}

#[test]
fn production_adds_rate_per_tick() {
    let data = UpgradeData::new();
    let mut shop = Building::spawn(BuildingType::CandyShop, &data).unwrap();
    let row = data.get(BuildingType::CandyShop, 1).unwrap();
    produce(&mut shop, &row, 3);
    assert_eq!(shop.yields, vec![
        (cityidle::items::ItemType::Taffy, 30),
        (cityidle::items::ItemType::Nougat, 3),
        (cityidle::items::ItemType::Marshmallow, 0),
    ]);
    produce(&mut shop, &row, u64::MAX);
    assert_eq!(shop.yields[0].1, u32::MAX);
    assert_eq!(shop.yields[2].1, 0);
}

#[test]
fn production_over_whole_periods_is_linear() {
    let data = UpgradeData::new();
    let mut tree = Building::spawn(BuildingType::Tree, &data).unwrap();
    let row = data.get(BuildingType::Tree, 1).unwrap();
    let mut t = RepeatingTimer::new(tree.speed);
    t.elapsed = 0;
    let fires = t.tick(4 * 15 * S);
    produce(&mut tree, &row, fires);
    assert_eq!(fires, 4);
    assert_eq!(tree.yields[0].1, 4 * 8);
    assert_eq!(tree.yields[1].1, 4 * 2);
}

#[test]
fn spawned_building_is_seeded_from_catalog() {
    let data = UpgradeData::new();
    let cabin = Building::spawn(BuildingType::Cabin, &data).unwrap();
    assert_eq!(cabin.level, 1);
    assert_eq!(cabin.speed, 15);
    assert_eq!(cabin.yields.len(), 3);
    assert!(cabin.yields.iter().all(|y| y.1 == 0));
    assert!(Building::spawn(BuildingType::Market, &data).is_none());
    assert_eq!(BuildingType::CoffeeShop.get_name(), "Café");
}

#[test]
fn autosave_every_five_seconds() {
    let mut saver = AutoSaver::new();
    assert!(!saver.auto_save(4 * S));
    assert!(saver.auto_save(S));
    assert!(!saver.auto_save(S));
}
