use plant_manager::dashboard::{compute, DashboardSummary};
use plant_manager::plant::{CreatePlantDTO, Plant};
use plant_manager::status::StatusField;

fn plant(id: u128) -> Plant {
    let dto = CreatePlantDTO {
        name: format!("plant {}", id),
        plant_type: "Herb".to_string(),
        image: None,
        user_id: 7,
    };
    Plant::create(dto, id, 1_752_537_600_000_000)
}

fn zero() -> DashboardSummary {
    DashboardSummary {
        total_plants: 0,
        watered_today: 0,
        fertilized_today: 0,
        harvested_today: 0,
        need_watering: 0,
        need_fertilizing: 0,
        ready_to_harvest: 0,
    }
}

#[test]
fn no_plants_gives_all_zero() {
    assert_eq!(compute(&[], "2025-07-15"), zero());
    assert_eq!(compute(&[], ""), zero());
}

#[test]
fn plant_without_records_counts_nothing() {
    let plants = vec![plant(1)];
    let s = compute(&plants, "2025-07-15");
    assert_eq!(s.total_plants, 1);
    assert_eq!(s.watered_today, 0);
    assert_eq!(s.fertilized_today, 0);
    assert_eq!(s.harvested_today, 0);
    assert_eq!(s.ready_to_harvest, 0);
    assert_eq!(s.need_watering, 1);
    assert_eq!(s.need_fertilizing, 1);
}

#[test]
fn two_plants_one_ready() {
    let mut a = plant(1);
    a.status.apply_update("2025-07-15", StatusField::Watered, true);
    a.status.apply_update("2025-07-15", StatusField::Fertilized, true);
    a.status.apply_update("2025-07-15", StatusField::Harvested, false);
    let b = plant(2);
    let s = compute(&[a, b], "2025-07-15");
    assert_eq!(
        s,
        DashboardSummary {
            total_plants: 2,
            watered_today: 1,
            fertilized_today: 1,
            harvested_today: 0,
            need_watering: 1,
            need_fertilizing: 1,
            ready_to_harvest: 1,
        }
    );
}

#[test]
fn other_dates_do_not_count() {
    let mut a = plant(1);
    a.status.apply_update("2025-07-14", StatusField::Watered, true);
    let s = compute(&[a], "2025-07-15");
    assert_eq!(s.watered_today, 0);
    assert_eq!(s.need_watering, 1);
}

#[test]
fn harvested_plant_is_not_ready() {
    let mut a = plant(1);
    let mut b = plant(2);
    let mut c = plant(3);
    for p in [&mut a, &mut b] {
        p.status.apply_update("2025-07-15", StatusField::Watered, true);
        p.status.apply_update("2025-07-15", StatusField::Fertilized, true);
    }
    b.status.apply_update("2025-07-15", StatusField::Harvested, true);
    c.status.apply_update("2025-07-15", StatusField::Watered, true);
    let s = compute(&[a, b, c], "2025-07-15");
    assert_eq!(
        s,
        DashboardSummary {
            total_plants: 3,
            watered_today: 3,
            fertilized_today: 2,
            harvested_today: 1,
            need_watering: 0,
            need_fertilizing: 1,
            ready_to_harvest: 1,
        }
    );
}
