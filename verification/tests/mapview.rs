use openzt::mapview::{crowd_density_megatile, tile_megatile, BFTile, ErrorStringId, IVec3, TankPlacementQuery, ZTMapView};

fn pos(x: i32, y: i32) -> IVec3 {
    IVec3 { x, y, z: 0 }
}

#[test]
fn flat_and_sloped_tile_elevations() {
    let flat = BFTile::new(pos(3, 4), 0);
    assert_eq!(flat.get_local_elevation(pos(10, 20)), 0);
    let one = BFTile::new(pos(3, 4), 0x1);
    assert_eq!(one.get_local_elevation(pos(10, 20)), -7);
    assert_eq!(one.get_local_elevation(pos(60, 10)), -16);
    let four = BFTile::new(pos(3, 4), 0x4);
    assert_eq!(four.get_local_elevation(pos(10, 30)), 5);
    assert_eq!(four.get_local_elevation(pos(30, 10)), 0);
    let five = BFTile::new(pos(3, 4), 0x5);
    assert_eq!(five.get_local_elevation(pos(10, 0)), -2);
    assert_eq!(five.get_local_elevation(pos(-10, 0)), 2);
    assert_eq!(five.get_local_elevation(pos(-3, 0)), 0);
    assert_eq!(five.get_local_elevation(pos(-5, 0)), 1);
    let forty_one = BFTile::new(pos(3, 4), 0x41);
    assert_eq!(forty_one.get_local_elevation(pos(0, -12)), 3);
    assert_eq!(forty_one.get_local_elevation(pos(0, 12)), -3);
}

#[test]
fn tiles_compare_by_position() {
    let a = BFTile::new(pos(3, 4), 0);
    let mut b = BFTile::new(pos(3, 4), 0x11);
    b.entity_ptr = 0x1234;
    assert!(a == b);
    assert!(a != BFTile::new(pos(4, 3), 0));
}

#[test]
fn megatiles_and_crowd_density() {
    assert_eq!(tile_megatile(&BFTile::new(pos(12, 4), 0)), Some((2, 0)));
    assert_eq!(tile_megatile(&BFTile::new(pos(-1, 4), 0)), None);
    assert_eq!(crowd_density_megatile(Some(7)), 2);
    assert_eq!(crowd_density_megatile(Some(-7)), -2);
    assert_eq!(crowd_density_megatile(None), 0);
}

#[test]
fn error_string_ids_round_trip() {
    for e in [
        ErrorStringId::UnknownError,
        ErrorStringId::ObjectTooCloseToLadderOrPlatform,
        ErrorStringId::ObjectCannotBePlacedInTank,
        ErrorStringId::ObjectMustBePlacedInADeeperTank,
        ErrorStringId::EggsMustBePlacedOnLand,
        ErrorStringId::AnimalMustBePlacedInATankWithWater,
        ErrorStringId::AnimalMustBePlacedOnLand,
        ErrorStringId::StaffCannotBePlacedInTank,
        ErrorStringId::ShowObjectMustBePlacedInShowTank,
        ErrorStringId::ObjectCannotBePlacedAgainstTankWall,
        ErrorStringId::ObjectCannotBePlacedInShowTank,
    ] {
        assert_eq!(ErrorStringId::from_primitive(e.string_id()), e);
    }
    assert_eq!(ErrorStringId::ObjectTooCloseToLadderOrPlatform.string_id(), 0x2942);
    assert_eq!(ErrorStringId::from_primitive(0x1234), ErrorStringId::UnknownError);
}

fn tank_query() -> TankPlacementQuery {
    TankPlacementQuery {
        habitat_found: true,
        is_tank: true,
        is_show_tank: false,
        tank_height: 3,
        is_keeper: false,
        on_gate_tile_in: false,
        is_scenery: false,
        scenery_underwater: false,
        scenery_surface: false,
        scenery_depth: 0,
        is_animal: false,
        is_egg: false,
        animal_underwater: false,
        animal_depth: 0,
        is_unit: false,
        unit_underwater: false,
        is_staff: false,
        is_show: false,
        avoids_edges: false,
        tile_entity_is_scenery: false,
        tile_scenery_surface: false,
    }
}

#[test]
fn tank_placement_rules_in_order() {
    let q = tank_query();
    assert_eq!(ZTMapView::check_tank_placement(&q), Ok(()));
    assert_eq!(ZTMapView::check_tank_placement(&TankPlacementQuery { is_tank: false, on_gate_tile_in: true, ..q }), Ok(()));
    assert_eq!(
        ZTMapView::check_tank_placement(&TankPlacementQuery { on_gate_tile_in: true, ..q }),
        Err(ErrorStringId::ObjectTooCloseToLadderOrPlatform)
    );
    assert_eq!(ZTMapView::check_tank_placement(&TankPlacementQuery { on_gate_tile_in: true, is_keeper: true, ..q }), Ok(()));
    assert_eq!(
        ZTMapView::check_tank_placement(&TankPlacementQuery { is_scenery: true, ..q }),
        Err(ErrorStringId::ObjectCannotBePlacedInTank)
    );
    assert_eq!(
        ZTMapView::check_tank_placement(&TankPlacementQuery { is_scenery: true, scenery_surface: true, scenery_depth: 4, ..q }),
        Err(ErrorStringId::ObjectMustBePlacedInADeeperTank)
    );
    assert_eq!(
        ZTMapView::check_tank_placement(&TankPlacementQuery { is_animal: true, is_egg: true, ..q }),
        Err(ErrorStringId::EggsMustBePlacedOnLand)
    );
    assert_eq!(
        ZTMapView::check_tank_placement(&TankPlacementQuery { is_animal: true, animal_underwater: true, tank_height: 0, ..q }),
        Err(ErrorStringId::AnimalMustBePlacedInATankWithWater)
    );
    assert_eq!(
        ZTMapView::check_tank_placement(&TankPlacementQuery { is_unit: true, is_staff: true, ..q }),
        Err(ErrorStringId::StaffCannotBePlacedInTank)
    );
    assert_eq!(
        ZTMapView::check_tank_placement(&TankPlacementQuery { is_unit: true, ..q }),
        Err(ErrorStringId::AnimalMustBePlacedOnLand)
    );
    assert_eq!(
        ZTMapView::check_tank_placement(&TankPlacementQuery { is_show: true, ..q }),
        Err(ErrorStringId::ShowObjectMustBePlacedInShowTank)
    );
    assert_eq!(
        ZTMapView::check_tank_placement(&TankPlacementQuery { is_show_tank: true, ..q }),
        Err(ErrorStringId::ObjectCannotBePlacedInShowTank)
    );
    assert_eq!(
        ZTMapView::check_tank_placement(&TankPlacementQuery { avoids_edges: true, ..q }),
        Err(ErrorStringId::ObjectCannotBePlacedAgainstTankWall)
    );
    assert_eq!(
        ZTMapView::check_tank_placement(&TankPlacementQuery { tile_entity_is_scenery: true, ..q }),
        Err(ErrorStringId::UnknownError)
    );
}
