use arena_evader::coordinates::Coordinate;
use arena_evader::enemy_position::{EnemyPosition, EnemyPositions};
use arena_evader::orientation::Orientation;
use arena_evader::robot_position::RobotPosition;

#[test]
fn enemy_position_test1() {
    let mut old_enemy_positions = EnemyPositions::new();
    old_enemy_positions.push(EnemyPosition::new(1, Coordinate::new(0, 0)));

    let mut current_enemy_positions = EnemyPositions::new();
    current_enemy_positions.push(EnemyPosition::new(1, Coordinate::new(1, 0)));
    current_enemy_positions.push(EnemyPosition::new(2, Coordinate::new(2, 0)));

    let robot_position = RobotPosition { position: Coordinate::new(2, 0), orientation: Orientation::East };
    old_enemy_positions.use_origin(robot_position.position);

    let old_1 = old_enemy_positions.get_position_of(1).unwrap();
    let curr_1 = current_enemy_positions.get_position_of(1).unwrap();

    assert_eq!(old_1.distance(curr_1), 3);
}

#[test]
fn enemy_position_test2() {
    let old_enemy_positions = EnemyPositions::new();
    for _ in old_enemy_positions.iter() {}
    assert_eq!(old_enemy_positions.iter().len(), 0);
}

#[test]
fn full_roster_drops_entries() {
    let mut roster = EnemyPositions::new();
    for id in 1..=11u64 {
        roster.push(EnemyPosition::new(id, Coordinate::new(0, 0)));
    }
    assert_eq!(roster.len(), 10);
    assert_eq!(roster.iter().len(), 10);
    assert_eq!(roster.get_position_of(10), Some(Coordinate::new(0, 0)));
    assert_eq!(roster.get_position_of(11), None);
}

#[test]
fn lookup_sees_only_live_entries() {
    let mut roster = EnemyPositions::new();
    assert_eq!(roster.get_position_of(1), None);
    roster.push(EnemyPosition::new(7, Coordinate::new(3, -2)));
    assert_eq!(roster.get_position_of(7), Some(Coordinate::new(3, -2)));
    roster.clear();
    assert_eq!(roster.len(), 0);
    assert_eq!(roster.get_position_of(7), None);
}

#[test]
fn lookup_finds_the_first_entry_and_subtracts_the_origin() {
    let mut roster = EnemyPositions::new();
    roster.push(EnemyPosition::new(3, Coordinate::new(1, 1)));
    roster.push(EnemyPosition::new(5, Coordinate::new(-4, 4)));
    roster.push(EnemyPosition::new(5, Coordinate::new(0, 0)));
    roster.use_origin(Coordinate::new(4, -4));
    assert_eq!(roster.get_position_of(5), Some(Coordinate::new(-8, 8)));
    assert_eq!(roster.get_position_of(3), Some(Coordinate::new(-3, 5)));
    assert_eq!(roster.get_position_of(4), None);
    let ids: Vec<u64> = roster.iter().iter().map(|e| e.id).collect();
    assert_eq!(ids, vec![3, 5, 5]);
}
