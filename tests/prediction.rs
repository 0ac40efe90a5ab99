use arena_evader::borders::Borders;
use arena_evader::coordinates::Coordinate;
use arena_evader::enemy_position::{EnemyPosition, EnemyPositions};
use arena_evader::enemy_position_prediction::EnemyPositionPrediction;

fn roster(entries: &[(u64, i8, i8)]) -> EnemyPositions {
    let mut r = EnemyPositions::new();
    for &(id, x, y) in entries {
        r.push(EnemyPosition::new(id, Coordinate::new(x, y)));
    }
    r
}

#[test]
fn enemy_position_prediction_test1() {
    let prediction = EnemyPositionPrediction::empty();
    assert_eq!(prediction.min_distance_from(Coordinate::new(2, 2)), 0);
}

#[test]
fn threat_field_around_a_single_enemy() {
    let prediction = EnemyPositionPrediction::new(&roster(&[(1, 0, 0)]), &roster(&[]), Borders::new());
    assert_eq!(prediction.min_distance_from(Coordinate::new(0, 0)), 0);
    assert_eq!(prediction.min_distance_from(Coordinate::new(1, 0)), 1);
    assert_eq!(prediction.min_distance_from(Coordinate::new(0, -1)), 1);
    assert_eq!(prediction.min_distance_from(Coordinate::new(-1, -1)), 2);
    assert_eq!(prediction.min_distance_from(Coordinate::new(1, 1)), 2);

    let prediction = EnemyPositionPrediction::new(&roster(&[(1, -1, 1)]), &roster(&[]), Borders::new());
    assert_eq!(prediction.min_distance_from(Coordinate::new(-1, 1)), 0);
    assert_eq!(prediction.min_distance_from(Coordinate::new(0, 1)), 1);
    assert_eq!(prediction.min_distance_from(Coordinate::new(-1, 0)), 1);
    assert_eq!(prediction.min_distance_from(Coordinate::new(0, 0)), 2);
    assert_eq!(prediction.min_distance_from(Coordinate::new(1, -1)), 4);
}

#[test]
fn nearest_of_several_enemies() {
    let prediction =
        EnemyPositionPrediction::new(&roster(&[(1, -3, 0), (2, 2, 2), (3, 0, -4)]), &roster(&[]), Borders::new());
    assert_eq!(prediction.min_distance_from(Coordinate::new(1, 1)), 2);
    assert_eq!(prediction.min_distance_from(Coordinate::new(0, -2)), 2);
    assert_eq!(prediction.min_distance_from(Coordinate::new(-4, 0)), 1);
}

#[test]
fn tracked_enemy_keeps_moving() {
    let previous = roster(&[(1, 0, 0)]);
    let current = roster(&[(1, 2, 1)]);
    let mut prediction = EnemyPositionPrediction::new(&current, &previous, Borders::new());
    prediction.move_enemies();
    assert_eq!(prediction.min_distance_from(Coordinate::new(3, 1)), 0);
    prediction.move_enemies();
    assert_eq!(prediction.min_distance_from(Coordinate::new(4, 1)), 0);
}

#[test]
fn velocity_uses_the_previous_origin() {
    let mut previous = roster(&[(1, 2, 0)]);
    previous.use_origin(Coordinate::new(0, 2));
    // previous relative position (2, -2); current (2, 0): moving down
    let current = roster(&[(1, 2, 0)]);
    let mut prediction = EnemyPositionPrediction::new(&current, &previous, Borders::new());
    prediction.move_enemies();
    assert_eq!(prediction.min_distance_from(Coordinate::new(2, 1)), 0);
}

#[test]
fn untracked_enemies_head_for_the_centre_from_edges() {
    let current = roster(&[(1, 0, -4), (2, 1, 4), (3, -4, 2), (4, 4, -1), (5, 4, 4), (6, 1, 1)]);
    let mut prediction = EnemyPositionPrediction::new(&current, &roster(&[]), Borders::new());
    prediction.move_enemies();
    for (x, y) in [(0, -3), (1, 3), (-3, 2), (3, -1), (4, 4), (1, 1)] {
        assert_eq!(prediction.min_distance_from(Coordinate::new(x, y)), 0);
    }
    assert_eq!(prediction.min_distance_from(Coordinate::new(0, -4)), 1);
    assert_eq!(prediction.min_distance_from(Coordinate::new(-4, 2)), 1);
}

#[test]
fn enemy_bounces_on_a_border() {
    let mut borders = Borders::new();
    borders.set_border(Coordinate::new(0, -4));
    let previous = roster(&[(1, 0, -2)]);
    let current = roster(&[(1, 0, -3)]);
    let mut prediction = EnemyPositionPrediction::new(&current, &previous, borders);
    prediction.move_enemies();
    assert_eq!(prediction.min_distance_from(Coordinate::new(0, -2)), 0);
    prediction.move_enemies();
    assert_eq!(prediction.min_distance_from(Coordinate::new(0, -1)), 0);
}

#[test]
fn enemy_without_border_ahead_walks_on() {
    let mut borders = Borders::new();
    borders.set_border(Coordinate::new(1, -4));
    let previous = roster(&[(1, 0, -2)]);
    let current = roster(&[(1, 0, -3)]);
    let mut prediction = EnemyPositionPrediction::new(&current, &previous, borders);
    prediction.move_enemies();
    assert_eq!(prediction.min_distance_from(Coordinate::new(0, -4)), 0);
}

#[test]
fn borders_mask() {
    let mut borders = Borders::new();
    assert!(!borders.is_border(Coordinate::new(2, 3)));
    borders.set_border(Coordinate::new(2, 3));
    assert!(borders.is_border(Coordinate::new(2, 3)));
    assert!(!borders.is_border(Coordinate::new(3, 2)));
    assert!(!borders.is_border(Coordinate { x: 5, y: 3 }));
    borders.set_border(Coordinate::new(-4, -4));
    assert!(borders.is_border(Coordinate::new(-4, -4)));
    assert!(!borders.is_border(Coordinate { x: -5, y: -4 }));
}
