use arena_evader::borders::Borders;
use arena_evader::coordinates::Coordinate;
use arena_evader::direction::Direction;
use arena_evader::enemy_position::{EnemyPosition, EnemyPositions};
use arena_evader::enemy_position_prediction::EnemyPositionPrediction;
use arena_evader::greedy_next_move::greedy_next_move;
use arena_evader::orientation::Orientation;
use arena_evader::robot_position::RobotPosition;

fn single_enemy_at(x: i8, y: i8, borders: &Borders) -> EnemyPositionPrediction {
    let mut current = EnemyPositions::new();
    current.push(EnemyPosition::new(1, Coordinate::new(x, y)));
    EnemyPositionPrediction::new(&current, &EnemyPositions::new(), borders.clone())
}

#[test]
fn greedy_next_move_test1() {
    let borders = Borders::new();
    let prediction = single_enemy_at(-1, -1, &borders);
    let robot = RobotPosition { position: Coordinate::new(0, 0), orientation: Orientation::West };
    assert_eq!(greedy_next_move(&robot, &prediction, &borders), Some(Direction::Back));
}

#[test]
fn greedy_prefers_the_later_move_on_ties() {
    let borders = Borders::new();
    let prediction = single_enemy_at(-1, -1, &borders);
    let cases = [
        (Orientation::North, Direction::Back),
        (Orientation::East, Direction::Front),
        (Orientation::South, Direction::Front),
        (Orientation::West, Direction::Back),
    ];
    for (orientation, expected) in cases {
        let robot = RobotPosition { position: Coordinate::new(0, 0), orientation };
        assert_eq!(greedy_next_move(&robot, &prediction, &borders), Some(expected));
    }
}

#[test]
fn greedy_never_steps_onto_a_border() {
    let mut borders = Borders::new();
    borders.set_border(Coordinate::new(0, 1));
    borders.set_border(Coordinate::new(1, 0));
    let prediction = single_enemy_at(-1, -1, &borders);
    let robot = RobotPosition { position: Coordinate::new(0, 0), orientation: Orientation::North };
    assert_eq!(greedy_next_move(&robot, &prediction, &borders), None);
}

#[test]
fn greedy_moves_away_from_an_enemy_ahead() {
    let borders = Borders::new();
    let prediction = single_enemy_at(0, -2, &borders);
    let robot = RobotPosition { position: Coordinate::new(0, 0), orientation: Orientation::North };
    assert_eq!(greedy_next_move(&robot, &prediction, &borders), Some(Direction::Back));
}

#[test]
fn greedy_stays_in_place_only_when_strictly_better() {
    let mut borders = Borders::new();
    borders.set_border(Coordinate::new(1, 0));
    borders.set_border(Coordinate::new(-1, 0));
    borders.set_border(Coordinate::new(0, 1));
    let prediction = single_enemy_at(0, -2, &borders);
    let robot = RobotPosition { position: Coordinate::new(0, 0), orientation: Orientation::North };
    assert_eq!(greedy_next_move(&robot, &prediction, &borders), None);

    // with nothing tracked every score is 0, so the last open move wins
    let empty = EnemyPositionPrediction::empty();
    assert_eq!(greedy_next_move(&robot, &empty, &borders), Some(Direction::Front));
}
