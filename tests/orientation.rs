use arena_evader::direction::Direction;
use arena_evader::orientation::Orientation;

#[test]
fn orientation_test1() {
    assert_eq!(Orientation::West.direction_relative_to(Orientation::North), Direction::Left);
    assert_eq!(Orientation::South.direction_relative_to(Orientation::North), Direction::Back);
    assert_eq!(Orientation::West.direction_relative_to(Orientation::East), Direction::Back);
    assert_eq!(Orientation::North.direction_relative_to(Orientation::West), Direction::Right);
}

#[test]
fn integer_values_round_trip() {
    let all = [Orientation::North, Orientation::East, Orientation::South, Orientation::West];
    for (i, o) in all.iter().enumerate() {
        assert_eq!(o.integer_value(), i as i32);
        assert_eq!(Orientation::from_integer(i as i32), Some(*o));
    }
    assert_eq!(Orientation::from_integer(4), None);
    assert_eq!(Orientation::from_integer(-1), None);
}

#[test]
fn relative_directions() {
    assert_eq!(Orientation::East.direction_relative_to(Orientation::East), Direction::Front);
    assert_eq!(Orientation::East.direction_relative_to(Orientation::North), Direction::Right);
    assert_eq!(Orientation::North.direction_relative_to(Orientation::East), Direction::Left);
    assert_eq!(Orientation::North.direction_relative_to(Orientation::South), Direction::Back);
}

#[test]
fn rotations() {
    assert_eq!(Orientation::North.rotated_right(), Orientation::East);
    assert_eq!(Orientation::West.rotated_right(), Orientation::North);
    assert_eq!(Orientation::North.rotated_left(), Orientation::West);
    assert_eq!(Orientation::South.rotated_left(), Orientation::East);
}
