use vstd::prelude::*;

use crate::borders::Borders;
use crate::coordinates::Coordinate;
use crate::direction::Direction;
use crate::enemy_position_prediction::{threat_distance, Enemy, EnemyPositionPrediction};
use crate::robot_position::RobotPosition;

verus! {

/// The order in which the moves are weighed; on equal scores the later wins.
pub open spec fn evaluation_order() -> Seq<Direction> {
    seq![Direction::Right, Direction::Left, Direction::Front, Direction::Back]
}

/// Best score and move after weighing the moves of `order` in turn, starting
/// from the score of staying put and no move. A move onto a border is never
/// taken; a move whose score is at least the best so far replaces it.
pub open spec fn weigh(
    robot: RobotPosition,
    threats: Seq<Enemy>,
    borders: Set<Coordinate>,
    order: Seq<Direction>,
) -> (int, Option<Direction>)
    decreases order.len(),
{
    if order.len() == 0 {
        (threat_distance(threats, robot.position), None)
    } else {
        let (best, choice) = weigh(robot, threats, borders, order.drop_last());
        let d = order.last();
        let target = robot.target(d);
        if borders.contains(target) {
            (best, choice)
        } else {
            let score = threat_distance(threats, target);
            if score >= best {
                (score, Some(d))
            } else {
                (best, choice)
            }
        }
    }
}

/// The move that `greedy_next_move` picks.
pub open spec fn greedy_choice(
    robot: RobotPosition,
    threats: Seq<Enemy>,
    borders: Set<Coordinate>,
) -> Option<Direction> {
    weigh(robot, threats, borders, evaluation_order()).1
}

/// Picks the move that keeps the robot farthest from the nearest predicted
/// enemy, never onto a border; `None` when staying put is strictly better.
pub fn greedy_next_move(
    robot_position: &RobotPosition,
    enemy_position_prediction: &EnemyPositionPrediction,
    borders: &Borders,
) -> (r: Option<Direction>)
    requires
        enemy_position_prediction.wf(),
        robot_position.position.steppable(),
    ensures
        r == greedy_choice(*robot_position, enemy_position_prediction@, borders@),
{
    let ghost threats = enemy_position_prediction@;
    let order = [Direction::Right, Direction::Left, Direction::Front, Direction::Back];
    assert(order@ =~= evaluation_order());
    let mut best_direction: Option<Direction> = None;
    let mut best_direction_survival_chance: i32 = enemy_position_prediction.min_distance_from(
        robot_position.position,
    );
    let mut k: usize = 0;
    assert(order@.subrange(0, 0) =~= Seq::<Direction>::empty());
    while k < 4
        invariant
            k <= 4,
            order@ == evaluation_order(),
            enemy_position_prediction.wf(),
            robot_position.position.steppable(),
            threats == enemy_position_prediction@,
            (best_direction_survival_chance as int, best_direction) == weigh(
                *robot_position,
                threats,
                borders@,
                order@.subrange(0, k as int),
            ),
        decreases 4 - k,
    {
        assert(order@.subrange(0, k + 1).drop_last() =~= order@.subrange(0, k as int));
        let direction = order[k];
        let pos = robot_position.in_direction(direction);
        // never step onto a border
        if !borders.is_border(pos) {
            let survival_chance = enemy_position_prediction.min_distance_from(pos);
            if survival_chance >= best_direction_survival_chance {
                best_direction = Some(direction);
                best_direction_survival_chance = survival_chance;
            }
        }
        k = k + 1;
    }
    assert(order@.subrange(0, 4) =~= order@);
    best_direction
}

/// Position of a move in `evaluation_order`.
pub open spec fn rank(d: Direction) -> int {
    match d {
        Direction::Right => 0,
        Direction::Left => 1,
        Direction::Front => 2,
        Direction::Back => 3,
    }
}

/// Distance from the cell that move `d` leads to, to the nearest threat.
pub open spec fn score(robot: RobotPosition, threats: Seq<Enemy>, d: Direction) -> int {
    threat_distance(threats, robot.target(d))
}

/// The move picked leads to no border, scores at least as well as staying
/// put and as every other move onto an open cell, and of the moves with the
/// best score it is the one weighed last. No move is picked exactly when
/// every move onto an open cell scores strictly less than staying put.
pub proof fn lemma_greedy_choice_is_best(
    robot: RobotPosition,
    threats: Seq<Enemy>,
    borders: Set<Coordinate>,
)
    ensures
        greedy_choice(robot, threats, borders) matches Some(d) ==> {
            &&& !borders.contains(robot.target(d))
            &&& score(robot, threats, d) >= threat_distance(threats, robot.position)
            &&& forall|e: Direction|
                !borders.contains(robot.target(e)) ==> score(robot, threats, e) <= score(
                    robot,
                    threats,
                    d,
                )
            &&& forall|e: Direction|
                !borders.contains(robot.target(e)) && score(robot, threats, e) == score(
                    robot,
                    threats,
                    d,
                ) ==> rank(e) <= rank(d)
        },
        greedy_choice(robot, threats, borders) is None <==> forall|e: Direction|
            !borders.contains(robot.target(e)) ==> score(robot, threats, e) < threat_distance(
                threats,
                robot.position,
            ),
{
    let order = evaluation_order();
    assert(order.drop_last() =~= seq![Direction::Right, Direction::Left, Direction::Front]);
    assert(order.drop_last().drop_last() =~= seq![Direction::Right, Direction::Left]);
    assert(order.drop_last().drop_last().drop_last() =~= seq![Direction::Right]);
    assert(order.drop_last().drop_last().drop_last().drop_last() =~= Seq::<Direction>::empty());
    reveal_with_fuel(weigh, 5);
}

} // verus!
