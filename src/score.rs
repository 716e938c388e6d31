use vstd::prelude::*;

use crate::arena::{abs, ball_overlaps, ball_overlaps_rect, ARENA_HEIGHT, COORD_LIMIT, GOAL_WIDTH};
use crate::ball::{spawn_ball, spawned_ball, Ball, LastOwner};
use crate::player::opponent;

verus! {

/// Whose goal a goal zone is: the player who is scored against there.
#[derive(Clone, Copy, Debug, PartialEq, Eq, Structural)]
pub enum GoalFor {
    Player1,
    Player2,
}

/// A goal zone: as wide as `GOAL_WIDTH`, as high as the arena, centred at
/// `(x, y)`.
#[derive(Clone, Copy, Debug)]
pub struct Goal {
    pub goal_for: GoalFor,
    pub x: i64,
    pub y: i64,
}

/// The two players' points.
#[derive(Clone, Copy, Debug)]
pub struct Score {
    pub player1_score: u32,
    pub player2_score: u32,
}

impl Default for Score {
    fn default() -> (r: Score)
        ensures
            r.player1_score == 0,
            r.player2_score == 0,
    {
        Score { player1_score: 0, player2_score: 0 }
    }
}

pub open spec fn goal_in_range(g: Goal) -> bool {
    abs(g.x as int) <= COORD_LIMIT && abs(g.y as int) <= COORD_LIMIT
}

pub open spec fn goals_in_range(gs: Seq<Goal>) -> bool {
    forall|i: int| 0 <= i < gs.len() ==> goal_in_range(#[trigger] gs[i])
}

/// Neither count is at the largest value its type holds.
pub open spec fn score_can_grow(s: Score) -> bool {
    s.player1_score < u32::MAX && s.player2_score < u32::MAX
}

/// The count of player `p` can take one more point.
pub open spec fn can_score(s: Score, p: GoalFor) -> bool {
    match p {
        GoalFor::Player1 => s.player1_score < u32::MAX,
        GoalFor::Player2 => s.player2_score < u32::MAX,
    }
}

/// The player who scores when the ball enters the goal of `g`.
pub open spec fn scorer(g: GoalFor) -> GoalFor {
    match g {
        GoalFor::Player1 => GoalFor::Player2,
        GoalFor::Player2 => GoalFor::Player1,
    }
}

/// The score after one point for `p`.
pub open spec fn scored(s: Score, p: GoalFor) -> Score {
    match p {
        GoalFor::Player1 => Score { player1_score: (s.player1_score + 1) as u32, ..s },
        GoalFor::Player2 => Score { player2_score: (s.player2_score + 1) as u32, ..s },
    }
}

/// The ball overlaps the goal zone.
pub open spec fn in_goal(b: Ball, g: Goal) -> bool {
    ball_overlaps(b.x as int, b.y as int, g.x as int, g.y as int, GOAL_WIDTH as int, ARENA_HEIGHT as int)
}

/// The first goal, from index `k` on, that the ball overlaps.
pub open spec fn first_goal(b: Ball, gs: Seq<Goal>, k: int) -> Option<int>
    decreases gs.len() - k,
{
    if k < 0 || k >= gs.len() {
        None
    } else if in_goal(b, gs[k]) {
        Some(k)
    } else {
        first_goal(b, gs, k + 1)
    }
}

/// Who scores this tick, if anyone: the opponent of the owner of the first
/// goal that the ball overlaps.
pub open spec fn goal_scored(b: Ball, gs: Seq<Goal>) -> Option<GoalFor> {
    match first_goal(b, gs, 0) {
        Some(i) => Some(scorer(gs[i].goal_for)),
        None => None,
    }
}

/// Whether the ball overlaps the goal zone.
pub fn check_collision(ball: &Ball, goal: &Goal) -> (r: bool)
    requires
        abs(ball.x as int) <= 6 * COORD_LIMIT,
        abs(ball.y as int) <= 6 * COORD_LIMIT,
        goal_in_range(*goal),
    ensures
        r == in_goal(*ball, *goal),
{
    ball_overlaps_rect(ball.x, ball.y, goal.x, goal.y, GOAL_WIDTH, ARENA_HEIGHT)
}

/// Gives a point to `scoring_player` and returns that player's new count.
pub fn update_player_score(score: &mut Score, scoring_player: GoalFor) -> (r: u32)
    requires
        can_score(*old(score), scoring_player),
    ensures
        *final(score) == scored(*old(score), scoring_player),
        r == match scoring_player {
            GoalFor::Player1 => final(score).player1_score,
            GoalFor::Player2 => final(score).player2_score,
        },
{
    match scoring_player {
        GoalFor::Player1 => {
            score.player1_score = score.player1_score + 1;
            score.player1_score
        },
        GoalFor::Player2 => {
            score.player2_score = score.player2_score + 1;
            score.player2_score
        },
    }
}

fn first_goal_hit(ball: &Ball, goals: &Vec<Goal>) -> (r: Option<usize>)
    requires
        abs(ball.x as int) <= 6 * COORD_LIMIT,
        abs(ball.y as int) <= 6 * COORD_LIMIT,
        goals_in_range(goals@),
    ensures
        match r {
            Some(i) => i < goals@.len() && first_goal(*ball, goals@, 0) == Some(i as int),
            None => first_goal(*ball, goals@, 0) is None,
        },
{
    let mut i: usize = 0;
    while i < goals.len()
        invariant
            0 <= i <= goals.len(),
            goals_in_range(goals@),
            abs(ball.x as int) <= 6 * COORD_LIMIT,
            abs(ball.y as int) <= 6 * COORD_LIMIT,
            first_goal(*ball, goals@, 0) == first_goal(*ball, goals@, i as int),
        decreases goals.len() - i,
    {
        if check_collision(ball, &goals[i]) {
            return Some(i);
        }
        i += 1;
    }
    None
}

/// Looks for the first goal that the ball overlaps. If there is one, its
/// owner's opponent gets one point, and the ball is replaced by a newly
/// served one; the scorer is returned. Otherwise nothing changes.
pub fn check_goal_collision(
    ball: &mut Ball,
    goals: &Vec<Goal>,
    last_owner: &mut LastOwner,
    score: &mut Score,
) -> (r: Option<GoalFor>)
    requires
        abs(old(ball).x as int) <= 6 * COORD_LIMIT,
        abs(old(ball).y as int) <= 6 * COORD_LIMIT,
        goals_in_range(goals@),
        match goal_scored(*old(ball), goals@) {
            Some(p) => can_score(*old(score), p),
            None => true,
        },
    ensures
        r == goal_scored(*old(ball), goals@),
        match r {
            Some(p) => {
                &&& *final(score) == scored(*old(score), p)
                &&& *final(ball) == spawned_ball(old(last_owner).owner)
                &&& final(last_owner).owner == opponent(old(last_owner).owner)
            },
            None => {
                &&& *final(score) == *old(score)
                &&& *final(ball) == *old(ball)
                &&& *final(last_owner) == *old(last_owner)
            },
        },
{
    match first_goal_hit(ball, goals) {
        Some(i) => {
            let scoring_player = match goals[i].goal_for {
                GoalFor::Player1 => GoalFor::Player2,
                GoalFor::Player2 => GoalFor::Player1,
            };
            update_player_score(score, scoring_player);
            *ball = spawn_ball(last_owner);
            Some(scoring_player)
        },
        None => None,
    }
}

} // verus!
