use vstd::prelude::*;

use crate::arena::{abs, SPEED_LIMIT};
use crate::ball::{
    ball_events, ball_in_range, collides, first_collision,
    last_match, moved_ball, paddles_in_range, spawned_ball, wall_stepped, Ball, BALL_MAX_Y,
    DOCK_OFFSET_X, DOCK_OFFSET_Y, SPEED_INCREMENT,
};
use crate::game::{ball_after_move, game_in_range, launch_of, moved_paddles, well_formed, Game, TickInput};
use crate::player::{moved_paddle, opponent, paddle_in_range, Paddle, PlayerType, PADDLE_MAX_Y, PADDLE_MIN_Y};
use crate::score::{first_goal, goal_scored, in_goal, score_can_grow, scored, Goal, Score};

verus! {

/// The paddle after `n` ticks with the same keys held.
pub open spec fn moved_repeatedly(p: Paddle, up: bool, down: bool, elapsed_ms: u32, n: nat) -> Paddle
    decreases n,
{
    if n == 0 {
        p
    } else {
        moved_paddle(moved_repeatedly(p, up, down, elapsed_ms, (n - 1) as nat), up, down, elapsed_ms)
    }
}

/// Wherever a paddle starts, and however many ticks it is driven up (or
/// down, or both), after at least one tick its centre lies between
/// `PADDLE_MIN_Y` and `PADDLE_MAX_Y`.
pub proof fn paddle_stays_in_arena(p: Paddle, up: bool, down: bool, elapsed_ms: u32, n: nat)
    requires
        n >= 1,
    ensures
        PADDLE_MIN_Y <= moved_repeatedly(p, up, down, elapsed_ms, n).y <= PADDLE_MAX_Y,
{
}

/// In a well-formed match, a ball that its holder does not launch this tick
/// rests, after the tick's movement, in front of the moved paddle of the last
/// owner:
/// ten units toward the centre and two units up from Player1's paddle, ten
/// units toward the centre and two units down from Player2's.
pub proof fn docked_ball_follows_owner(g: Game, input: TickInput, elapsed_ms: u32)
    requires
        well_formed(g),
        game_in_range(g),
        !g.ball.fired,
        !launch_of(input, g.last_owner.owner),
    ensures
        ({
            let ps = moved_paddles(g.paddles@, input, elapsed_ms);
            let b = ball_after_move(g, input, elapsed_ms);
            match g.last_owner.owner {
                PlayerType::Player1 => b.x == ps[0].x + DOCK_OFFSET_X && b.y == ps[0].y
                    + DOCK_OFFSET_Y,
                PlayerType::Player2 => b.x == ps[1].x - DOCK_OFFSET_X && b.y == ps[1].y
                    - DOCK_OFFSET_Y,
            }
        }),
{
    reveal_with_fuel(last_match, 3);
    let ps = moved_paddles(g.paddles@, input, elapsed_ms);
    assert(ps[0].player_type == PlayerType::Player1);
    assert(ps[1].player_type == PlayerType::Player2);
    assert(paddle_in_range(g.paddles@[0]));
    assert(paddle_in_range(g.paddles@[1]));
}

/// What `first_collision` finds: the lowest index from `k` on of a paddle
/// that the ball overlaps.
pub proof fn lemma_first_collision(b: Ball, ps: Seq<Paddle>, k: int)
    requires
        0 <= k,
    ensures
        match first_collision(b, ps, k) {
            Some(i) => k <= i < ps.len() && collides(b, ps[i]) && forall|j: int|
                k <= j < i ==> !collides(b, #[trigger] ps[j]),
            None => forall|j: int| k <= j < ps.len() ==> !collides(b, #[trigger] ps[j]),
        },
    decreases ps.len() - k,
{
    if k < ps.len() && !collides(b, ps[k]) {
        lemma_first_collision(b, ps, k + 1);
    }
}

/// What `first_goal` finds: the lowest index from `k` on of a goal that the
/// ball overlaps.
pub proof fn lemma_first_goal(b: Ball, gs: Seq<Goal>, k: int)
    requires
        0 <= k,
    ensures
        match first_goal(b, gs, k) {
            Some(i) => k <= i < gs.len() && in_goal(b, gs[i]) && forall|j: int|
                k <= j < i ==> !in_goal(b, #[trigger] gs[j]),
            None => forall|j: int| k <= j < gs.len() ==> !in_goal(b, #[trigger] gs[j]),
        },
    decreases gs.len() - k,
{
    if k < gs.len() && !in_goal(b, gs[k]) {
        lemma_first_goal(b, gs, k + 1);
    }
}

/// A launched ball that bounces off a paddle leaves it, toward the centre,
/// with its horizontal speed grown by exactly `SPEED_INCREMENT`. Its vertical
/// velocity is left as it was when the paddle rests, and changed when the
/// paddle moves at a speed above zero.
pub proof fn bounce_speeds_up(b: Ball, ps: Seq<Paddle>, owner: PlayerType, elapsed_ms: u32, i: int)
    requires
        ball_in_range(b),
        paddles_in_range(ps),
        b.fired,
        first_collision(wall_stepped(b, elapsed_ms), ps, 0) == Some(i),
    ensures
        ({
            let r = moved_ball(b, ps, owner, elapsed_ms);
            let w = wall_stepped(b, elapsed_ms);
            &&& abs(r.velocity_x as int) == abs(b.velocity_x as int) + SPEED_INCREMENT
            &&& ps[i].player_type == PlayerType::Player1 ==> r.velocity_x > 0
            &&& ps[i].player_type == PlayerType::Player2 ==> r.velocity_x < 0
            &&& ps[i].y_velocity == 0 ==> r.velocity_y == w.velocity_y
            &&& ps[i].y_velocity != 0 && ps[i].speed > 0 ==> r.velocity_y != w.velocity_y
            &&& ps[i].y_velocity > 0 ==> r.velocity_y == w.velocity_y + ps[i].speed / 2
            &&& ps[i].y_velocity < 0 ==> r.velocity_y == w.velocity_y - ps[i].speed / 2
            &&& ball_events(b, ps, elapsed_ms).bounce
        }),
{
    lemma_first_collision(wall_stepped(b, elapsed_ms), ps, 0);
    assert(paddle_in_range(ps[i]));
}

/// A launched ball that sits exactly on the top wall and moves up is, after
/// a tick of some time, still on the top wall, with a wall hit signalled; its
/// vertical velocity is reversed unless a paddle then pushes it.
pub proof fn top_wall_reflects(b: Ball, ps: Seq<Paddle>, owner: PlayerType, elapsed_ms: u32)
    requires
        ball_in_range(b),
        b.fired,
        b.y == BALL_MAX_Y,
        b.velocity_y > 0,
        elapsed_ms > 0,
    ensures
        moved_ball(b, ps, owner, elapsed_ms).y == BALL_MAX_Y,
        ball_events(b, ps, elapsed_ms).hit,
        first_collision(wall_stepped(b, elapsed_ms), ps, 0) is None ==> moved_ball(
            b,
            ps,
            owner,
            elapsed_ms,
        ).velocity_y == -b.velocity_y,
{
    assert(1 <= b.velocity_y * elapsed_ms <= SPEED_LIMIT * 4_294_967_295int) by (nonlinear_arith)
        requires
            1 <= b.velocity_y <= SPEED_LIMIT,
            1 <= elapsed_ms <= 4_294_967_295int,
    ;
}

/// In one tick a ball scores for at most one player: someone scores exactly
/// when the ball overlaps some goal, and then the two counts together grow by
/// one, one of them left as it was.
pub proof fn one_goal_per_tick(b: Ball, gs: Seq<Goal>, s: Score)
    requires
        score_can_grow(s),
    ensures
        (goal_scored(b, gs) is Some) == (exists|i: int| 0 <= i < gs.len() && in_goal(b, #[trigger] gs[i])),
        match goal_scored(b, gs) {
            Some(p) => {
                let t = scored(s, p);
                &&& t.player1_score + t.player2_score == s.player1_score + s.player2_score + 1
                &&& t.player1_score == s.player1_score || t.player2_score == s.player2_score
            },
            None => true,
        },
{
    lemma_first_goal(b, gs, 0);
    match first_goal(b, gs, 0) {
        Some(i) => {
            assert(in_goal(b, gs[i]));
        },
        None => {},
    }
}

/// The last owner after `n` serves that started from `start`.
pub open spec fn owner_after_serves(start: PlayerType, n: nat) -> PlayerType
    decreases n,
{
    if n == 0 {
        start
    } else {
        opponent(owner_after_serves(start, (n - 1) as nat))
    }
}

/// Starting with Player1 as the last owner, the serves go toward Player2,
/// Player1, Player2, and so on: serve `k` (from zero) goes toward Player2
/// when `k` is even and toward Player1 when it is odd.
pub proof fn serves_alternate(k: nat)
    ensures
        spawned_ball(owner_after_serves(PlayerType::Player1, k)).owner == if k % 2 == 0 {
            PlayerType::Player2
        } else {
            PlayerType::Player1
        },
    decreases k,
{
    if k > 0 {
        serves_alternate((k - 1) as nat);
    }
}

} // verus!
