use vstd::prelude::*;

use crate::arena::{
    abs, ball_overlaps, ball_overlaps_rect, COORD_LIMIT, PADDLE_HEIGHT, PADDLE_WIDTH, SPEED_LIMIT,
};
use crate::player::{opponent, paddle_in_range, Paddle, PlayerType};

verus! {

/// Horizontal speed of a newly served ball, in units per second.
pub const INITIAL_BALL_SPEED: i64 = 200;

/// Horizontal speed gained at each paddle bounce, in units per second.
pub const SPEED_INCREMENT: i64 = 50;

/// Horizontal distance from a paddle's centre to a ball docked on it.
pub const DOCK_OFFSET_X: i64 = 10_000;

/// Vertical distance from a paddle's centre to a ball docked on it.
pub const DOCK_OFFSET_Y: i64 = 2_000;

/// Where a new ball waits until the first tick docks it on a paddle.
pub const OFFSCREEN: i64 = -1_000_000;

/// Highest centre line of a ball inside the arena: half the arena's height
/// less half the ball's size.
pub const BALL_MAX_Y: i64 = 295_000;

/// Lowest centre line of a ball inside the arena.
pub const BALL_MIN_Y: i64 = -295_000;

/// The ball: where it is, its velocity, whether it has been launched, and
/// the player it was served toward.
#[derive(Clone, Copy, Debug)]
pub struct Ball {
    pub x: i64,
    pub y: i64,
    pub velocity_x: i64,
    pub velocity_y: i64,
    pub fired: bool,
    pub owner: PlayerType,
}

/// Which player the next served ball docks on.
#[derive(Clone, Copy, Debug)]
pub struct LastOwner {
    pub owner: PlayerType,
}

/// Sounds that one tick of the ball asks for.
#[derive(Clone, Copy, Debug)]
pub struct BallEvents {
    /// The ball met the top or the bottom wall.
    pub hit: bool,
    /// The ball bounced off a paddle.
    pub bounce: bool,
}

/// The ball's numbers are small enough for a tick's arithmetic.
pub open spec fn ball_in_range(b: Ball) -> bool {
    &&& abs(b.x as int) <= COORD_LIMIT
    &&& abs(b.y as int) <= COORD_LIMIT
    &&& abs(b.velocity_x as int) <= SPEED_LIMIT
    &&& abs(b.velocity_y as int) <= SPEED_LIMIT
}

pub open spec fn paddles_in_range(ps: Seq<Paddle>) -> bool {
    forall|i: int| 0 <= i < ps.len() ==> paddle_in_range(#[trigger] ps[i])
}

/// The ball served when `last` was the last owner.
pub open spec fn spawned_ball(last: PlayerType) -> Ball {
    Ball {
        x: OFFSCREEN,
        y: OFFSCREEN,
        velocity_x: INITIAL_BALL_SPEED,
        velocity_y: 0,
        fired: false,
        owner: opponent(last),
    }
}

/// Where a ball docked on paddle `p` rests: just in front of its face.
pub open spec fn dock_x(p: Paddle) -> i64 {
    match p.player_type {
        PlayerType::Player1 => (p.x + DOCK_OFFSET_X) as i64,
        PlayerType::Player2 => (p.x - DOCK_OFFSET_X) as i64,
    }
}

pub open spec fn dock_y(p: Paddle) -> i64 {
    match p.player_type {
        PlayerType::Player1 => (p.y + DOCK_OFFSET_Y) as i64,
        PlayerType::Player2 => (p.y - DOCK_OFFSET_Y) as i64,
    }
}

/// The last of the first `k` paddles that belongs to `owner`.
pub open spec fn last_match(ps: Seq<Paddle>, owner: PlayerType, k: int) -> Option<int>
    decreases k,
{
    if k <= 0 {
        None
    } else if ps[k - 1].player_type == owner {
        Some(k - 1)
    } else {
        last_match(ps, owner, k - 1)
    }
}

/// A ball that has not been launched rests on the paddle of `owner`.
pub open spec fn docked_ball(b: Ball, ps: Seq<Paddle>, owner: PlayerType) -> Ball {
    match last_match(ps, owner, ps.len() as int) {
        Some(j) => Ball { x: dock_x(ps[j]), y: dock_y(ps[j]), ..b },
        None => b,
    }
}

/// The ball after moving with its velocity for `elapsed_ms`.
pub open spec fn integrated(b: Ball, elapsed_ms: u32) -> Ball {
    Ball {
        x: (b.x + b.velocity_x * elapsed_ms) as i64,
        y: (b.y + b.velocity_y * elapsed_ms) as i64,
        ..b
    }
}

pub open spec fn hits_top(b: Ball) -> bool {
    b.y > BALL_MAX_Y
}

pub open spec fn hits_bottom(b: Ball) -> bool {
    b.y < BALL_MIN_Y
}

/// A ball past a wall is put back on it, its vertical velocity reversed.
pub open spec fn wall_reflected(b: Ball) -> Ball {
    if hits_top(b) {
        Ball { y: BALL_MAX_Y, velocity_y: (-b.velocity_y) as i64, ..b }
    } else if hits_bottom(b) {
        Ball { y: BALL_MIN_Y, velocity_y: (-b.velocity_y) as i64, ..b }
    } else {
        b
    }
}

/// The ball overlaps the paddle.
pub open spec fn collides(b: Ball, p: Paddle) -> bool {
    ball_overlaps(b.x as int, b.y as int, p.x as int, p.y as int, PADDLE_WIDTH as int, PADDLE_HEIGHT as int)
}

/// The first paddle, from index `k` on, that the ball overlaps.
pub open spec fn first_collision(b: Ball, ps: Seq<Paddle>, k: int) -> Option<int>
    decreases ps.len() - k,
{
    if k < 0 || k >= ps.len() {
        None
    } else if collides(b, ps[k]) {
        Some(k)
    } else {
        first_collision(b, ps, k + 1)
    }
}

/// The vertical push that a paddle gives: half its speed, in the direction
/// it is moving, and none when it rests.
pub open spec fn paddle_push(p: Paddle) -> int {
    if p.y_velocity > 0 {
        p.speed / 2
    } else if p.y_velocity < 0 {
        -(p.speed / 2)
    } else {
        0
    }
}

/// The ball after bouncing off paddle `p`: it leaves the paddle, toward the
/// centre, with its horizontal speed grown by `SPEED_INCREMENT`, and its
/// vertical velocity pushed by the paddle.
pub open spec fn bounced(b: Ball, p: Paddle) -> Ball {
    let speed = abs(b.velocity_x as int) + SPEED_INCREMENT;
    let vx = match p.player_type {
        PlayerType::Player1 => speed,
        PlayerType::Player2 => -speed,
    };
    Ball { velocity_x: vx as i64, velocity_y: (b.velocity_y + paddle_push(p)) as i64, ..b }
}

/// The ball after its walls step, before any paddle is looked at.
pub open spec fn wall_stepped(b: Ball, elapsed_ms: u32) -> Ball {
    wall_reflected(integrated(b, elapsed_ms))
}

/// One tick of a launched ball: move, reflect off a wall, then bounce off the
/// first paddle it overlaps.
pub open spec fn flown_ball(b: Ball, ps: Seq<Paddle>, elapsed_ms: u32) -> Ball {
    let w = wall_stepped(b, elapsed_ms);
    match first_collision(w, ps, 0) {
        Some(i) => bounced(w, ps[i]),
        None => w,
    }
}

/// One tick of the ball, whether docked or in flight.
pub open spec fn moved_ball(b: Ball, ps: Seq<Paddle>, owner: PlayerType, elapsed_ms: u32) -> Ball {
    if b.fired {
        flown_ball(b, ps, elapsed_ms)
    } else {
        docked_ball(b, ps, owner)
    }
}

pub open spec fn ball_events(b: Ball, ps: Seq<Paddle>, elapsed_ms: u32) -> BallEvents {
    let i = integrated(b, elapsed_ms);
    BallEvents {
        hit: b.fired && (hits_top(i) || hits_bottom(i)),
        bounce: b.fired && first_collision(wall_stepped(b, elapsed_ms), ps, 0) is Some,
    }
}

/// Launches the ball.
pub fn fire_ball(ball: &mut Ball)
    ensures
        *final(ball) == (Ball { fired: true, ..*old(ball) }),
{
    ball.fired = true;
}

/// Serves a new ball: it waits off screen, unlaunched, moving at the initial
/// speed, served toward the opponent of the last owner, who becomes the last
/// owner in turn.
pub fn spawn_ball(last_owner: &mut LastOwner) -> (r: Ball)
    ensures
        r == spawned_ball(old(last_owner).owner),
        final(last_owner).owner == opponent(old(last_owner).owner),
{
    let next = last_owner.owner.opponent();
    let ball = Ball {
        x: OFFSCREEN,
        y: OFFSCREEN,
        velocity_x: INITIAL_BALL_SPEED,
        velocity_y: 0,
        fired: false,
        owner: next,
    };
    last_owner.owner = next;
    ball
}

/// Whether the ball overlaps the paddle.
pub fn check_paddle_collision(ball: &Ball, paddle: &Paddle) -> (r: bool)
    requires
        abs(ball.x as int) <= 6 * COORD_LIMIT,
        abs(ball.y as int) <= 6 * COORD_LIMIT,
        paddle_in_range(*paddle),
    ensures
        r == collides(*ball, *paddle),
{
    ball_overlaps_rect(ball.x, ball.y, paddle.x, paddle.y, PADDLE_WIDTH, PADDLE_HEIGHT)
}

/// Gives the ball the paddle's vertical push.
pub fn bounce_ball(ball: &mut Ball, paddle: &Paddle)
    requires
        abs(old(ball).velocity_y as int) <= 2 * SPEED_LIMIT,
        paddle_in_range(*paddle),
    ensures
        *final(ball) == (Ball {
            velocity_y: (old(ball).velocity_y + paddle_push(*paddle)) as i64,
            ..*old(ball)
        }),
{
    let adjustment: i64 = paddle.speed / 2;
    if paddle.y_velocity > 0 {
        ball.velocity_y = ball.velocity_y + adjustment;
    } else if paddle.y_velocity < 0 {
        ball.velocity_y = ball.velocity_y - adjustment;
    }
}

/// The index of the first paddle that the ball overlaps, if any.
fn first_paddle_hit(ball: &Ball, paddles: &Vec<Paddle>) -> (r: Option<usize>)
    requires
        abs(ball.x as int) <= 6 * COORD_LIMIT,
        abs(ball.y as int) <= 6 * COORD_LIMIT,
        paddles_in_range(paddles@),
    ensures
        match r {
            Some(i) => i < paddles@.len() && first_collision(*ball, paddles@, 0) == Some(i as int),
            None => first_collision(*ball, paddles@, 0) is None,
        },
{
    let mut i: usize = 0;
    while i < paddles.len()
        invariant
            0 <= i <= paddles.len(),
            paddles_in_range(paddles@),
            abs(ball.x as int) <= 6 * COORD_LIMIT,
            abs(ball.y as int) <= 6 * COORD_LIMIT,
            first_collision(*ball, paddles@, 0) == first_collision(*ball, paddles@, i as int),
        decreases paddles.len() - i,
    {
        if check_paddle_collision(ball, &paddles[i]) {
            return Some(i);
        }
        i += 1;
    }
    None
}

/// Advances the ball by one tick. An unlaunched ball rests on the paddle of
/// `owner`. A launched one moves with its velocity for `elapsed_ms`, is put
/// back on a wall that it went past with its vertical velocity reversed, and
/// bounces off the first paddle that it overlaps. Returns the sounds asked for.
pub fn move_ball(ball: &mut Ball, paddles: &Vec<Paddle>, owner: PlayerType, elapsed_ms: u32) -> (ev: BallEvents)
    requires
        ball_in_range(*old(ball)),
        paddles_in_range(paddles@),
    ensures
        *final(ball) == moved_ball(*old(ball), paddles@, owner, elapsed_ms),
        ev == ball_events(*old(ball), paddles@, elapsed_ms),
        abs(final(ball).x as int) <= 6 * COORD_LIMIT,
        abs(final(ball).y as int) <= 6 * COORD_LIMIT,
{
    if !ball.fired {
        let mut i: usize = 0;
        while i < paddles.len()
            invariant
                0 <= i <= paddles.len(),
                paddles_in_range(paddles@),
                abs(ball.x as int) <= 2 * COORD_LIMIT,
                abs(ball.y as int) <= 2 * COORD_LIMIT,
                *ball == match last_match(paddles@, owner, i as int) {
                    Some(j) => Ball { x: dock_x(paddles@[j]), y: dock_y(paddles@[j]), ..*old(ball) },
                    None => *old(ball),
                },
            decreases paddles.len() - i,
        {
            let paddle = &paddles[i];
            if paddle.player_type == owner {
                match paddle.player_type {
                    PlayerType::Player1 => {
                        ball.x = paddle.x + DOCK_OFFSET_X;
                        ball.y = paddle.y + DOCK_OFFSET_Y;
                    },
                    PlayerType::Player2 => {
                        ball.x = paddle.x - DOCK_OFFSET_X;
                        ball.y = paddle.y - DOCK_OFFSET_Y;
                    },
                }
            }
            i += 1;
        }
        return BallEvents { hit: false, bounce: false };
    }
    let dt: i64 = elapsed_ms as i64;
    proof {
        assert(abs(ball.velocity_x * dt) <= SPEED_LIMIT * 4_294_967_295int) by (nonlinear_arith)
            requires
                abs(ball.velocity_x as int) <= SPEED_LIMIT,
                0 <= dt <= 4_294_967_295int,
        ;
        assert(abs(ball.velocity_y * dt) <= SPEED_LIMIT * 4_294_967_295int) by (nonlinear_arith)
            requires
                abs(ball.velocity_y as int) <= SPEED_LIMIT,
                0 <= dt <= 4_294_967_295int,
        ;
    }
    ball.x = ball.x + ball.velocity_x * dt;
    ball.y = ball.y + ball.velocity_y * dt;
    let mut hit = false;
    if ball.y > BALL_MAX_Y {
        hit = true;
        ball.y = BALL_MAX_Y;
        ball.velocity_y = -ball.velocity_y;
    } else if ball.y < BALL_MIN_Y {
        hit = true;
        ball.y = BALL_MIN_Y;
        ball.velocity_y = -ball.velocity_y;
    }
    let mut bounce = false;
    match first_paddle_hit(ball, paddles) {
        Some(i) => {
            let paddle = &paddles[i];
            let speed: i64 = if ball.velocity_x < 0 {
                -ball.velocity_x
            } else {
                ball.velocity_x
            } + SPEED_INCREMENT;
            match paddle.player_type {
                PlayerType::Player1 => {
                    ball.velocity_x = speed;
                },
                PlayerType::Player2 => {
                    ball.velocity_x = -speed;
                },
            }
            bounce_ball(ball, paddle);
            bounce = true;
        },
        None => {},
    }
    BallEvents { hit, bounce }
}

} // verus!
