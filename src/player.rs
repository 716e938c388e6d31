use vstd::prelude::*;

use crate::arena::{abs, COORD_LIMIT, SPEED_LIMIT};

verus! {

/// The speed of a paddle, in units per second.
pub const PLAYER_SPEED: i64 = 300;

/// Highest centre line a paddle may reach: half the arena's height less
/// half the paddle's.
pub const PADDLE_MAX_Y: i64 = 270_000;

/// Lowest centre line a paddle may reach.
pub const PADDLE_MIN_Y: i64 = -270_000;

#[derive(Clone, Copy, Debug, PartialEq, Eq, Structural)]
pub enum PlayerType {
    Player1,
    Player2,
}

pub open spec fn opponent(p: PlayerType) -> PlayerType {
    match p {
        PlayerType::Player1 => PlayerType::Player2,
        PlayerType::Player2 => PlayerType::Player1,
    }
}

impl PlayerType {
    /// The other player.
    pub fn opponent(&self) -> (r: PlayerType)
        ensures
            r == opponent(*self),
    {
        match self {
            PlayerType::Player1 => PlayerType::Player2,
            PlayerType::Player2 => PlayerType::Player1,
        }
    }
}

/// A player's paddle: where it stands, how fast it moves and its vertical
/// velocity over the last tick.
#[derive(Clone, Copy, Debug)]
pub struct Paddle {
    pub speed: i64,
    pub player_type: PlayerType,
    pub y_velocity: i64,
    pub x: i64,
    pub y: i64,
}

/// The paddle's numbers are small enough for a tick's arithmetic, and its
/// speed is even, so that the push it gives a ball (half its speed) is whole.
pub open spec fn paddle_in_range(p: Paddle) -> bool {
    &&& abs(p.x as int) <= COORD_LIMIT
    &&& abs(p.y as int) <= COORD_LIMIT
    &&& 0 <= p.speed <= SPEED_LIMIT
    &&& p.speed % 2 == 0
    &&& abs(p.y_velocity as int) <= SPEED_LIMIT
}

/// The direction that a pair of held keys asks for: up, down, or neither.
pub open spec fn direction(up: bool, down: bool) -> int {
    (if up { 1int } else { 0int }) - (if down { 1int } else { 0int })
}

pub open spec fn clamp_y(y: int) -> int {
    if y < PADDLE_MIN_Y {
        PADDLE_MIN_Y as int
    } else if y > PADDLE_MAX_Y {
        PADDLE_MAX_Y as int
    } else {
        y
    }
}

/// The paddle after one tick of `elapsed_ms` with the given keys held.
pub open spec fn moved_paddle(p: Paddle, up: bool, down: bool, elapsed_ms: u32) -> Paddle {
    let y_delta = direction(up, down) * p.speed * elapsed_ms;
    Paddle {
        y: clamp_y(p.y + y_delta) as i64,
        y_velocity: if elapsed_ms == 0 || direction(up, down) == 0 {
            0
        } else if direction(up, down) > 0 {
            p.speed
        } else {
            (-p.speed) as i64
        },
        ..p
    }
}

impl Paddle {
    pub open spec fn new_spec(player: PlayerType, x: i64, y: i64) -> Paddle {
        Paddle { speed: PLAYER_SPEED, player_type: player, y_velocity: 0, x, y }
    }

    /// A resting paddle of `player` centred at `(x, y)`, moving at the
    /// standard speed.
    pub fn new(player: PlayerType, x: i64, y: i64) -> (r: Paddle)
        ensures
            r == Paddle::new_spec(player, x, y),
    {
        Paddle { speed: PLAYER_SPEED, player_type: player, y_velocity: 0, x, y }
    }
}

/// Moves a paddle for one tick: up adds `speed * elapsed`, down takes it
/// away, the result is clamped to the arena, and the vertical velocity is the
/// displacement asked for over the elapsed time (zero when no time passed).
pub fn move_paddle(paddle: &mut Paddle, up: bool, down: bool, elapsed_ms: u32)
    requires
        paddle_in_range(*old(paddle)),
    ensures
        *final(paddle) == moved_paddle(*old(paddle), up, down, elapsed_ms),
        paddle_in_range(*final(paddle)),
        PADDLE_MIN_Y <= final(paddle).y <= PADDLE_MAX_Y,
{
    let dir: i64 = if up && !down {
        1
    } else if down && !up {
        -1
    } else {
        0
    };
    let speed = paddle.speed;
    proof {
        assert(0 <= speed * (elapsed_ms as int) <= SPEED_LIMIT * 4_294_967_295int)
            by (nonlinear_arith)
            requires
                0 <= speed <= SPEED_LIMIT,
                0 <= elapsed_ms <= 4_294_967_295int,
        ;
    }
    let step: i64 = speed * (elapsed_ms as i64);
    let y_delta: i64 = if dir == 1 {
        step
    } else if dir == -1 {
        -step
    } else {
        0
    };
    let new_y: i64 = paddle.y + y_delta;
    paddle.y = if new_y < PADDLE_MIN_Y {
        PADDLE_MIN_Y
    } else if new_y > PADDLE_MAX_Y {
        PADDLE_MAX_Y
    } else {
        new_y
    };
    paddle.y_velocity = if elapsed_ms == 0 {
        0
    } else {
        if dir == 1 {
            speed
        } else if dir == -1 {
            -speed
        } else {
            0
        }
    };
    proof {
        assert(y_delta == direction(up, down) * speed * elapsed_ms) by (nonlinear_arith)
            requires
                dir == direction(up, down),
                y_delta == if dir == 1 { step as int } else if dir == -1 { -step } else { 0 },
                -1 <= dir <= 1,
                step == speed * elapsed_ms,
        ;
    }
}

} // verus!
