use vstd::prelude::*;

use crate::arena::{COORD_LIMIT, SPEED_LIMIT};
use crate::ball::{
    ball_events, ball_in_range, fire_ball, move_ball, moved_ball, paddles_in_range, spawn_ball,
    spawned_ball, Ball, LastOwner,
};
use crate::player::{
    move_paddle, moved_paddle, opponent, paddle_in_range, Paddle, PlayerType, PADDLE_MAX_Y,
    PADDLE_MIN_Y,
};
use crate::score::{
    check_goal_collision, goal_in_range, goal_scored, goals_in_range, score_can_grow, scored, Goal,
    GoalFor, Score,
};

verus! {

/// Where each paddle stands at the start of a match.
pub const PADDLE_START_X: i64 = 300_000;

/// Where each goal zone is centred: beyond the arena's side edges.
pub const GOAL_CENTRE_X: i64 = 600_000;

/// The keys held during one tick.
#[derive(Clone, Copy, Debug)]
pub struct TickInput {
    pub player1_up: bool,
    pub player1_down: bool,
    pub player2_up: bool,
    pub player2_down: bool,
    pub player1_launch: bool,
    pub player2_launch: bool,
}

/// What one tick asks the surroundings to show or play.
#[derive(Clone, Copy, Debug)]
pub struct TickEvents {
    /// The ball met the top or the bottom wall.
    pub hit: bool,
    /// The ball bounced off a paddle.
    pub bounce: bool,
    /// The player who scored; the ball was then replaced by a new one.
    pub scored: Option<GoalFor>,
}

/// The whole state of a match.
pub struct Game {
    pub paddles: Vec<Paddle>,
    pub ball: Ball,
    pub last_owner: LastOwner,
    pub goals: Vec<Goal>,
    pub score: Score,
}

/// The up and down keys of player `p`.
pub open spec fn keys_of(input: TickInput, p: PlayerType) -> (bool, bool) {
    match p {
        PlayerType::Player1 => (input.player1_up, input.player1_down),
        PlayerType::Player2 => (input.player2_up, input.player2_down),
    }
}

/// Every paddle after one tick of its own player's keys.
pub open spec fn moved_paddles(ps: Seq<Paddle>, input: TickInput, elapsed_ms: u32) -> Seq<Paddle> {
    Seq::new(
        ps.len(),
        |i: int|
            moved_paddle(
                ps[i],
                keys_of(input, ps[i].player_type).0,
                keys_of(input, ps[i].player_type).1,
                elapsed_ms,
            ),
    )
}

/// The launch key of player `p`.
pub open spec fn launch_of(input: TickInput, p: PlayerType) -> bool {
    match p {
        PlayerType::Player1 => input.player1_launch,
        PlayerType::Player2 => input.player2_launch,
    }
}

/// The ball, launched if the player who holds it presses the launch key.
pub open spec fn launched(b: Ball, input: TickInput, holder: PlayerType) -> Ball {
    if launch_of(input, holder) { Ball { fired: true, ..b } } else { b }
}

/// The numbers of a match are small enough for a tick's arithmetic.
pub open spec fn game_in_range(g: Game) -> bool {
    &&& ball_in_range(g.ball)
    &&& paddles_in_range(g.paddles@)
    &&& goals_in_range(g.goals@)
    &&& score_can_grow(g.score)
}

/// A match has Player1's paddle then Player2's, each inside the arena.
pub open spec fn well_formed(g: Game) -> bool {
    &&& g.paddles@.len() == 2
    &&& g.paddles@[0].player_type == PlayerType::Player1
    &&& g.paddles@[1].player_type == PlayerType::Player2
    &&& forall|i: int|
        0 <= i < 2 ==> PADDLE_MIN_Y <= (#[trigger] g.paddles@[i]).y <= PADDLE_MAX_Y
}

/// The ball of a tick once the paddles and the ball have moved, before any
/// goal is looked at.
pub open spec fn ball_after_move(g: Game, input: TickInput, elapsed_ms: u32) -> Ball {
    moved_ball(
        launched(g.ball, input, g.last_owner.owner),
        moved_paddles(g.paddles@, input, elapsed_ms),
        g.last_owner.owner,
        elapsed_ms,
    )
}

impl Game {
    /// A match at its start: both paddles centred on their side, no points,
    /// and a first ball served with Player1 as the last owner.
    pub fn new() -> (r: Game)
        ensures
            r.paddles@ == seq![
                Paddle::new_spec(PlayerType::Player1, (-PADDLE_START_X) as i64, 0),
                Paddle::new_spec(PlayerType::Player2, PADDLE_START_X, 0),
            ],
            r.goals@ == seq![
                Goal { goal_for: GoalFor::Player1, x: (-GOAL_CENTRE_X) as i64, y: 0 },
                Goal { goal_for: GoalFor::Player2, x: GOAL_CENTRE_X, y: 0 },
            ],
            r.ball == spawned_ball(PlayerType::Player1),
            r.last_owner.owner == PlayerType::Player2,
            r.score.player1_score == 0,
            r.score.player2_score == 0,
            well_formed(r),
            game_in_range(r),
    {
        let mut paddles: Vec<Paddle> = Vec::new();
        paddles.push(Paddle::new(PlayerType::Player1, -PADDLE_START_X, 0));
        paddles.push(Paddle::new(PlayerType::Player2, PADDLE_START_X, 0));
        let mut goals: Vec<Goal> = Vec::new();
        goals.push(Goal { goal_for: GoalFor::Player1, x: -GOAL_CENTRE_X, y: 0 });
        goals.push(Goal { goal_for: GoalFor::Player2, x: GOAL_CENTRE_X, y: 0 });
        let mut last_owner = LastOwner { owner: PlayerType::Player1 };
        let ball = spawn_ball(&mut last_owner);
        let score = Score { player1_score: 0, player2_score: 0 };
        let r = Game { paddles, ball, last_owner, goals, score };
        assert(r.paddles@ == seq![
            Paddle::new_spec(PlayerType::Player1, (-PADDLE_START_X) as i64, 0),
            Paddle::new_spec(PlayerType::Player2, PADDLE_START_X, 0),
        ]);
        r
    }

    /// Whether every number of the match is small enough for `tick`.
    pub fn within_limits(&self) -> (r: bool)
        ensures
            r == game_in_range(*self),
    {
        let b = &self.ball;
        if !(-COORD_LIMIT <= b.x && b.x <= COORD_LIMIT && -COORD_LIMIT <= b.y && b.y <= COORD_LIMIT
            && -SPEED_LIMIT <= b.velocity_x && b.velocity_x <= SPEED_LIMIT && -SPEED_LIMIT
            <= b.velocity_y && b.velocity_y <= SPEED_LIMIT) {
            return false;
        }
        if !(self.score.player1_score < u32::MAX && self.score.player2_score < u32::MAX) {
            return false;
        }
        let mut i: usize = 0;
        while i < self.paddles.len()
            invariant
                0 <= i <= self.paddles.len(),
                forall|j: int| 0 <= j < i ==> paddle_in_range(#[trigger] self.paddles@[j]),
            decreases self.paddles.len() - i,
        {
            let p = &self.paddles[i];
            if !(-COORD_LIMIT <= p.x && p.x <= COORD_LIMIT && -COORD_LIMIT <= p.y && p.y
                <= COORD_LIMIT && 0 <= p.speed && p.speed <= SPEED_LIMIT && p.speed % 2 == 0
                && -SPEED_LIMIT
                <= p.y_velocity && p.y_velocity <= SPEED_LIMIT) {
                return false;
            }
            i += 1;
        }
        let mut k: usize = 0;
        while k < self.goals.len()
            invariant
                0 <= k <= self.goals.len(),
                forall|j: int| 0 <= j < k ==> goal_in_range(#[trigger] self.goals@[j]),
            decreases self.goals.len() - k,
        {
            let g = &self.goals[k];
            if !(-COORD_LIMIT <= g.x && g.x <= COORD_LIMIT && -COORD_LIMIT <= g.y && g.y
                <= COORD_LIMIT) {
                return false;
            }
            k += 1;
        }
        true
    }

    /// The input phase of a tick: the launch key of the player who holds the
    /// ball (the last owner) launches it, and each
    /// paddle moves by its own player's keys.
    pub fn player_movement(&mut self, input: &TickInput, elapsed_ms: u32)
        requires
            paddles_in_range(old(self).paddles@),
        ensures
            final(self).paddles@ == moved_paddles(old(self).paddles@, *input, elapsed_ms),
            final(self).ball == launched(old(self).ball, *input, old(self).last_owner.owner),
            final(self).goals@ == old(self).goals@,
            final(self).last_owner == old(self).last_owner,
            final(self).score == old(self).score,
            paddles_in_range(final(self).paddles@),
    {
        let launch = match self.last_owner.owner {
            PlayerType::Player1 => input.player1_launch,
            PlayerType::Player2 => input.player2_launch,
        };
        if launch {
            fire_ball(&mut self.ball);
        }
        let n = self.paddles.len();
        let mut i: usize = 0;
        while i < n
            invariant
                0 <= i <= n,
                n == self.paddles@.len(),
                n == old(self).paddles@.len(),
                paddles_in_range(old(self).paddles@),
                forall|j: int|
                    0 <= j < i ==> self.paddles@[j] == #[trigger] moved_paddles(
                        old(self).paddles@,
                        *input,
                        elapsed_ms,
                    )[j],
                forall|j: int| i <= j < n ==> self.paddles@[j] == old(self).paddles@[j],
                forall|j: int| 0 <= j < i ==> paddle_in_range(#[trigger] self.paddles@[j]),
                self.ball == launched(old(self).ball, *input, old(self).last_owner.owner),
                self.goals@ == old(self).goals@,
                self.last_owner == old(self).last_owner,
                self.score == old(self).score,
            decreases n - i,
        {
            let (up, down) = match self.paddles[i].player_type {
                PlayerType::Player1 => (input.player1_up, input.player1_down),
                PlayerType::Player2 => (input.player2_up, input.player2_down),
            };
            move_paddle(&mut self.paddles[i], up, down, elapsed_ms);
            i += 1;
        }
        assert(self.paddles@ =~= moved_paddles(old(self).paddles@, *input, elapsed_ms));
    }

    /// One tick of the match, in order: paddles, ball, goals.
    pub fn tick(&mut self, input: &TickInput, elapsed_ms: u32) -> (ev: TickEvents)
        requires
            game_in_range(*old(self)),
        ensures
            final(self).paddles@ == moved_paddles(old(self).paddles@, *input, elapsed_ms),
            final(self).goals@ == old(self).goals@,
            ev.hit == ball_events(
                launched(old(self).ball, *input, old(self).last_owner.owner),
                final(self).paddles@,
                elapsed_ms,
            ).hit,
            ev.bounce == ball_events(
                launched(old(self).ball, *input, old(self).last_owner.owner),
                final(self).paddles@,
                elapsed_ms,
            ).bounce,
            ev.scored == goal_scored(ball_after_move(*old(self), *input, elapsed_ms), old(self).goals@),
            match ev.scored {
                Some(p) => {
                    &&& final(self).score == scored(old(self).score, p)
                    &&& final(self).ball == spawned_ball(old(self).last_owner.owner)
                    &&& final(self).last_owner.owner == opponent(old(self).last_owner.owner)
                },
                None => {
                    &&& final(self).score == old(self).score
                    &&& final(self).ball == ball_after_move(*old(self), *input, elapsed_ms)
                    &&& final(self).last_owner == old(self).last_owner
                },
            },
            well_formed(*old(self)) ==> well_formed(*final(self)),
    {
        self.player_movement(input, elapsed_ms);
        let owner = self.last_owner.owner;
        let moved = move_ball(&mut self.ball, &self.paddles, owner, elapsed_ms);
        let scored = check_goal_collision(
            &mut self.ball,
            &self.goals,
            &mut self.last_owner,
            &mut self.score,
        );
        TickEvents { hit: moved.hit, bounce: moved.bounce, scored }
    }
}

} // verus!
