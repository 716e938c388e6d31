use pong::ball::{
    check_paddle_collision, fire_ball, move_ball, spawn_ball, Ball, LastOwner,
};
use pong::game::{Game, TickInput};
use pong::player::{move_paddle, Paddle, PlayerType, PADDLE_MAX_Y, PADDLE_MIN_Y};
use pong::score::{check_collision, update_player_score, Goal, GoalFor, Score};

fn no_keys() -> TickInput {
    TickInput {
        player1_up: false,
        player1_down: false,
        player2_up: false,
        player2_down: false,
        player1_launch: false,
        player2_launch: false,
    }
}

fn flying_ball(x: i64, y: i64, vx: i64, vy: i64) -> Ball {
    Ball { x, y, velocity_x: vx, velocity_y: vy, fired: true, owner: PlayerType::Player2 }
}

#[test]
fn paddle_clamped_at_top_after_repeated_moves_up() {
    let mut p = Paddle::new(PlayerType::Player1, -300_000, 0);
    for _ in 0..10 {
        move_paddle(&mut p, true, false, 1000);
        assert!(p.y <= PADDLE_MAX_Y);
    }
    assert_eq!(p.y, 270_000);
    assert_eq!(p.y_velocity, 300);
}

#[test]
fn paddle_clamped_at_bottom_after_repeated_moves_down() {
    let mut p = Paddle::new(PlayerType::Player2, 300_000, 0);
    for _ in 0..10 {
        move_paddle(&mut p, false, true, 1000);
        assert!(p.y >= PADDLE_MIN_Y);
    }
    assert_eq!(p.y, -270_000);
    assert_eq!(p.y_velocity, -300);
}

#[test]
fn paddle_far_outside_is_brought_back() {
    let mut p = Paddle::new(PlayerType::Player1, -300_000, 5_000_000);
    move_paddle(&mut p, false, false, 16);
    assert_eq!(p.y, 270_000);
    assert_eq!(p.y_velocity, 0);
}

#[test]
fn paddle_moves_by_speed_times_elapsed() {
    let mut p = Paddle::new(PlayerType::Player1, -300_000, 0);
    move_paddle(&mut p, true, false, 100);
    assert_eq!(p.y, 30_000);
    assert_eq!(p.y_velocity, 300);
}

#[test]
fn paddle_with_both_keys_stays() {
    let mut p = Paddle::new(PlayerType::Player1, -300_000, 1_000);
    move_paddle(&mut p, true, true, 100);
    assert_eq!(p.y, 1_000);
    assert_eq!(p.y_velocity, 0);
}

#[test]
fn paddle_velocity_zero_when_no_time_passes() {
    let mut p = Paddle::new(PlayerType::Player2, 300_000, 0);
    move_paddle(&mut p, true, false, 0);
    assert_eq!(p.y, 0);
    assert_eq!(p.y_velocity, 0);
}

#[test]
fn docked_ball_follows_player1_paddle() {
    let mut game = Game::new();
    game.last_owner.owner = PlayerType::Player1;
    let input = TickInput { player1_up: true, ..no_keys() };
    for _ in 0..3 {
        game.tick(&input, 100);
        assert_eq!(game.ball.x, game.paddles[0].x + 10_000);
        assert_eq!(game.ball.y, game.paddles[0].y + 2_000);
    }
    assert_eq!(game.paddles[0].y, 90_000);
    assert!(!game.ball.fired);
}

#[test]
fn docked_ball_follows_player2_paddle() {
    let mut game = Game::new();
    assert_eq!(game.last_owner.owner, PlayerType::Player2);
    let input = TickInput { player2_down: true, ..no_keys() };
    for _ in 0..3 {
        game.tick(&input, 100);
        assert_eq!(game.ball.x, game.paddles[1].x - 10_000);
        assert_eq!(game.ball.y, game.paddles[1].y - 2_000);
    }
    assert_eq!(game.ball.x, 290_000);
    assert_eq!(game.ball.y, -92_000);
}

#[test]
fn end_to_end_launch_flight_and_paddle_bounce() {
    let mut game = Game::new();
    game.last_owner.owner = PlayerType::Player1;
    game.tick(&no_keys(), 16);
    assert_eq!((game.ball.x, game.ball.y), (-290_000, 2_000));

    game.tick(&TickInput { player1_launch: true, ..no_keys() }, 0);
    assert!(game.ball.fired);
    assert_eq!((game.ball.velocity_x, game.ball.velocity_y), (200, 0));
    assert_eq!((game.ball.x, game.ball.y), (-290_000, 2_000));

    let ev = game.tick(&no_keys(), 1000);
    assert_eq!((game.ball.x, game.ball.y), (-90_000, 2_000));
    assert!(!ev.bounce && !ev.hit && ev.scored.is_none());

    let ev = game.tick(&no_keys(), 1905);
    assert_eq!(game.ball.x, 291_000);
    assert!(ev.bounce);
    assert_eq!((game.ball.velocity_x, game.ball.velocity_y), (-250, 0));
}

#[test]
fn goal_scores_for_opponent_and_serves_again() {
    let mut game = Game::new();
    game.last_owner.owner = PlayerType::Player1;
    game.ball = flying_ball(-600_000, 0, -200, 0);
    let ev = game.tick(&no_keys(), 16);
    assert_eq!(ev.scored, Some(GoalFor::Player2));
    assert_eq!(game.score.player1_score, 0);
    assert_eq!(game.score.player2_score, 1);
    assert!(!game.ball.fired);
    assert_eq!((game.ball.velocity_x, game.ball.velocity_y), (200, 0));
    assert_eq!(game.ball.owner, PlayerType::Player2);
    assert_eq!(game.last_owner.owner, PlayerType::Player2);

    let ev = game.tick(&no_keys(), 16);
    assert_eq!(ev.scored, None);
    assert_eq!((game.ball.x, game.ball.y), (290_000, -2_000));
}

#[test]
fn goal_on_the_right_scores_for_player1() {
    let mut game = Game::new();
    game.ball = flying_ball(560_000, 100_000, 300, 0);
    let ev = game.tick(&no_keys(), 10);
    assert_eq!(ev.scored, Some(GoalFor::Player1));
    assert_eq!(game.score.player1_score, 1);
    assert_eq!(game.score.player2_score, 0);
}

#[test]
fn ball_at_top_wall_moving_up_is_reflected() {
    let mut game = Game::new();
    game.ball = flying_ball(0, 295_000, 0, 100);
    let ev = game.tick(&no_keys(), 10);
    assert!(ev.hit);
    assert_eq!(game.ball.y, 295_000);
    assert_eq!(game.ball.velocity_y, -100);
}

#[test]
fn ball_past_bottom_wall_is_put_back() {
    let mut game = Game::new();
    game.ball = flying_ball(0, -294_000, 0, -300);
    let ev = game.tick(&no_keys(), 10);
    assert!(ev.hit);
    assert_eq!(game.ball.y, -295_000);
    assert_eq!(game.ball.velocity_y, 300);
}

#[test]
fn ball_overlapping_both_goals_scores_once() {
    let mut game = Game::new();
    game.goals = vec![
        Goal { goal_for: GoalFor::Player1, x: 0, y: 0 },
        Goal { goal_for: GoalFor::Player2, x: 0, y: 0 },
    ];
    game.ball = flying_ball(0, 0, 0, 0);
    let ev = game.tick(&no_keys(), 10);
    assert_eq!(ev.scored, Some(GoalFor::Player2));
    assert_eq!(game.score.player1_score + game.score.player2_score, 1);
    assert_eq!(game.score.player2_score, 1);
}

#[test]
fn serves_alternate_between_players() {
    let mut last = LastOwner { owner: PlayerType::Player1 };
    let owners: Vec<PlayerType> = (0..5).map(|_| spawn_ball(&mut last).owner).collect();
    assert_eq!(
        owners,
        vec![
            PlayerType::Player2,
            PlayerType::Player1,
            PlayerType::Player2,
            PlayerType::Player1,
            PlayerType::Player2,
        ]
    );
}

#[test]
fn spawned_ball_waits_off_screen() {
    let mut last = LastOwner { owner: PlayerType::Player2 };
    let b = spawn_ball(&mut last);
    assert_eq!((b.x, b.y), (-1_000_000, -1_000_000));
    assert_eq!((b.velocity_x, b.velocity_y), (200, 0));
    assert!(!b.fired);
    assert_eq!(b.owner, PlayerType::Player1);
    assert_eq!(last.owner, PlayerType::Player1);
}

#[test]
fn moving_paddle_pushes_ball_vertically() {
    let paddles = vec![Paddle { y_velocity: 300, ..Paddle::new(PlayerType::Player1, -300_000, 0) }];
    let mut ball = flying_ball(-292_000, 0, -100, 10);
    let ev = move_ball(&mut ball, &paddles, PlayerType::Player1, 0);
    assert!(ev.bounce);
    assert_eq!(ball.velocity_x, 150);
    assert_eq!(ball.velocity_y, 160);

    let paddles = vec![Paddle { y_velocity: -300, ..Paddle::new(PlayerType::Player2, 300_000, 0) }];
    let mut ball = flying_ball(292_000, 0, 100, 10);
    move_ball(&mut ball, &paddles, PlayerType::Player1, 0);
    assert_eq!(ball.velocity_x, -150);
    assert_eq!(ball.velocity_y, -140);
}

#[test]
fn only_the_first_overlapping_paddle_bounces() {
    let paddles = vec![
        Paddle::new(PlayerType::Player1, 0, 0),
        Paddle::new(PlayerType::Player2, 0, 0),
    ];
    let mut ball = flying_ball(0, 0, -100, 0);
    move_ball(&mut ball, &paddles, PlayerType::Player1, 0);
    assert_eq!(ball.velocity_x, 150);
}

#[test]
fn touching_edges_do_not_overlap() {
    let paddle = Paddle::new(PlayerType::Player2, 300_000, 0);
    assert!(!check_paddle_collision(&flying_ball(290_000, 0, 0, 0), &paddle));
    assert!(check_paddle_collision(&flying_ball(290_001, 0, 0, 0), &paddle));
    assert!(!check_paddle_collision(&flying_ball(300_000, 35_000, 0, 0), &paddle));
    assert!(check_paddle_collision(&flying_ball(300_000, 34_999, 0, 0), &paddle));

    let goal = Goal { goal_for: GoalFor::Player1, x: -600_000, y: 0 };
    assert!(!check_collision(&flying_ball(-545_000, 0, 0, 0), &goal));
    assert!(check_collision(&flying_ball(-545_001, 0, 0, 0), &goal));
}

#[test]
fn fire_ball_launches_only() {
    let mut b = Ball { fired: false, ..flying_ball(1, 2, 3, 4) };
    fire_ball(&mut b);
    assert!(b.fired);
    assert_eq!((b.x, b.y, b.velocity_x, b.velocity_y), (1, 2, 3, 4));
}

#[test]
fn score_counts_and_reports_points() {
    let mut s = Score::default();
    assert_eq!((s.player1_score, s.player2_score), (0, 0));
    assert_eq!(update_player_score(&mut s, GoalFor::Player1), 1);
    assert_eq!(update_player_score(&mut s, GoalFor::Player1), 2);
    assert_eq!(update_player_score(&mut s, GoalFor::Player2), 1);
    assert_eq!((s.player1_score, s.player2_score), (2, 1));
}

#[test]
fn new_game_starts_as_described() {
    let game = Game::new();
    assert_eq!(game.paddles.len(), 2);
    assert_eq!((game.paddles[0].x, game.paddles[0].y), (-300_000, 0));
    assert_eq!((game.paddles[1].x, game.paddles[1].y), (300_000, 0));
    assert_eq!(game.paddles[0].speed, 300);
    assert_eq!(game.ball.owner, PlayerType::Player2);
    assert_eq!(game.goals[0].x, -600_000);
    assert_eq!(game.goals[1].x, 600_000);
    assert!(game.within_limits());
}

#[test]
fn limits_reject_runaway_velocity() {
    let mut game = Game::new();
    game.ball.velocity_x = 2_000_000_000;
    assert!(!game.within_limits());
    let mut game = Game::new();
    game.score.player1_score = u32::MAX;
    assert!(!game.within_limits());
}

#[test]
fn opponent_swaps_players() {
    assert_eq!(PlayerType::Player1.opponent(), PlayerType::Player2);
    assert_eq!(PlayerType::Player2.opponent(), PlayerType::Player1);
}

#[test]
fn only_the_holder_can_launch() {
    let mut game = Game::new();
    assert_eq!(game.last_owner.owner, PlayerType::Player2);
    game.tick(&TickInput { player1_launch: true, ..no_keys() }, 16);
    assert!(!game.ball.fired);
    game.tick(&TickInput { player2_launch: true, ..no_keys() }, 16);
    assert!(game.ball.fired);
}

#[test]
fn ball_moving_away_inside_paddle_still_speeds_up() {
    let mut game = Game::new();
    game.ball = flying_ball(-296_000, 0, 100, 0);
    let ev = game.tick(&no_keys(), 10);
    assert!(ev.bounce);
    assert_eq!(game.ball.x, -295_000);
    assert_eq!(game.ball.velocity_x, 150);

    let mut game = Game::new();
    game.ball = flying_ball(296_000, 0, -100, 0);
    let ev = game.tick(&no_keys(), 10);
    assert!(ev.bounce);
    assert_eq!(game.ball.velocity_x, -150);
}

#[test]
fn ball_stuck_in_paddle_keeps_heading_away() {
    let paddles = vec![Paddle::new(PlayerType::Player1, -300_000, 0)];
    let mut ball = flying_ball(-300_000, 0, -200, 0);
    move_ball(&mut ball, &paddles, PlayerType::Player1, 0);
    assert_eq!(ball.velocity_x, 250);
    move_ball(&mut ball, &paddles, PlayerType::Player1, 0);
    assert_eq!(ball.velocity_x, 300);
}

#[test]
fn limits_reject_odd_paddle_speed() {
    let mut game = Game::new();
    game.paddles[0].speed = 301;
    assert!(!game.within_limits());
}
