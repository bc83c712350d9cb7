use pong::entity::{Entity, Kind};
use pong::rules::Frame;
use pong::vector::Vec2;
use pong::world::{SpawnError, World};
use pong::{
    BALL_SPEED, BALL_WIDTH, GUTTER_HEIGHT, PADDLE_HEIGHT, PADDLE_INSET, PADDLE_SPEED,
    PADDLE_WIDTH, STEPS,
};

/// The vector that is `(x, y)` in units.
fn units(x: i64, y: i64) -> Vec2 {
    Vec2::new(STEPS * x, STEPS * y)
}

fn entity(world: &World, id: usize) -> Entity {
    match world.entity(id) {
        Some(e) => e,
        None => panic!("no entity {}", id),
    }
}

fn frame(up: bool, down: bool, window_height: u32) -> Frame {
    Frame { up, down, window_height }
}

fn ball_at(position: Vec2, velocity: Vec2) -> Entity {
    let mut ball = Entity::ball(velocity.x, velocity.y);
    ball.position = position;
    ball
}

fn obstacle(position: Vec2, shape: Vec2) -> Entity {
    let mut gutter = Entity::gutter(position.x, position.y, shape.x);
    gutter.shape = shape;
    gutter
}

#[test]
fn constants_have_their_values() {
    assert_eq!(STEPS, 2);
    assert_eq!(BALL_WIDTH, 10);
    assert_eq!(BALL_SPEED, 5);
    assert_eq!(PADDLE_SPEED, 1);
    assert_eq!(PADDLE_WIDTH, 10);
    assert_eq!(PADDLE_HEIGHT, 50);
    assert_eq!(GUTTER_HEIGHT, 20);
    assert_eq!(PADDLE_INSET, 50);
}

#[test]
fn entity_constructors_fill_every_field() {
    let ball = Entity::ball(2, 0);
    assert_eq!(ball.kind, Kind::Ball);
    assert!(!ball.player);
    assert_eq!(ball.position, units(0, 0));
    assert_eq!(ball.shape, units(10, 10));
    assert_eq!(ball.velocity, units(1, 0));

    let paddle = Entity::paddle(700, -7);
    assert_eq!(paddle.kind, Kind::Paddle);
    assert!(!paddle.player);
    assert_eq!(paddle.position, Vec2::new(700, -7));
    assert_eq!(paddle.shape, units(10, 50));
    assert_eq!(paddle.velocity, units(0, 0));

    let gutter = Entity::gutter(0, 580, 1600);
    assert_eq!(gutter.kind, Kind::Gutter);
    assert!(!gutter.player);
    assert_eq!(gutter.position, units(0, 290));
    assert_eq!(gutter.shape, units(800, 20));
    assert_eq!(gutter.velocity, units(0, 0));

    let player = paddle.tagged();
    assert!(player.player);
    assert_eq!(Entity { player: false, ..player }, paddle);
}

#[test]
fn constructed_entities_are_well_formed() {
    assert!(Entity::ball(2, 0).is_wf());
    assert!(Entity::ball(-1, i64::MAX).is_wf());
    assert!(Entity::paddle(1, 2).is_wf());
    assert!(Entity::paddle(1, 2).tagged().is_wf());
    assert!(Entity::gutter(1, 2, 3).is_wf());
    assert!(obstacle(units(0, 0), units(100, 100)).is_wf());
}

#[test]
fn entities_that_break_a_rule_are_not_well_formed() {
    // A ball moves sideways, and its velocity has a negation.
    assert!(!Entity::ball(0, 1).is_wf());
    assert!(!Entity::ball(i64::MIN, 0).is_wf());
    assert!(!Entity::ball(1, i64::MIN).is_wf());
    // Only a paddle carries the player's tag.
    assert!(!Entity::ball(1, 0).tagged().is_wf());
    assert!(!Entity::gutter(0, 0, 10).tagged().is_wf());
    // A paddle has no sideways velocity and at most the paddle speed.
    let mut paddle = Entity::paddle(0, 0).tagged();
    paddle.velocity = Vec2::new(1, 0);
    assert!(!paddle.is_wf());
    paddle.velocity = Vec2::new(0, 3);
    assert!(!paddle.is_wf());
    paddle.velocity = Vec2::new(0, -3);
    assert!(!paddle.is_wf());
    paddle.velocity = Vec2::new(0, -2);
    assert!(paddle.is_wf());
    paddle.velocity = Vec2::new(0, 1);
    assert!(paddle.is_wf());
    // A paddle that nobody steers rests, and so does a gutter.
    paddle.player = false;
    assert!(!paddle.is_wf());
    let mut gutter = Entity::gutter(0, 0, 10);
    gutter.velocity = Vec2::new(0, 1);
    assert!(!gutter.is_wf());
    gutter.velocity = Vec2::new(1, 0);
    assert!(!gutter.is_wf());
}

#[test]
fn new_world_is_empty() {
    let world = World::new();
    assert_eq!(world.len(), 0);
    assert_eq!(world.ball(), None);
    assert_eq!(world.player(), None);
    assert_eq!(world.entity(0), None);
    assert!(world.ball_can_move());
    assert!(world.project_positions().is_empty());
}

#[test]
fn opening_world_places_entities_from_the_window() {
    let world = World::with_arena(800, 600);
    assert_eq!(world.len(), 5);
    assert_eq!(world.ball(), Some(0));
    assert_eq!(world.player(), Some(1));
    assert_eq!(entity(&world, 0), Entity::ball(2, 0));
    assert_eq!(entity(&world, 1), Entity::paddle(700, 0).tagged());
    assert_eq!(entity(&world, 2), Entity::paddle(-700, 0));
    assert_eq!(entity(&world, 3), Entity::gutter(0, 580, 1600));
    assert_eq!(entity(&world, 4), Entity::gutter(0, -580, 1600));
    assert_eq!(world.entity(5), None);
    // In units: paddles 50 from each side, gutters 10 from top and bottom.
    assert_eq!(entity(&world, 1).position, units(350, 0));
    assert_eq!(entity(&world, 2).position, units(-350, 0));
    assert_eq!(entity(&world, 3).position, units(0, 290));
    assert_eq!(entity(&world, 4).position, units(0, -290));
    assert_eq!(entity(&world, 3).shape, units(800, 20));
}

#[test]
fn odd_window_sizes_are_placed_to_the_half_unit() {
    let world = World::with_arena(801, 601);
    // 400.5 - 50 = 350.5 and 300.5 - 10 = 290.5 units.
    assert_eq!(entity(&world, 1).position, Vec2::new(701, 0));
    assert_eq!(entity(&world, 2).position, Vec2::new(-701, 0));
    assert_eq!(entity(&world, 3).position, Vec2::new(0, 581));
    assert_eq!(entity(&world, 4).position, Vec2::new(0, -581));
    assert_eq!(entity(&world, 3).shape, units(801, 20));
    assert_eq!(entity(&world, 4).shape, units(801, 20));
    // The top gutter's upper edge lies on the window's, at 300.5 units.
    let top = entity(&world, 3);
    assert_eq!(2 * top.position.y + top.shape.y, 2 * 601);
    let bottom = entity(&world, 4);
    assert_eq!(2 * bottom.position.y - bottom.shape.y, -2 * 601);
}

#[test]
fn window_of_no_size_still_gives_a_world() {
    let world = World::with_arena(0, 0);
    assert_eq!(entity(&world, 1).position, units(-50, 0));
    assert_eq!(entity(&world, 2).position, units(50, 0));
    assert_eq!(entity(&world, 3).position, units(0, -10));
    assert_eq!(entity(&world, 4).position, units(0, 10));
    assert_eq!(entity(&world, 3).shape, units(0, 20));
}

#[test]
fn widest_window_is_placed_without_loss() {
    let world = World::with_arena(u32::MAX, u32::MAX);
    assert_eq!(entity(&world, 1).position, Vec2::new(4294967295 - 100, 0));
    assert_eq!(entity(&world, 3).position, Vec2::new(0, 4294967295 - 20));
    assert_eq!(entity(&world, 3).shape, Vec2::new(2 * 4294967295, 40));
}

#[test]
fn second_ball_is_rejected() {
    let mut world = World::new();
    assert_eq!(world.spawn_ball(), Ok(0));
    assert_eq!(world.spawn_ball(), Err(SpawnError::BallExists));
    assert_eq!(world.spawn(Entity::ball(4, 6)), Err(SpawnError::BallExists));
    assert_eq!(world.len(), 1);
    assert_eq!(entity(&world, 0).velocity, units(1, 0));
}

#[test]
fn second_player_is_rejected() {
    let mut world = World::new();
    assert_eq!(world.spawn(Entity::paddle(10, 0).tagged()), Ok(0));
    assert_eq!(
        world.spawn(Entity::paddle(20, 0).tagged()),
        Err(SpawnError::PlayerExists)
    );
    assert_eq!(world.spawn(Entity::paddle(30, 0)), Ok(1));
    assert_eq!(world.spawn_paddles(800), Err(SpawnError::PlayerExists));
    assert_eq!(world.len(), 2);
    assert_eq!(world.player(), Some(0));
}

#[test]
fn spawn_keeps_the_entity_as_it_was_given() {
    let mut world = World::new();
    let ball = ball_at(Vec2::new(7, -3), Vec2::new(1, -1));
    let block = obstacle(Vec2::new(1, 2), Vec2::new(200, 200));
    assert_eq!(world.spawn(block), Ok(0));
    assert_eq!(world.spawn(ball), Ok(1));
    assert_eq!(entity(&world, 0), block);
    assert_eq!(entity(&world, 1), ball);
    assert_eq!(world.ball(), Some(1));
}

#[test]
fn spawn_paddles_adds_the_player_first() {
    let mut world = World::new();
    assert_eq!(world.spawn_paddles(800), Ok((0, 1)));
    assert!(entity(&world, 0).player);
    assert_eq!(entity(&world, 0).position, units(350, 0));
    assert!(!entity(&world, 1).player);
    assert_eq!(entity(&world, 1).position, units(-350, 0));
    assert_eq!(entity(&world, 0).shape, units(10, 50));
    assert_eq!(entity(&world, 1).velocity, units(0, 0));
}

#[test]
fn spawn_gutters_adds_the_top_one_first() {
    let mut world = World::new();
    assert_eq!(world.spawn(Entity::gutter(1, 2, 3)), Ok(0));
    assert_eq!(world.spawn_gutters(800, 600), (1, 2));
    assert_eq!(entity(&world, 0), Entity::gutter(1, 2, 3));
    assert_eq!(entity(&world, 1), Entity::gutter(0, 580, 1600));
    assert_eq!(entity(&world, 2), Entity::gutter(0, -580, 1600));
}

#[test]
fn up_alone_sets_the_paddle_speed() {
    let mut world = World::with_arena(800, 600);
    world.handle_player_input(true, false);
    assert_eq!(entity(&world, 1).velocity, units(0, 1));
}

#[test]
fn down_alone_sets_the_negated_paddle_speed() {
    let mut world = World::with_arena(800, 600);
    world.handle_player_input(false, true);
    assert_eq!(entity(&world, 1).velocity, units(0, -1));
}

#[test]
fn no_key_stops_the_paddle_at_once() {
    let mut world = World::with_arena(800, 600);
    world.handle_player_input(true, false);
    world.handle_player_input(false, false);
    assert_eq!(entity(&world, 1).velocity, units(0, 0));
    world.handle_player_input(false, true);
    world.handle_player_input(false, false);
    assert_eq!(entity(&world, 1).velocity, units(0, 0));
}

#[test]
fn up_wins_over_down() {
    let mut world = World::with_arena(800, 600);
    world.handle_player_input(true, true);
    assert_eq!(entity(&world, 1).velocity, units(0, 1));
}

#[test]
fn keys_do_not_depend_on_the_velocity_before() {
    for &(up, down) in [(true, false), (false, true), (false, false), (true, true)].iter() {
        let mut world = World::with_arena(800, 600);
        world.handle_player_input(up, down);
        world.handle_player_input(false, true);
        assert_eq!(entity(&world, 1).velocity, units(0, -1));
        world.handle_player_input(true, false);
        assert_eq!(entity(&world, 1).velocity, units(0, 1));
    }
    // A paddle that came in at half the speed is steered like any other.
    let mut slow = Entity::paddle(0, 0).tagged();
    slow.velocity = Vec2::new(0, -1);
    let mut world = World::new();
    assert_eq!(world.spawn(slow), Ok(0));
    world.handle_player_input(true, false);
    assert_eq!(entity(&world, 0).velocity, units(0, 1));
}

#[test]
fn keys_leave_everyone_else_alone() {
    let mut world = World::with_arena(800, 600);
    let before: Vec<Entity> = (0..5).map(|id| entity(&world, id)).collect();
    world.handle_player_input(true, false);
    for id in [0usize, 2, 3, 4] {
        assert_eq!(entity(&world, id), before[id]);
    }
    assert_eq!(entity(&world, 1).position, before[1].position);
}

#[test]
fn keys_in_a_world_without_player_change_nothing() {
    let mut world = World::new();
    assert_eq!(world.spawn_ball(), Ok(0));
    assert_eq!(world.spawn(Entity::paddle(5, 5)), Ok(1));
    world.handle_player_input(true, false);
    assert_eq!(entity(&world, 0), Entity::ball(2, 0));
    assert_eq!(entity(&world, 1), Entity::paddle(5, 5));
}

#[test]
fn ball_moves_five_units_per_tick() {
    let mut world = World::new();
    assert_eq!(world.spawn_ball(), Ok(0));
    assert!(world.ball_can_move());
    world.move_ball();
    assert_eq!(entity(&world, 0).position, units(5, 0));
    assert_eq!(entity(&world, 0).velocity, units(1, 0));
    world.move_ball();
    assert_eq!(entity(&world, 0).position, units(10, 0));
}

#[test]
fn ball_moves_along_both_axes() {
    let mut world = World::new();
    assert_eq!(world.spawn(Entity::ball(-4, 6)), Ok(0));
    world.move_ball();
    assert_eq!(entity(&world, 0).position, units(-10, 15));
}

#[test]
fn ball_at_half_a_unit_per_tick_moves_two_and_a_half() {
    let mut world = World::new();
    assert_eq!(world.spawn(ball_at(Vec2::new(3, 0), Vec2::new(1, -1))), Ok(0));
    world.move_ball();
    assert_eq!(entity(&world, 0).position, Vec2::new(8, -5));
}

#[test]
fn move_ball_writes_the_position_of_the_ball_only() {
    let mut world = World::with_arena(800, 600);
    world.handle_player_input(true, false);
    let before: Vec<Entity> = (0..5).map(|id| entity(&world, id)).collect();
    world.move_ball();
    for id in 1..5 {
        assert_eq!(entity(&world, id), before[id]);
    }
    let ball = entity(&world, 0);
    assert_eq!(ball.position, units(5, 0));
    assert_eq!(Entity { position: before[0].position, ..ball }, before[0]);
}

#[test]
fn move_ball_without_ball_changes_nothing() {
    let mut world = World::new();
    assert_eq!(world.spawn_paddles(800), Ok((0, 1)));
    assert!(world.ball_can_move());
    world.move_ball();
    assert_eq!(entity(&world, 0), Entity::paddle(700, 0).tagged());
    assert_eq!(entity(&world, 1), Entity::paddle(-700, 0));
}

#[test]
fn ball_at_the_end_of_the_lattice_stays() {
    let mut world = World::new();
    assert_eq!(world.spawn(Entity::ball(i64::MAX, 0)), Ok(0));
    assert!(!world.ball_can_move());
    world.move_ball();
    assert_eq!(entity(&world, 0), Entity::ball(i64::MAX, 0));

    let mut other = World::new();
    assert_eq!(other.spawn(Entity::ball(1, i64::MIN + 1)), Ok(0));
    assert!(!other.ball_can_move());
    other.move_ball();
    assert_eq!(entity(&other, 0), Entity::ball(1, i64::MIN + 1));
}

#[test]
fn ball_moves_up_to_the_end_of_the_lattice() {
    let mut world = World::new();
    let step = i64::MAX / 5;
    assert_eq!(world.spawn(Entity::ball(step, -step)), Ok(0));
    assert!(world.ball_can_move());
    world.move_ball();
    assert_eq!(entity(&world, 0).position, Vec2::new(step * 5, -step * 5));
    assert!(!world.ball_can_move());
    world.move_ball();
    assert_eq!(entity(&world, 0).position, Vec2::new(step * 5, -step * 5));
}

#[test]
fn paddle_takes_a_step_inside_its_lane() {
    let mut world = World::with_arena(800, 600);
    world.handle_player_input(true, false);
    world.move_paddles(600);
    assert_eq!(entity(&world, 1).position, units(350, 1));
    world.handle_player_input(false, true);
    world.move_paddles(600);
    world.move_paddles(600);
    assert_eq!(entity(&world, 1).position, units(350, -1));
}

#[test]
fn paddle_at_the_end_of_its_lane_stays_where_it_is() {
    // In a window 600 high, the lane is |y| < 300 - 20 - 25 = 255 units.
    let mut world = World::new();
    assert_eq!(world.spawn(Entity::paddle(700, 508).tagged()), Ok(0));
    world.handle_player_input(true, false);
    world.move_paddles(600);
    assert_eq!(entity(&world, 0).position, units(350, 254));
    world.move_paddles(600);
    assert_eq!(entity(&world, 0).position, units(350, 254));

    let mut low = World::new();
    assert_eq!(low.spawn(Entity::paddle(700, -508).tagged()), Ok(0));
    low.handle_player_input(false, true);
    low.move_paddles(600);
    assert_eq!(entity(&low, 0).position, units(350, -254));
    low.handle_player_input(true, false);
    low.move_paddles(600);
    assert_eq!(entity(&low, 0).position, units(350, -253));
}

#[test]
fn paddle_half_a_unit_from_the_end_of_its_lane() {
    // At 254.5 units a whole step up leads to 255.5: refused.
    let mut world = World::new();
    assert_eq!(world.spawn(Entity::paddle(0, 509).tagged()), Ok(0));
    world.handle_player_input(true, false);
    world.move_paddles(600);
    assert_eq!(entity(&world, 0).position, Vec2::new(0, 509));
    // At 254 units half a step up leads to 254.5: taken. Another to 255: refused.
    let mut slow = Entity::paddle(0, 508).tagged();
    slow.velocity = Vec2::new(0, 1);
    let mut other = World::new();
    assert_eq!(other.spawn(slow), Ok(0));
    other.move_paddles(600);
    assert_eq!(entity(&other, 0).position, Vec2::new(0, 509));
    other.move_paddles(600);
    assert_eq!(entity(&other, 0).position, Vec2::new(0, 509));
}

#[test]
fn paddle_outside_its_lane_is_not_set_onto_its_end() {
    let mut world = World::new();
    assert_eq!(world.spawn(Entity::paddle(700, 800).tagged()), Ok(0));
    world.handle_player_input(false, true);
    world.move_paddles(600);
    assert_eq!(entity(&world, 0).position, units(350, 400));
}

#[test]
fn lane_of_an_odd_window_ends_half_a_unit_further() {
    // In a window 601 high, the lane is |y| < 255.5 units.
    let mut world = World::new();
    assert_eq!(world.spawn(Entity::paddle(0, 508).tagged()), Ok(0));
    world.handle_player_input(true, false);
    world.move_paddles(601);
    assert_eq!(entity(&world, 0).position, units(0, 255));
    world.move_paddles(601);
    assert_eq!(entity(&world, 0).position, units(0, 255));
}

#[test]
fn window_too_low_for_a_lane_holds_the_paddle() {
    let mut world = World::with_arena(800, 90);
    world.handle_player_input(true, false);
    world.move_paddles(90);
    assert_eq!(entity(&world, 1).position, units(350, 0));
    world.move_paddles(0);
    assert_eq!(entity(&world, 1).position, units(350, 0));
    world.move_paddles(92);
    assert_eq!(entity(&world, 1).position, units(350, 0));
    world.move_paddles(93);
    assert_eq!(entity(&world, 1).position, units(350, 1));
}

#[test]
fn lane_follows_the_window_of_the_moment() {
    let mut world = World::with_arena(800, 600);
    world.handle_player_input(true, false);
    world.move_paddles(600);
    world.move_paddles(600);
    assert_eq!(entity(&world, 1).position, units(350, 2));
    // The window shrinks; the gutters stay, the lane does not.
    world.move_paddles(94);
    assert_eq!(entity(&world, 1).position, units(350, 2));
    assert_eq!(entity(&world, 3).position, units(0, 290));
}

#[test]
fn every_paddle_is_integrated() {
    let mut world = World::with_arena(800, 600);
    world.handle_player_input(false, true);
    world.move_paddles(600);
    assert_eq!(entity(&world, 1).position, units(350, -1));
    assert_eq!(entity(&world, 2), Entity::paddle(-700, 0));
    assert_eq!(entity(&world, 0), Entity::ball(2, 0));
    assert_eq!(entity(&world, 3), Entity::gutter(0, 580, 1600));
}

#[test]
fn ball_from_the_left_is_turned_back() {
    let mut world = World::new();
    assert_eq!(world.spawn(Entity::ball(2, 4)), Ok(0));
    assert_eq!(world.spawn(Entity::paddle(26, 20)), Ok(1));
    // In units the ball's box spans x -5..5, the paddle's 8..18: apart.
    world.handle_collisions();
    assert_eq!(entity(&world, 0).velocity, units(1, 2));
    world.move_ball();
    // Ball at (5, 10): its box x 0..10 reaches 2 over the paddle's left edge.
    world.handle_collisions();
    assert_eq!(entity(&world, 0).position, units(5, 10));
    assert_eq!(entity(&world, 0).velocity, units(-1, 2));
    assert_eq!(entity(&world, 0).shape, units(10, 10));
    assert_eq!(entity(&world, 1), Entity::paddle(26, 20));
}

#[test]
fn ball_inside_a_box_keeps_its_velocity() {
    let mut world = World::new();
    assert_eq!(world.spawn(ball_at(units(3, -2), units(1, -1))), Ok(0));
    assert_eq!(world.spawn(obstacle(units(0, 0), units(100, 100))), Ok(1));
    world.handle_collisions();
    assert_eq!(entity(&world, 0).velocity, units(1, -1));
    assert_eq!(entity(&world, 0).position, units(3, -2));
    assert_eq!(entity(&world, 1), obstacle(units(0, 0), units(100, 100)));
}

#[test]
fn ball_off_the_grid_of_its_steps_collides_like_any_other() {
    // The ball stands at (-47.5, 3.5) units and reaches 2.5 over the left
    // edge of a box that spans x -45..45, y -45..45.
    let mut world = World::new();
    assert_eq!(world.spawn(obstacle(units(0, 0), units(90, 90))), Ok(0));
    assert_eq!(world.spawn(ball_at(Vec2::new(-95, 7), Vec2::new(3, 1))), Ok(1));
    world.handle_collisions();
    assert_eq!(entity(&world, 1).velocity, Vec2::new(-3, 1));
    assert_eq!(entity(&world, 1).position, Vec2::new(-95, 7));
}

#[test]
fn two_hits_in_one_tick_are_both_answered() {
    // The ball reaches over the left edge of two paddles at once: the
    // velocity is turned twice.
    let mut world = World::new();
    assert_eq!(world.spawn(Entity::ball(2, 0)), Ok(0));
    assert_eq!(world.spawn(Entity::paddle(16, 0)), Ok(1));
    assert_eq!(world.spawn(Entity::paddle(18, 0)), Ok(2));
    world.handle_collisions();
    assert_eq!(entity(&world, 0).velocity, units(1, 0));

    // A side and a top hit turn both axes.
    let mut corner = World::new();
    assert_eq!(corner.spawn(Entity::ball(2, -2)), Ok(0));
    assert_eq!(corner.spawn(Entity::paddle(16, 0)), Ok(1));
    assert_eq!(corner.spawn(Entity::gutter(0, -26, 1600)), Ok(2));
    corner.handle_collisions();
    assert_eq!(entity(&corner, 0).velocity, units(-1, 1));
}

#[test]
fn hits_are_answered_in_the_order_of_spawning() {
    // The ball is spawned last; the two boxes before it are both answered.
    let mut world = World::new();
    assert_eq!(world.spawn(Entity::paddle(16, 0)), Ok(0));
    assert_eq!(world.spawn(Entity::gutter(0, -26, 1600)), Ok(1));
    assert_eq!(world.spawn(Entity::ball(2, -2)), Ok(2));
    world.handle_collisions();
    assert_eq!(entity(&world, 2).velocity, units(-1, 1));
}

#[test]
fn collisions_without_ball_change_nothing() {
    let mut world = World::new();
    assert_eq!(world.spawn(Entity::paddle(0, 0).tagged()), Ok(0));
    assert_eq!(world.spawn(Entity::gutter(0, 0, 1600)), Ok(1));
    world.handle_collisions();
    assert_eq!(entity(&world, 0), Entity::paddle(0, 0).tagged());
    assert_eq!(entity(&world, 1), Entity::gutter(0, 0, 1600));
}

#[test]
fn one_tick_from_the_origin() {
    let mut world = World::with_arena(800, 600);
    assert!(world.ball_can_move());
    world.tick(frame(false, false, 600));
    assert_eq!(entity(&world, 0).position, units(5, 0));
    assert_eq!(entity(&world, 0).velocity, units(1, 0));
    assert_eq!(entity(&world, 1).position, units(350, 0));
}

#[test]
fn tick_reads_the_keys_before_it_moves_the_paddle() {
    let mut world = World::with_arena(800, 600);
    world.tick(frame(true, false, 600));
    assert_eq!(entity(&world, 1).position, units(350, 1));
    world.tick(frame(false, false, 600));
    assert_eq!(entity(&world, 1).position, units(350, 1));
    world.tick(frame(false, true, 600));
    assert_eq!(entity(&world, 1).position, units(350, 0));
}

#[test]
fn tick_resolves_collisions_after_the_ball_has_moved() {
    // The ball starts 3 units short of the paddle's reach and enters it
    // with its first step.
    let mut world = World::new();
    assert_eq!(world.spawn(Entity::ball(-2, 0)), Ok(0));
    assert_eq!(world.spawn(Entity::paddle(-26, 0)), Ok(1));
    world.tick(frame(false, false, 600));
    assert_eq!(entity(&world, 0).position, units(-5, 0));
    assert_eq!(entity(&world, 0).velocity, units(1, 0));
    world.tick(frame(false, false, 600));
    assert_eq!(entity(&world, 0).position, units(0, 0));
    assert_eq!(entity(&world, 0).velocity, units(1, 0));
}

#[test]
fn ball_bounces_between_the_gutters() {
    let mut world = World::new();
    assert_eq!(world.spawn(Entity::ball(2, 2)), Ok(0));
    assert_eq!(world.spawn_gutters(800, 100), (1, 2));
    // In units the gutters stand at y = 40 and -40, inner edges at 30 and -30.
    let mut turns = 0;
    let mut last = 2;
    for _ in 0..40 {
        world.tick(frame(false, false, 100));
        let v = entity(&world, 0).velocity.y;
        if v != last {
            turns += 1;
            last = v;
        }
        assert!(entity(&world, 0).position.y.abs() <= STEPS * 30);
    }
    assert_eq!(turns, 3);
    assert_eq!(entity(&world, 0).velocity.x, 2);
}

#[test]
fn gutters_never_move() {
    let mut world = World::with_arena(800, 600);
    let top = entity(&world, 3);
    let bottom = entity(&world, 4);
    for n in 0..500u32 {
        world.tick(frame(n % 3 == 0, n % 5 == 0, 600 - n));
        assert_eq!(entity(&world, 3), top);
        assert_eq!(entity(&world, 4), bottom);
    }
}

#[test]
fn unsteered_paddle_never_moves() {
    let mut world = World::with_arena(800, 600);
    let other = entity(&world, 2);
    for n in 0..200u32 {
        world.tick(frame(n % 2 == 0, n % 3 == 0, 600));
        assert_eq!(entity(&world, 2), other);
    }
}

#[test]
fn missed_ball_flies_on() {
    let mut world = World::with_arena(800, 600);
    for _ in 0..1000 {
        world.tick(frame(true, false, 600));
    }
    // The player's paddle has climbed out of the ball's way; nothing bounds
    // the arena to the right.
    assert_eq!(entity(&world, 0).position, units(5000, 0));
    assert_eq!(entity(&world, 0).velocity, units(1, 0));
}

#[test]
fn held_up_for_a_hundred_ticks() {
    let mut world = World::with_arena(800, 600);
    let bound = STEPS * (600 / 2 - GUTTER_HEIGHT - PADDLE_HEIGHT / 2);
    assert_eq!(bound, STEPS * 255);
    let mut last = entity(&world, 1).position.y;
    assert_eq!(last, 0);
    let mut resting = false;
    for _ in 0..100 {
        world.tick(frame(true, false, 600));
        let y = entity(&world, 1).position.y;
        assert!(y.abs() < bound);
        if resting {
            assert_eq!(y, last);
        } else if y == last {
            resting = true;
        } else {
            assert_eq!(y, last + STEPS);
        }
        last = y;
    }
    assert_eq!(entity(&world, 1).position, units(350, 100));
}

#[test]
fn held_up_until_the_lane_ends() {
    let mut world = World::with_arena(800, 600);
    let mut heights = Vec::new();
    for _ in 0..300 {
        world.tick(frame(true, false, 600));
        heights.push(entity(&world, 1).position.y);
    }
    for (n, &y) in heights.iter().enumerate() {
        let expected = if n < 254 { n as i64 + 1 } else { 254 };
        assert_eq!(y, STEPS * expected);
    }
}

#[test]
fn run_makes_one_tick_per_frame() {
    let mut world = World::with_arena(800, 600);
    let mut stepped = World::with_arena(800, 600);
    let frames: Vec<Frame> = (0..50u32).map(|n| frame(n < 30, n >= 30, 600)).collect();
    world.run(&frames);
    for f in frames.iter() {
        stepped.tick(*f);
    }
    for id in 0..5 {
        assert_eq!(entity(&world, id), entity(&stepped, id));
    }
    assert_eq!(entity(&world, 0).position, units(250, 0));
    assert_eq!(entity(&world, 1).position, units(350, 10));
}

#[test]
fn run_without_frames_changes_nothing() {
    let mut world = World::with_arena(800, 600);
    world.run(&Vec::new());
    for (id, body) in [
        Entity::ball(2, 0),
        Entity::paddle(700, 0).tagged(),
        Entity::paddle(-700, 0),
        Entity::gutter(0, 580, 1600),
        Entity::gutter(0, -580, 1600),
    ]
    .iter()
    .enumerate()
    {
        assert_eq!(entity(&world, id), *body);
    }
}

#[test]
fn run_goes_on_when_the_ball_has_reached_the_end_of_the_lattice() {
    let mut world = World::new();
    let step = i64::MAX / 5 / 3;
    assert_eq!(world.spawn(Entity::ball(step, 0)), Ok(0));
    assert_eq!(world.spawn(Entity::paddle(0, 200).tagged()), Ok(1));
    let frames = vec![frame(true, false, 600); 10];
    world.run(&frames);
    assert_eq!(entity(&world, 0).position, Vec2::new(step * 15, 0));
    assert_eq!(entity(&world, 1).position, Vec2::new(0, 220));
    assert!(!world.ball_can_move());
}

#[test]
fn positions_come_out_in_the_order_of_spawning() {
    let mut world = World::with_arena(800, 600);
    world.tick(frame(false, true, 600));
    assert_eq!(
        world.project_positions(),
        vec![
            units(5, 0),
            units(350, -1),
            units(-350, 0),
            units(0, 290),
            units(0, -290),
        ]
    );
}
