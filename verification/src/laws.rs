//! What holds of the rules: the invariant of a world, the laws of contact
//! and reflection, and what any number of ticks can and cannot change.

use vstd::prelude::*;
use crate::collision::{classify, reflected, Collision, Rect};
use crate::entity::Body;
use crate::rules::{
    ball_target, balls_moved, bounced, candidate, collided, in_lane, input_handled, lane_top,
    opening, paddle_moved, paddle_x, paddles_moved, ran, steered, stride, ticked, valid, Frame,
};
use crate::vector::Vector;
use crate::{BALL_SPEED, PADDLE_SPEED, STEPS};

verus! {

/// A tick neither adds nor removes an entity, and leaves each entity's
/// kind, tag and shape as they were.
pub proof fn lemma_tick_keeps_identity(w: Seq<Body>, frame: Frame, i: int)
    requires
        0 <= i < w.len(),
    ensures
        ticked(w, frame).len() == w.len(),
        ticked(w, frame)[i].kind == w[i].kind,
        ticked(w, frame)[i].player == w[i].player,
        ticked(w, frame)[i].shape == w[i].shape,
{
}

/// Contacts turn a velocity and never stretch it: after any number of
/// answers each coordinate is what it was, or its negation.
pub proof fn lemma_bounces_keep_speed(ball: Body, others: Seq<Body>)
    ensures
        bounced(ball, others).x == ball.velocity.x || bounced(ball, others).x
            == -ball.velocity.x,
        bounced(ball, others).y == ball.velocity.y || bounced(ball, others).y
            == -ball.velocity.y,
    decreases others.len(),
{
    if others.len() > 0 {
        lemma_bounces_keep_speed(ball, others.drop_last());
    }
}

/// A tick keeps the invariant of a world.
pub proof fn lemma_tick_keeps_valid(w: Seq<Body>, frame: Frame)
    requires
        valid(w),
    ensures
        valid(ticked(w, frame)),
{
    let t = ticked(w, frame);
    let integrated = paddles_moved(
        balls_moved(input_handled(w, frame.up, frame.down)),
        frame.window_height as int,
    );
    assert forall|i: int| 0 <= i < t.len() implies (#[trigger] t[i]).wf() by {
        lemma_tick_keeps_identity(w, frame, i);
        lemma_bounces_keep_speed(integrated[i], integrated);
    }
    assert forall|i: int, j: int|
        0 <= i < t.len() && 0 <= j < t.len() && (#[trigger] t[i]).kind is Ball && (
        #[trigger] t[j]).kind is Ball implies i == j by {
        lemma_tick_keeps_identity(w, frame, i);
        lemma_tick_keeps_identity(w, frame, j);
    }
    assert forall|i: int, j: int|
        0 <= i < t.len() && 0 <= j < t.len() && (#[trigger] t[i]).player && (
        #[trigger] t[j]).player implies i == j by {
        lemma_tick_keeps_identity(w, frame, i);
        lemma_tick_keeps_identity(w, frame, j);
    }
}

/// Any number of ticks keeps the invariant of a world, the number of its
/// entities, and each entity's kind, tag and shape.
pub proof fn lemma_run_keeps_valid(w: Seq<Body>, frames: Seq<Frame>)
    requires
        valid(w),
    ensures
        valid(ran(w, frames)),
        ran(w, frames).len() == w.len(),
        forall|i: int|
            0 <= i < w.len() ==> {
                &&& (#[trigger] ran(w, frames)[i]).kind == w[i].kind
                &&& ran(w, frames)[i].player == w[i].player
                &&& ran(w, frames)[i].shape == w[i].shape
            },
    decreases frames.len(),
{
    if frames.len() > 0 {
        let before = ran(w, frames.drop_last());
        lemma_run_keeps_valid(w, frames.drop_last());
        lemma_tick_keeps_valid(before, frames.last());
        assert forall|i: int| 0 <= i < w.len() implies {
            &&& (#[trigger] ran(w, frames)[i]).kind == w[i].kind
            &&& ran(w, frames)[i].player == w[i].player
            &&& ran(w, frames)[i].shape == w[i].shape
        } by {
            lemma_tick_keeps_identity(before, frames.last(), i);
        }
    }
}

/// The two integration steps do not depend on each other: the ball's and
/// the paddles' may run in either order.
pub proof fn lemma_integration_commutes(w: Seq<Body>, window_height: int)
    ensures
        paddles_moved(balls_moved(w), window_height) == balls_moved(
            paddles_moved(w, window_height),
        ),
{
    assert(paddles_moved(balls_moved(w), window_height) =~= balls_moved(
        paddles_moved(w, window_height),
    ));
}

/// What the keys ask for is the whole of the player's next vertical
/// velocity: `up` gives `PADDLE_SPEED` units, `down` without `up` gives
/// its negation, and neither gives rest, whatever the paddle's velocity
/// was.
pub proof fn lemma_keys_decide_velocity(before: Body, other: Body, up: bool, down: bool)
    requires
        before.kind is Paddle && before.player,
        other.kind is Paddle && other.player,
    ensures
        steered(before, up, down).velocity.y == steered(other, up, down).velocity.y,
        up ==> steered(before, up, down).velocity.y == STEPS * PADDLE_SPEED,
        !up && down ==> steered(before, up, down).velocity.y == -STEPS * PADDLE_SPEED,
        !up && !down ==> steered(before, up, down).velocity.y == 0,
        steered(before, up, down).velocity.x == before.velocity.x,
        steered(before, up, down).position == before.position,
{
}

/// The keys move nobody but the player's paddle.
pub proof fn lemma_keys_steer_player_only(w: Seq<Body>, up: bool, down: bool, i: int)
    requires
        0 <= i < w.len(),
        !w[i].player,
    ensures
        input_handled(w, up, down)[i] == w[i],
{
}

/// A paddle whose step would take it out of its lane stays exactly where it
/// was: the step is refused, and the paddle is not set onto the lane's end.
pub proof fn lemma_paddle_refuses_step_out_of_lane(w: Seq<Body>, window_height: int, i: int)
    requires
        0 <= i < w.len(),
        w[i].kind is Paddle,
        !in_lane(candidate(w[i]).y, window_height),
    ensures
        paddles_moved(w, window_height)[i] == w[i],
{
}

/// A paddle whose step leaves it in its lane takes the step whole.
pub proof fn lemma_paddle_takes_step_in_lane(w: Seq<Body>, window_height: int, i: int)
    requires
        0 <= i < w.len(),
        w[i].kind is Paddle,
        in_lane(candidate(w[i]).y, window_height),
    ensures
        paddles_moved(w, window_height)[i].position == candidate(w[i]),
        paddles_moved(w, window_height)[i].velocity == w[i].velocity,
{
}

/// A paddle that stands in its lane still does after the paddles' step, as
/// long as the window keeps its height.
pub proof fn lemma_paddle_stays_in_lane(b: Body, window_height: int)
    requires
        b.kind is Paddle,
        in_lane(b.position.y, window_height),
    ensures
        in_lane(paddle_moved(b, window_height).position.y, window_height),
{
}

/// The ball's step writes the ball's position and nothing else: the ball's
/// velocity and shape stay, and so does every other entity, whole.
pub proof fn lemma_ball_step_writes_position_only(w: Seq<Body>, i: int)
    requires
        0 <= i < w.len(),
    ensures
        balls_moved(w).len() == w.len(),
        balls_moved(w)[i].kind == w[i].kind,
        balls_moved(w)[i].player == w[i].player,
        balls_moved(w)[i].shape == w[i].shape,
        balls_moved(w)[i].velocity == w[i].velocity,
        !(w[i].kind is Ball) ==> balls_moved(w)[i] == w[i],
{
}

/// A ball's step that ends on the lattice adds `BALL_SPEED` times the
/// ball's velocity to its position.
pub proof fn lemma_ball_step(w: Seq<Body>, i: int)
    requires
        0 <= i < w.len(),
        w[i].kind is Ball,
        ball_target(w[i]).on_lattice(),
    ensures
        balls_moved(w)[i].position.x == w[i].position.x + BALL_SPEED * w[i].velocity.x,
        balls_moved(w)[i].position.y == w[i].position.y + BALL_SPEED * w[i].velocity.y,
{
}

/// A ball's step that would end off the lattice is not taken.
pub proof fn lemma_ball_rests_at_lattice_end(w: Seq<Body>, i: int)
    requires
        0 <= i < w.len(),
        !ball_target(w[i]).on_lattice(),
    ensures
        balls_moved(w)[i] == w[i],
{
}

/// A box that reaches over the left edge of another, and over neither its
/// top nor its bottom edge, meets it on the left.
pub proof fn lemma_entering_from_left(a: Rect, b: Rect)
    requires
        a.left() < b.left() < a.right() < b.right(),
        b.bottom() <= a.bottom(),
        a.top() <= b.top(),
        a.bottom() < a.top(),
    ensures
        classify(a, b) == Some(Collision::Left),
{
}

/// A hit on the left side turns the velocity back along x, exactly, and
/// leaves it alone along y.
pub proof fn lemma_left_hit_turns_back(v: Vector, a: Rect, b: Rect)
    requires
        classify(a, b) == Some(Collision::Left),
    ensures
        reflected(v, classify(a, b)).x == -v.x,
        reflected(v, classify(a, b)).y == v.y,
{
}

/// A box that lies within another meets none of its sides: the contact, if
/// there is one, is `Inside`, and the velocity stays as it was.
pub proof fn lemma_within_is_inside(v: Vector, a: Rect, b: Rect)
    requires
        a.within(b),
    ensures
        classify(a, b) == None::<Collision> || classify(a, b) == Some(Collision::Inside),
        a.overlaps(b) ==> classify(a, b) == Some(Collision::Inside),
        reflected(v, classify(a, b)) == v,
{
}

/// A ball that overlaps none of the others keeps its velocity.
pub proof fn lemma_clear_ball_keeps_velocity(ball: Body, others: Seq<Body>)
    requires
        forall|j: int|
            0 <= j < others.len() && !((#[trigger] others[j]).kind is Ball)
                ==> !ball.bounds().overlaps(others[j].bounds()),
    ensures
        bounced(ball, others) == ball.velocity,
    decreases others.len(),
{
    if others.len() > 0 {
        let rest = others.drop_last();
        lemma_clear_ball_keeps_velocity(ball, rest);
    }
}

/// A ball that lies within every box that it overlaps keeps its velocity.
pub proof fn lemma_contained_ball_keeps_velocity(ball: Body, others: Seq<Body>)
    requires
        forall|j: int|
            0 <= j < others.len() && !((#[trigger] others[j]).kind is Ball)
                && ball.bounds().overlaps(others[j].bounds()) ==> ball.bounds().within(
                others[j].bounds(),
            ),
    ensures
        bounced(ball, others) == ball.velocity,
    decreases others.len(),
{
    if others.len() > 0 {
        let rest = others.drop_last();
        lemma_contained_ball_keeps_velocity(ball, rest);
        let last = others[others.len() - 1];
        if !(last.kind is Ball) && ball.bounds().overlaps(last.bounds()) {
            lemma_within_is_inside(ball.velocity, ball.bounds(), last.bounds());
        }
    }
}

/// A ball that overlaps exactly one of the others answers to that one
/// alone.
pub proof fn lemma_single_contact(ball: Body, others: Seq<Body>, k: int)
    requires
        0 <= k < others.len(),
        !(others[k].kind is Ball),
        forall|j: int|
            0 <= j < others.len() && j != k && !((#[trigger] others[j]).kind is Ball)
                ==> !ball.bounds().overlaps(others[j].bounds()),
    ensures
        bounced(ball, others) == reflected(
            ball.velocity,
            classify(ball.bounds(), others[k].bounds()),
        ),
    decreases others.len(),
{
    let rest = others.drop_last();
    if k == others.len() - 1 {
        lemma_clear_ball_keeps_velocity(ball, rest);
    } else {
        lemma_single_contact(ball, rest, k);
    }
}

/// In a world where the ball overlaps one other entity only, and meets it
/// on the left, the collision step turns the ball's velocity back along x,
/// exactly, and changes nothing else about the ball.
pub proof fn lemma_left_hit_in_world(w: Seq<Body>, b: int, k: int)
    requires
        0 <= b < w.len(),
        w[b].kind is Ball,
        0 <= k < w.len(),
        !(w[k].kind is Ball),
        classify(w[b].bounds(), w[k].bounds()) == Some(Collision::Left),
        forall|j: int|
            0 <= j < w.len() && j != k && !((#[trigger] w[j]).kind is Ball)
                ==> !w[b].bounds().overlaps(w[j].bounds()),
    ensures
        collided(w)[b].velocity.x == -w[b].velocity.x,
        collided(w)[b].velocity.y == w[b].velocity.y,
        collided(w)[b].position == w[b].position,
        collided(w)[b].shape == w[b].shape,
{
    lemma_single_contact(w[b], w, k);
}

/// In a world where the ball lies within every box that it overlaps, the
/// collision step changes nothing.
pub proof fn lemma_contained_ball_in_world(w: Seq<Body>)
    requires
        forall|b: int, j: int|
            0 <= b < w.len() && 0 <= j < w.len() && (#[trigger] w[b]).kind is Ball && !((
            #[trigger] w[j]).kind is Ball) && w[b].bounds().overlaps(w[j].bounds())
                ==> w[b].bounds().within(w[j].bounds()),
    ensures
        collided(w) == w,
{
    assert forall|b: int| 0 <= b < w.len() implies (#[trigger] collided(w)[b]) == w[b] by {
        if w[b].kind is Ball {
            lemma_contained_ball_keeps_velocity(w[b], w);
        }
    }
}

/// Whatever the keys and the ball do, and for however many ticks, a gutter
/// stays as it was: its position, its shape and everything else.
pub proof fn lemma_gutters_never_move(w: Seq<Body>, frames: Seq<Frame>, i: int)
    requires
        0 <= i < w.len(),
        w[i].kind is Gutter,
    ensures
        ran(w, frames).len() == w.len(),
        ran(w, frames)[i] == w[i],
    decreases frames.len(),
{
    if frames.len() > 0 {
        lemma_gutters_never_move(w, frames.drop_last(), i);
    }
}

/// Whatever happens in a tick, a ball whose step ends on the lattice ends
/// the tick one step further along the velocity with which it began:
/// contacts turn the velocity, never the position.
pub proof fn lemma_tick_moves_ball(w: Seq<Body>, frame: Frame, i: int)
    requires
        0 <= i < w.len(),
        w[i].kind is Ball,
        ball_target(w[i]).on_lattice(),
    ensures
        ticked(w, frame)[i].position == ball_target(w[i]),
{
}

/// The lane is the span from the negation of its top to its top.
pub proof fn lemma_lane_span(y: int, window_height: int)
    ensures
        in_lane(y, window_height) <==> -lane_top(window_height) <= y <= lane_top(
            window_height,
        ),
{
}

/// A paddle never leaves its column, for however many ticks.
pub proof fn lemma_paddles_keep_column(w: Seq<Body>, frames: Seq<Frame>, i: int)
    requires
        valid(w),
        0 <= i < w.len(),
        w[i].kind is Paddle,
    ensures
        ran(w, frames).len() == w.len(),
        ran(w, frames)[i].position.x == w[i].position.x,
    decreases frames.len(),
{
    if frames.len() > 0 {
        lemma_paddles_keep_column(w, frames.drop_last(), i);
        lemma_run_keeps_valid(w, frames.drop_last());
    }
}

/// A paddle that the keys do not steer stays as it was, for however many
/// ticks.
pub proof fn lemma_unsteered_paddle_rests(w: Seq<Body>, frames: Seq<Frame>, i: int)
    requires
        valid(w),
        0 <= i < w.len(),
        w[i].kind is Paddle,
        !w[i].player,
    ensures
        ran(w, frames).len() == w.len(),
        ran(w, frames)[i] == w[i],
    decreases frames.len(),
{
    if frames.len() > 0 {
        lemma_unsteered_paddle_rests(w, frames.drop_last(), i);
        lemma_run_keeps_valid(w, frames.drop_last());
    }
}

/// With the up key held in a window that keeps its height, a player's
/// paddle that stands in its lane climbs by one unit in each tick for as
/// long as that leaves it in the lane, and rests in every tick after.
pub proof fn lemma_held_up_climbs_then_rests(
    w: Seq<Body>,
    frames: Seq<Frame>,
    window_height: u32,
    p: int,
)
    requires
        valid(w),
        0 <= p < w.len(),
        w[p].player,
        in_lane(w[p].position.y, window_height as int),
        forall|k: int|
            0 <= k < frames.len() ==> (#[trigger] frames[k]).up && frames[k].window_height
                == window_height,
    ensures
        ran(w, frames)[p].position.x == w[p].position.x,
        ran(w, frames)[p].position.y == if w[p].position.y + stride() * frames.len() <= lane_top(
            window_height as int,
        ) {
            w[p].position.y + stride() * frames.len()
        } else {
            w[p].position.y + stride() * ((lane_top(window_height as int) - w[p].position.y)
                / stride())
        },
    decreases frames.len(),
{
    assert(stride() == 2);
    lemma_lane_span(w[p].position.y, window_height as int);
    if frames.len() > 0 {
        let earlier = frames.drop_last();
        let before = ran(w, earlier);
        lemma_held_up_climbs_then_rests(w, earlier, window_height, p);
        lemma_run_keeps_valid(w, earlier);
        lemma_lane_span(before[p].position.y + stride(), window_height as int);
    }
}

/// For however many ticks, the ball keeps its speed along each axis: each
/// coordinate of its velocity is what it was at the start, or its negation.
/// In particular a ball never stops moving sideways.
pub proof fn lemma_ball_keeps_speed(w: Seq<Body>, frames: Seq<Frame>, i: int)
    requires
        0 <= i < w.len(),
        w[i].kind is Ball,
    ensures
        ran(w, frames).len() == w.len(),
        ran(w, frames)[i].kind is Ball,
        ran(w, frames)[i].velocity.x == w[i].velocity.x || ran(w, frames)[i].velocity.x
            == -w[i].velocity.x,
        ran(w, frames)[i].velocity.y == w[i].velocity.y || ran(w, frames)[i].velocity.y
            == -w[i].velocity.y,
    decreases frames.len(),
{
    if frames.len() > 0 {
        let frame = frames.last();
        let before = ran(w, frames.drop_last());
        lemma_ball_keeps_speed(w, frames.drop_last(), i);
        let integrated = paddles_moved(
            balls_moved(input_handled(before, frame.up, frame.down)),
            frame.window_height as int,
        );
        lemma_bounces_keep_speed(integrated[i], integrated);
    }
}

/// The world that a game starts from satisfies the invariant, whatever the
/// window's size.
pub proof fn lemma_opening_is_valid(window_width: int, window_height: int)
    ensures
        valid(opening(window_width, window_height)),
{
}

/// From the start of a game, with the up key held in a window that keeps
/// its height and is high enough for a lane, the player's paddle stands
/// after `n` ticks `n` units above the middle, or as many whole units as
/// its lane lets it climb if that is less, and in the column where it
/// began.
pub proof fn lemma_opening_player_climbs(window_width: int, window_height: u32, frames: Seq<Frame>)
    requires
        in_lane(0, window_height as int),
        forall|k: int|
            0 <= k < frames.len() ==> (#[trigger] frames[k]).up && frames[k].window_height
                == window_height,
    ensures
        ran(opening(window_width, window_height as int), frames)[1].position.x == paddle_x(
            window_width,
        ),
        ran(opening(window_width, window_height as int), frames)[1].position.y == if stride()
            * frames.len() <= lane_top(window_height as int) {
            stride() * frames.len()
        } else {
            stride() * (lane_top(window_height as int) / stride())
        },
{
    let start = opening(window_width, window_height as int);
    lemma_opening_is_valid(window_width, window_height as int);
    lemma_held_up_climbs_then_rests(start, frames, window_height, 1);
}

} // verus!
