//! The rules of a tick, stated over the models of the entities.
//!
//! A world is modelled by the sequence of its bodies in the order in which
//! they were spawned. Each rule is a function from worlds to worlds; one tick
//! applies them in a fixed order.

use vstd::prelude::*;
use crate::collision::{classify, reflected};
use crate::entity::Body;
use crate::vector::Vector;
use crate::{BALL_SPEED, GUTTER_HEIGHT, PADDLE_HEIGHT, PADDLE_INSET, PADDLE_SPEED, STEPS};

verus! {

/// What the caller samples for one tick: the state of the two keys, and the
/// height of the window at that moment, in units.
#[derive(Clone, Copy, Debug, PartialEq, Eq, Structural)]
pub struct Frame {
    pub up: bool,
    pub down: bool,
    pub window_height: u32,
}

/// The x coordinate of the right paddle in a window that is `window_width`
/// units wide: the inset back from the right side, which lies half the
/// width from the centre. The left paddle stands at the negation.
pub open spec fn paddle_x(window_width: int) -> int {
    window_width - STEPS * PADDLE_INSET
}

/// The y coordinate of the top gutter in a window that is `window_height`
/// units high: half the gutter's thickness below the window's upper edge,
/// which lies half the height from the centre. The bottom gutter stands at
/// the negation.
pub open spec fn gutter_y(window_height: int) -> int {
    window_height - GUTTER_HEIGHT
}

/// The world that a game starts from in a window of the given size: the
/// ball, moving right at one unit per tick before scaling; the player's
/// paddle on the right; the other paddle on the left; and the top and the
/// bottom gutter, each as wide as the window. They stand in this order.
pub open spec fn opening(window_width: int, window_height: int) -> Seq<Body> {
    seq![
        Body::ball(Vector { x: STEPS as int, y: 0 }),
        Body::paddle(Vector { x: paddle_x(window_width), y: 0 }).tagged(),
        Body::paddle(Vector { x: -paddle_x(window_width), y: 0 }),
        Body::gutter(Vector { x: 0, y: gutter_y(window_height) }, STEPS * window_width),
        Body::gutter(Vector { x: 0, y: -gutter_y(window_height) }, STEPS * window_width),
    ]
}

/// The world holds a ball.
pub open spec fn has_ball(w: Seq<Body>) -> bool {
    exists|i: int| 0 <= i < w.len() && (#[trigger] w[i]).kind is Ball
}

/// The world holds a paddle that the keys steer.
pub open spec fn has_player(w: Seq<Body>) -> bool {
    exists|i: int| 0 <= i < w.len() && (#[trigger] w[i]).player
}

/// The invariant of a world: every body is well formed, there is at most
/// one ball, and at most one body is steered by the keys.
pub open spec fn valid(w: Seq<Body>) -> bool {
    &&& forall|i: int| 0 <= i < w.len() ==> (#[trigger] w[i]).wf()
    &&& forall|i: int, j: int|
        0 <= i < w.len() && 0 <= j < w.len() && (#[trigger] w[i]).kind is Ball && (
        #[trigger] w[j]).kind is Ball ==> i == j
    &&& forall|i: int, j: int|
        0 <= i < w.len() && 0 <= j < w.len() && (#[trigger] w[i]).player && (
        #[trigger] w[j]).player ==> i == j
}

/// The ball's velocity has a negation in the machine's range, so that it can
/// be turned back.
pub open spec fn reversible(w: Seq<Body>) -> bool {
    forall|i: int| 0 <= i < w.len() && (#[trigger] w[i]).kind is Ball ==> w[i].reversible()
}

/// The vertical velocity that the keys ask of the player's paddle: the
/// paddle speed, in steps. `up` wins over `down` when both are pressed.
pub open spec fn intent(up: bool, down: bool) -> int {
    if up {
        STEPS * PADDLE_SPEED
    } else if down {
        -STEPS * PADDLE_SPEED
    } else {
        0
    }
}

/// The body after the keys were read: the player's paddle takes the
/// velocity that they ask for, whatever it had before.
pub open spec fn steered(b: Body, up: bool, down: bool) -> Body {
    if b.kind is Paddle && b.player {
        Body { velocity: Vector { x: b.velocity.x, y: intent(up, down) }, ..b }
    } else {
        b
    }
}

/// Where a ball's step leads: its position advanced by its velocity times
/// `BALL_SPEED`.
pub open spec fn ball_target(b: Body) -> Vector {
    b.position.plus(b.velocity.scaled(BALL_SPEED as int))
}

/// The body after the ball's integration step. A ball takes its step
/// whenever the step ends on the lattice; at the lattice's end, where it
/// does not, the ball stays where it was.
pub open spec fn ball_moved(b: Body) -> Body {
    if b.kind is Ball && ball_target(b).on_lattice() {
        Body { position: ball_target(b), ..b }
    } else {
        b
    }
}

/// The next step of every ball of the world ends on the lattice.
pub open spec fn ball_in_range(w: Seq<Body>) -> bool {
    forall|i: int|
        0 <= i < w.len() && (#[trigger] w[i]).kind is Ball ==> ball_target(w[i]).on_lattice()
}

/// A paddle centred `y` steps above the middle lies strictly between the
/// gutters of a window that is `window_height` units high. In units this
/// is `|y| < window_height / 2 - GUTTER_HEIGHT - PADDLE_HEIGHT / 2`; it is
/// stated here in steps, and so without the division.
pub open spec fn in_lane(y: int, window_height: int) -> bool {
    (if y < 0 {
        -y
    } else {
        y
    }) < window_height - STEPS * GUTTER_HEIGHT - PADDLE_HEIGHT
}

/// The highest place of a paddle's lane, in steps, in a window that is
/// `window_height` units high; the lowest is its negation. The lane is
/// empty when this is negative.
pub open spec fn lane_top(window_height: int) -> int {
    window_height - STEPS * GUTTER_HEIGHT - PADDLE_HEIGHT - 1
}

/// The steps that a paddle covers in a tick in which the keys steer it and
/// its lane lets it pass: one unit.
pub open spec fn stride() -> int {
    STEPS * PADDLE_SPEED * PADDLE_SPEED
}

/// Where a paddle would stand after one step at its velocity.
pub open spec fn candidate(b: Body) -> Vector {
    b.position.plus(b.velocity.scaled(PADDLE_SPEED as int))
}

/// The body after the paddles' integration step: a paddle takes the step
/// if that leaves it in its lane, and stays where it was otherwise.
pub open spec fn paddle_moved(b: Body, window_height: int) -> Body {
    if b.kind is Paddle && in_lane(candidate(b).y, window_height) {
        Body { position: candidate(b), ..b }
    } else {
        b
    }
}

/// The velocity of `ball` after it has answered to each of `others` in
/// turn, first to last. Other balls are passed over. Each answer is taken
/// at the ball's one position; only the velocity carries over from one
/// answer to the next.
pub open spec fn bounced(ball: Body, others: Seq<Body>) -> Vector
    decreases others.len(),
{
    if others.len() == 0 {
        ball.velocity
    } else {
        let v = bounced(ball, others.drop_last());
        let other = others.last();
        if other.kind is Ball {
            v
        } else {
            reflected(v, classify(ball.bounds(), other.bounds()))
        }
    }
}

/// The body after the collision step in the world `w`.
pub open spec fn collided_in(b: Body, w: Seq<Body>) -> Body {
    if b.kind is Ball {
        Body { velocity: bounced(b, w), ..b }
    } else {
        b
    }
}

/// The world after the keys were read.
pub open spec fn input_handled(w: Seq<Body>, up: bool, down: bool) -> Seq<Body> {
    Seq::new(w.len(), |i: int| steered(w[i], up, down))
}

/// The world after the ball's integration step.
pub open spec fn balls_moved(w: Seq<Body>) -> Seq<Body> {
    Seq::new(w.len(), |i: int| ball_moved(w[i]))
}

/// The world after the paddles' integration step.
pub open spec fn paddles_moved(w: Seq<Body>, window_height: int) -> Seq<Body> {
    Seq::new(w.len(), |i: int| paddle_moved(w[i], window_height))
}

/// The world after the collision step.
pub open spec fn collided(w: Seq<Body>) -> Seq<Body> {
    Seq::new(w.len(), |i: int| collided_in(w[i], w))
}

/// The world after one tick: keys, then integration, then collisions.
pub open spec fn ticked(w: Seq<Body>, frame: Frame) -> Seq<Body> {
    collided(
        paddles_moved(
            balls_moved(input_handled(w, frame.up, frame.down)),
            frame.window_height as int,
        ),
    )
}

/// The world after one tick for each of `frames`, first to last.
pub open spec fn ran(w: Seq<Body>, frames: Seq<Frame>) -> Seq<Body>
    decreases frames.len(),
{
    if frames.len() == 0 {
        w
    } else {
        ticked(ran(w, frames.drop_last()), frames.last())
    }
}

} // verus!
