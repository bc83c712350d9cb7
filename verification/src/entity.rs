//! The simulated objects: what kinds there are and what each one carries.

use vstd::prelude::*;
use crate::collision::Rect;
use crate::vector::{Vec2, Vector};
use crate::{BALL_WIDTH, GUTTER_HEIGHT, PADDLE_HEIGHT, PADDLE_SPEED, PADDLE_WIDTH, STEPS};

verus! {

/// The role of a simulated object.
#[derive(Clone, Copy, Debug, PartialEq, Eq, Structural)]
pub enum Kind {
    Ball,
    Paddle,
    Gutter,
}

/// The model of an [`Entity`]: the same record over the mathematical
/// integers. It exists in specifications only.
pub struct Body {
    pub kind: Kind,
    /// Set on the one paddle that the keys steer.
    pub player: bool,
    /// Centre of the object's box.
    pub position: Vector,
    /// Full width and height of the object's box.
    pub shape: Vector,
    /// Displacement per tick, before the kind's speed factor is applied.
    pub velocity: Vector,
}

impl Body {
    /// A ball at the origin that moves at `velocity`.
    pub open spec fn ball(velocity: Vector) -> Body {
        Body {
            kind: Kind::Ball,
            player: false,
            position: Vector::zero(),
            shape: Vector { x: STEPS * BALL_WIDTH, y: STEPS * BALL_WIDTH },
            velocity,
        }
    }

    /// A paddle at rest at `position`, not steered by anyone.
    pub open spec fn paddle(position: Vector) -> Body {
        Body {
            kind: Kind::Paddle,
            player: false,
            position,
            shape: Vector { x: STEPS * PADDLE_WIDTH, y: STEPS * PADDLE_HEIGHT },
            velocity: Vector::zero(),
        }
    }

    /// A gutter centred at `position` that is `width` steps wide.
    pub open spec fn gutter(position: Vector, width: int) -> Body {
        Body {
            kind: Kind::Gutter,
            player: false,
            position,
            shape: Vector { x: width, y: STEPS * GUTTER_HEIGHT },
            velocity: Vector::zero(),
        }
    }

    /// The same body with the player's tag set.
    pub open spec fn tagged(self) -> Body {
        Body { player: true, ..self }
    }

    /// The box that the body occupies.
    pub open spec fn bounds(self) -> Rect {
        Rect { center: self.position, size: self.shape }
    }

    /// What holds of every body of a world, whatever its neighbours are: a
    /// ball moves sideways; a paddle has no sideways velocity and at most
    /// the paddle speed up or down, and rests unless the keys steer it; a
    /// gutter rests. Only a paddle carries the player's tag. A body's box
    /// may have any size.
    pub open spec fn wf(self) -> bool {
        match self.kind {
            Kind::Ball => {
                &&& !self.player
                &&& self.velocity.x != 0
            },
            Kind::Paddle => {
                &&& self.velocity.x == 0
                &&& -STEPS * PADDLE_SPEED <= self.velocity.y <= STEPS * PADDLE_SPEED
                &&& !self.player ==> self.velocity.y == 0
            },
            Kind::Gutter => {
                &&& !self.player
                &&& self.velocity == Vector::zero()
            },
        }
    }

    /// Each coordinate of the velocity has a negation in the machine's
    /// range, so that the velocity can be turned back.
    pub open spec fn reversible(self) -> bool {
        i64::MIN < self.velocity.x && i64::MIN < self.velocity.y
    }
}

/// A simulated object as the registry stores it. It is plain data: the
/// rules that keep a world consistent are those of the registry.
#[derive(Clone, Copy, Debug, PartialEq, Eq, Structural)]
pub struct Entity {
    pub kind: Kind,
    /// Set on the one paddle that the keys steer.
    pub player: bool,
    /// Centre of the object's box.
    pub position: Vec2,
    /// Full width and height of the object's box.
    pub shape: Vec2,
    /// Displacement per tick, before the kind's speed factor is applied.
    pub velocity: Vec2,
}

impl View for Entity {
    type V = Body;

    open spec fn view(&self) -> Body {
        Body {
            kind: self.kind,
            player: self.player,
            position: self.position@,
            shape: self.shape@,
            velocity: self.velocity@,
        }
    }
}

impl Entity {
    /// A ball at the origin that moves at `(x, y)` steps per tick before
    /// scaling.
    pub fn ball(x: i64, y: i64) -> (e: Entity)
        ensures
            e@ == Body::ball(Vector { x: x as int, y: y as int }),
    {
        Entity {
            kind: Kind::Ball,
            player: false,
            position: Vec2 { x: 0, y: 0 },
            shape: Vec2 { x: STEPS * BALL_WIDTH, y: STEPS * BALL_WIDTH },
            velocity: Vec2 { x, y },
        }
    }

    /// A paddle at rest at `(x, y)`.
    pub fn paddle(x: i64, y: i64) -> (e: Entity)
        ensures
            e@ == Body::paddle(Vector { x: x as int, y: y as int }),
    {
        Entity {
            kind: Kind::Paddle,
            player: false,
            position: Vec2 { x, y },
            shape: Vec2 { x: STEPS * PADDLE_WIDTH, y: STEPS * PADDLE_HEIGHT },
            velocity: Vec2 { x: 0, y: 0 },
        }
    }

    /// A gutter centred at `(x, y)` that is `w` steps wide.
    pub fn gutter(x: i64, y: i64, w: i64) -> (e: Entity)
        ensures
            e@ == Body::gutter(Vector { x: x as int, y: y as int }, w as int),
    {
        Entity {
            kind: Kind::Gutter,
            player: false,
            position: Vec2 { x, y },
            shape: Vec2 { x: w, y: STEPS * GUTTER_HEIGHT },
            velocity: Vec2 { x: 0, y: 0 },
        }
    }

    /// The same entity with the player's tag set.
    pub fn tagged(self) -> (e: Entity)
        ensures
            e@ == self@.tagged(),
    {
        Entity { player: true, ..self }
    }

    /// What a world asks of an entity before it takes it in.
    pub open spec fn wf(&self) -> bool {
        self@.wf() && (self.kind is Ball ==> self@.reversible())
    }

    /// Whether a world can take the entity in.
    pub fn is_wf(&self) -> (ok: bool)
        ensures
            ok == self.wf(),
    {
        match self.kind {
            Kind::Ball => !self.player && self.velocity.x != 0 && self.velocity.x > i64::MIN
                && self.velocity.y > i64::MIN,
            Kind::Paddle => self.velocity.x == 0 && -STEPS * PADDLE_SPEED <= self.velocity.y
                && self.velocity.y <= STEPS * PADDLE_SPEED && (self.player || self.velocity.y
                == 0),
            Kind::Gutter => !self.player && self.velocity.x == 0 && self.velocity.y == 0,
        }
    }
}

} // verus!
