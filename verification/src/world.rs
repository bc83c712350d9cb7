//! The registry of entities and the systems that advance it.

use vstd::prelude::*;
use crate::collision::{collide, reflect};
use crate::entity::{Body, Entity, Kind};
use crate::rules::{
    ball_in_range, ball_target, balls_moved, bounced, collided, gutter_y, has_ball, has_player,
    input_handled, opening, paddle_moved, paddle_x, paddles_moved, ran, reversible, ticked,
    valid, Frame,
};
use crate::vector::{Vec2, Vector};
use crate::{BALL_SPEED, GUTTER_HEIGHT, PADDLE_HEIGHT, PADDLE_INSET, PADDLE_SPEED, STEPS};

verus! {

/// Why an entity was not added to a world.
#[derive(Clone, Copy, Debug, PartialEq, Eq, Structural)]
pub enum SpawnError {
    /// The world already holds its one ball.
    BallExists,
    /// The world already holds the one paddle that the keys steer.
    PlayerExists,
}

/// The entities of one game. An entity's identifier is its place in the
/// order of spawning, and it keeps that identifier for good: nothing is ever
/// removed.
pub struct World {
    entities: Vec<Entity>,
}

impl View for World {
    type V = Seq<Body>;

    closed spec fn view(&self) -> Seq<Body> {
        Seq::new(self.entities@.len(), |i: int| self.entities@[i]@)
    }
}

impl World {
    /// The invariant that every operation keeps.
    pub open spec fn wf(&self) -> bool {
        valid(self@) && reversible(self@)
    }

    /// A world without entities.
    pub fn new() -> (w: World)
        ensures
            w.wf(),
            w@ == Seq::<Body>::empty(),
    {
        World { entities: Vec::new() }
    }

    /// The number of entities.
    pub fn len(&self) -> (n: usize)
        ensures
            n == self@.len(),
    {
        self.entities.len()
    }

    /// The entity with the identifier `id`, if there is one.
    pub fn entity(&self, id: usize) -> (e: Option<Entity>)
        ensures
            match e {
                Some(e) => id < self@.len() && e@ == self@[id as int],
                None => id >= self@.len(),
            },
    {
        if id < self.entities.len() {
            Some(self.entities[id])
        } else {
            None
        }
    }

    /// The identifier of the ball, if the world holds one.
    pub fn ball(&self) -> (id: Option<usize>)
        ensures
            match id {
                Some(i) => {
                    &&& i < self@.len()
                    &&& self@[i as int].kind is Ball
                    &&& forall|j: int| 0 <= j < i ==> !((#[trigger] self@[j]).kind is Ball)
                },
                None => !has_ball(self@),
            },
    {
        let n = self.entities.len();
        let mut i: usize = 0;
        while i < n
            invariant
                n == self.entities@.len(),
                i <= n,
                forall|j: int| 0 <= j < i ==> !((#[trigger] self@[j]).kind is Ball),
            decreases n - i,
        {
            match self.entities[i].kind {
                Kind::Ball => {
                    return Some(i);
                },
                _ => {},
            }
            i += 1;
        }
        None
    }

    /// The identifier of the paddle that the keys steer, if the world holds
    /// one.
    pub fn player(&self) -> (id: Option<usize>)
        ensures
            match id {
                Some(i) => {
                    &&& i < self@.len()
                    &&& self@[i as int].player
                    &&& forall|j: int| 0 <= j < i ==> !(#[trigger] self@[j]).player
                },
                None => !has_player(self@),
            },
    {
        let n = self.entities.len();
        let mut i: usize = 0;
        while i < n
            invariant
                n == self.entities@.len(),
                i <= n,
                forall|j: int| 0 <= j < i ==> !(#[trigger] self@[j]).player,
            decreases n - i,
        {
            if self.entities[i].player {
                return Some(i);
            }
            i += 1;
        }
        None
    }

    /// Takes an entity into the world and returns its identifier. A ball is
    /// refused if the world has a ball already, and a paddle that carries
    /// the player's tag if the world has such a paddle already; a refusal
    /// leaves the world as it was.
    pub fn spawn(&mut self, entity: Entity) -> (r: Result<usize, SpawnError>)
        requires
            old(self).wf(),
            entity.wf(),
        ensures
            final(self).wf(),
            match r {
                Ok(id) => {
                    &&& !(entity.kind is Ball && has_ball(old(self)@))
                    &&& !(entity.player && has_player(old(self)@))
                    &&& id == old(self)@.len()
                    &&& final(self)@ == old(self)@.push(entity@)
                },
                Err(SpawnError::BallExists) => {
                    &&& entity.kind is Ball
                    &&& has_ball(old(self)@)
                    &&& final(self)@ == old(self)@
                },
                Err(SpawnError::PlayerExists) => {
                    &&& entity.player
                    &&& has_player(old(self)@)
                    &&& final(self)@ == old(self)@
                },
            },
    {
        match entity.kind {
            Kind::Ball => {
                if self.ball().is_some() {
                    return Err(SpawnError::BallExists);
                }
            },
            _ => {},
        }
        if entity.player && self.player().is_some() {
            return Err(SpawnError::PlayerExists);
        }
        let id = self.entities.len();
        self.entities.push(entity);
        assert(self@ =~= old(self)@.push(entity@));
        Ok(id)
    }

    /// Adds the ball that a game starts with: at the origin, moving to the
    /// right at one unit per tick before scaling.
    pub fn spawn_ball(&mut self) -> (r: Result<usize, SpawnError>)
        requires
            old(self).wf(),
        ensures
            final(self).wf(),
            match r {
                Ok(id) => {
                    &&& !has_ball(old(self)@)
                    &&& id == old(self)@.len()
                    &&& final(self)@ == old(self)@.push(
                        Body::ball(Vector { x: STEPS as int, y: 0 }),
                    )
                },
                Err(e) => {
                    &&& has_ball(old(self)@)
                    &&& e == SpawnError::BallExists
                    &&& final(self)@ == old(self)@
                },
            },
    {
        self.spawn(Entity::ball(STEPS, 0))
    }

    /// Adds the two paddles of a game in a window that is `window_width`
    /// units wide: the player's on the right, then the other one on the
    /// left, each with its centre at the inset from its side and at mid
    /// height. Adds neither if the world has a player's paddle already.
    /// Returns the two identifiers, the player's first.
    pub fn spawn_paddles(&mut self, window_width: u32) -> (r: Result<(usize, usize), SpawnError>)
        requires
            old(self).wf(),
        ensures
            final(self).wf(),
            match r {
                Ok((right, left)) => {
                    &&& !has_player(old(self)@)
                    &&& right == old(self)@.len()
                    &&& left == old(self)@.len() + 1
                    &&& final(self)@ == old(self)@.push(
                        Body::paddle(Vector { x: paddle_x(window_width as int), y: 0 }).tagged(),
                    ).push(Body::paddle(Vector { x: -paddle_x(window_width as int), y: 0 }))
                },
                Err(e) => {
                    &&& has_player(old(self)@)
                    &&& e == SpawnError::PlayerExists
                    &&& final(self)@ == old(self)@
                },
            },
    {
        let x: i64 = window_width as i64 - STEPS * PADDLE_INSET;
        match self.spawn(Entity::paddle(x, 0).tagged()) {
            Ok(right) => {
                match self.spawn(Entity::paddle(-x, 0)) {
                    Ok(left) => Ok((right, left)),
                    Err(e) => Err(e),
                }
            },
            Err(e) => Err(e),
        }
    }

    /// Adds the two gutters of a game in a window of the given size, in
    /// units: the top one, then the bottom one, each as wide as the window
    /// and with its outer edge on the window's. Returns the two
    /// identifiers, the top gutter's first.
    pub fn spawn_gutters(&mut self, window_width: u32, window_height: u32) -> (r: (usize, usize))
        requires
            old(self).wf(),
        ensures
            final(self).wf(),
            r.0 == old(self)@.len(),
            r.1 == old(self)@.len() + 1,
            final(self)@ == old(self)@.push(
                Body::gutter(
                    Vector { x: 0, y: gutter_y(window_height as int) },
                    STEPS * window_width,
                ),
            ).push(
                Body::gutter(
                    Vector { x: 0, y: -gutter_y(window_height as int) },
                    STEPS * window_width,
                ),
            ),
    {
        let y: i64 = window_height as i64 - GUTTER_HEIGHT;
        let width: i64 = STEPS * (window_width as i64);
        // A gutter is never refused.
        let top = self.entities.len();
        let _ = self.spawn(Entity::gutter(0, y, width));
        let _ = self.spawn(Entity::gutter(0, -y, width));
        (top, top + 1)
    }

    /// The world that a game starts from in a window of the given size, in
    /// units.
    pub fn with_arena(window_width: u32, window_height: u32) -> (w: World)
        ensures
            w.wf(),
            w@ == opening(window_width as int, window_height as int),
    {
        let mut w = World::new();
        let _ = w.spawn_ball();
        let _ = w.spawn_paddles(window_width);
        let _ = w.spawn_gutters(window_width, window_height);
        w
    }

    /// Reads the keys: the player's paddle takes the vertical velocity that
    /// they ask for, whatever it had before. Nothing else changes, and
    /// nothing at all in a world without a player's paddle.
    pub fn handle_player_input(&mut self, up: bool, down: bool)
        requires
            old(self).wf(),
        ensures
            final(self).wf(),
            final(self)@ == input_handled(old(self)@, up, down),
    {
        match self.player() {
            Some(i) => {
                let mut paddle = self.entities[i];
                paddle.velocity.y = if up {
                    STEPS * PADDLE_SPEED
                } else if down {
                    -STEPS * PADDLE_SPEED
                } else {
                    0
                };
                self.entities.set(i, paddle);
            },
            None => {},
        }
        assert(self@ =~= input_handled(old(self)@, up, down));
    }

    /// Whether the ball's next step ends on the lattice. It does in a world
    /// without a ball.
    pub fn ball_can_move(&self) -> (ok: bool)
        ensures
            ok == ball_in_range(self@),
    {
        let n = self.entities.len();
        let mut i: usize = 0;
        while i < n
            invariant
                n == self.entities@.len(),
                i <= n,
                forall|j: int|
                    0 <= j < i && (#[trigger] self@[j]).kind is Ball ==> ball_target(
                        self@[j],
                    ).on_lattice(),
            decreases n - i,
        {
            let e = self.entities[i];
            match e.kind {
                Kind::Ball => {
                    if World::target(e).is_none() {
                        assert(self@[i as int].kind is Ball);
                        return false;
                    }
                },
                _ => {},
            }
            i += 1;
        }
        true
    }

    /// Where the step of a ball leads, if that is on the lattice.
    fn target(ball: Entity) -> (to: Option<Vec2>)
        ensures
            match to {
                Some(p) => p@ == ball_target(ball@),
                None => !ball_target(ball@).on_lattice(),
            },
    {
        let x: i128 = ball.position.x as i128 + (BALL_SPEED as i128) * (ball.velocity.x as i128);
        let y: i128 = ball.position.y as i128 + (BALL_SPEED as i128) * (ball.velocity.y as i128);
        if x < i64::MIN as i128 || x > i64::MAX as i128 || y < i64::MIN as i128 || y
            > i64::MAX as i128 {
            None
        } else {
            Some(Vec2 { x: x as i64, y: y as i64 })
        }
    }

    /// Integrates the ball: its position advances by its velocity times
    /// `BALL_SPEED`, unless that would take it off the lattice. Nothing
    /// else changes, and nothing at all in a world without a ball.
    pub fn move_ball(&mut self)
        requires
            old(self).wf(),
        ensures
            final(self).wf(),
            final(self)@ == balls_moved(old(self)@),
    {
        match self.ball() {
            Some(i) => {
                let mut ball = self.entities[i];
                match World::target(ball) {
                    Some(to) => {
                        ball.position = to;
                        self.entities.set(i, ball);
                    },
                    None => {},
                }
            },
            None => {},
        }
        assert(self@ =~= balls_moved(old(self)@));
    }

    /// Integrates the paddles in a window that is `window_height` units
    /// high: each paddle advances by its velocity times `PADDLE_SPEED` if
    /// that leaves it strictly between the gutters, and stays where it was
    /// otherwise.
    pub fn move_paddles(&mut self, window_height: u32)
        requires
            old(self).wf(),
        ensures
            final(self).wf(),
            final(self)@ == paddles_moved(old(self)@, window_height as int),
    {
        let n = self.entities.len();
        let mut i: usize = 0;
        while i < n
            invariant
                n == self.entities@.len(),
                n == old(self)@.len(),
                i <= n,
                valid(old(self)@),
                forall|j: int|
                    0 <= j < i ==> (#[trigger] self.entities@[j])@ == paddle_moved(
                        old(self)@[j],
                        window_height as int,
                    ),
                forall|j: int| i <= j < n ==> (#[trigger] self.entities@[j])@ == old(self)@[j],
            decreases n - i,
        {
            let e = self.entities[i];
            match e.kind {
                Kind::Paddle => {
                    let x: i128 = e.position.x as i128 + (PADDLE_SPEED as i128) * (
                    e.velocity.x as i128);
                    let y: i128 = e.position.y as i128 + (PADDLE_SPEED as i128) * (
                    e.velocity.y as i128);
                    let reach: i128 = if y < 0 {
                        -y
                    } else {
                        y
                    };
                    if reach < window_height as i128 - (STEPS as i128) * (GUTTER_HEIGHT as i128)
                        - (PADDLE_HEIGHT as i128) {
                        let mut moved = e;
                        moved.position = Vec2 { x: x as i64, y: y as i64 };
                        self.entities.set(i, moved);
                    }
                },
                _ => {},
            }
            i += 1;
        }
    }

    /// Resolves the ball's collisions: the ball's box is tested against the
    /// box of every other entity in the order of their identifiers, and
    /// each hit turns the ball's velocity as its side demands. Only the
    /// ball's velocity changes, and nothing at all in a world without a
    /// ball.
    pub fn handle_collisions(&mut self)
        requires
            old(self).wf(),
        ensures
            final(self).wf(),
            final(self)@ == collided(old(self)@),
    {
        match self.ball() {
            Some(b) => {
                let ball = self.entities[b];
                let n = self.entities.len();
                let mut v = ball.velocity;
                let mut j: usize = 0;
                while j < n
                    invariant
                        n == self.entities@.len(),
                        j <= n,
                        b < n,
                        ball == self.entities@[b as int],
                        v@ == bounced(ball@, self@.take(j as int)),
                        v.x != 0,
                        i64::MIN < v.x,
                        i64::MIN < v.y,
                    decreases n - j,
                {
                    let other = self.entities[j];
                    proof {
                        let seen = self@.take(j + 1);
                        assert(seen.drop_last() =~= self@.take(j as int));
                    }
                    match other.kind {
                        Kind::Ball => {},
                        _ => {
                            let hit = collide(
                                ball.position,
                                ball.shape,
                                other.position,
                                other.shape,
                            );
                            v = reflect(v, hit);
                        },
                    }
                    j += 1;
                }
                assert(self@.take(n as int) =~= self@);
                let mut turned = ball;
                turned.velocity = v;
                self.entities.set(b, turned);
            },
            None => {},
        }
        assert(self@ =~= collided(old(self)@));
    }

    /// Advances the world by one tick: keys, then the ball's and the
    /// paddles' integration, then collisions.
    pub fn tick(&mut self, frame: Frame)
        requires
            old(self).wf(),
        ensures
            final(self).wf(),
            final(self)@ == ticked(old(self)@, frame),
    {
        self.handle_player_input(frame.up, frame.down);
        self.move_ball();
        self.move_paddles(frame.window_height);
        self.handle_collisions();
    }

    /// Advances the world by one tick for each of `frames`, first to last.
    pub fn run(&mut self, frames: &Vec<Frame>)
        requires
            old(self).wf(),
        ensures
            final(self).wf(),
            final(self)@ == ran(old(self)@, frames@),
    {
        let n = frames.len();
        let mut done: usize = 0;
        while done < n
            invariant
                n == frames@.len(),
                done <= n,
                self.wf(),
                self@ == ran(old(self)@, frames@.take(done as int)),
            decreases n - done,
        {
            proof {
                let next = frames@.take(done + 1);
                assert(next.drop_last() =~= frames@.take(done as int));
            }
            self.tick(frames[done]);
            done += 1;
        }
        assert(frames@.take(n as int) =~= frames@);
    }

    /// The position of every entity, in the order of their identifiers, for
    /// whoever draws the world.
    pub fn project_positions(&self) -> (positions: Vec<Vec2>)
        ensures
            positions@.len() == self@.len(),
            forall|i: int|
                0 <= i < self@.len() ==> (#[trigger] positions@[i])@ == self@[i].position,
    {
        let n = self.entities.len();
        let mut positions: Vec<Vec2> = Vec::new();
        let mut i: usize = 0;
        while i < n
            invariant
                n == self.entities@.len(),
                i <= n,
                positions@.len() == i,
                forall|j: int| 0 <= j < i ==> (#[trigger] positions@[j])@ == self@[j].position,
            decreases n - i,
        {
            positions.push(self.entities[i].position);
            i += 1;
        }
        positions
    }
}

} // verus!
