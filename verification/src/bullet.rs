//! A shot fired by the ship: it flies straight up until it leaves the screen
//! or meets an invader.

use vstd::prelude::*;
use crate::enemy::Enemy;
use crate::fixed::{boxes_overlap, store, stored};
use crate::scene::Draw;

verus! {

/// Width of every shot, in units.
pub const BULLET_WIDTH: i32 = 500;

/// Height of every shot, in units.
pub const BULLET_HEIGHT: i32 = 1000;

/// A shot, by its box, its speed and whether it still flies.
#[derive(Clone, Copy, Debug, PartialEq, Eq, Structural)]
pub struct Bullet {
    /// Left edge.
    pub x: i32,
    /// Top edge.
    pub y: i32,
    pub width: i32,
    pub height: i32,
    /// Upward speed per frame.
    pub speed: i32,
    /// A shot that is no longer active is waiting to be removed.
    pub is_active: bool,
}

impl Bullet {
    /// The same shot at height `y`, active or not.
    pub open spec fn placed(self, y: int, is_active: bool) -> Bullet {
        Bullet {
            x: self.x,
            y: y as i32,
            width: self.width,
            height: self.height,
            speed: self.speed,
            is_active,
        }
    }

    /// The shot one frame later. An active shot rises by its speed and goes
    /// out once its top edge is above the screen; an inactive one stays as
    /// it is.
    pub open spec fn advanced(self) -> Bullet {
        if self.is_active {
            let y = stored(self.y - self.speed);
            self.placed(y, y >= 0)
        } else {
            self
        }
    }

    /// The same shot, spent.
    pub open spec fn spent(self) -> Bullet {
        self.placed(self.y as int, false)
    }

    /// Whether the shot's box and the invader's box overlap.
    pub open spec fn overlaps(self, enemy: Enemy) -> bool {
        boxes_overlap(
            self.x as int,
            self.y as int,
            self.width as int,
            self.height as int,
            enemy.x as int,
            enemy.y as int,
            enemy.box_width(),
            enemy.box_height(),
        )
    }

    /// An active shot of the standard size with its top-left corner at
    /// `(x, y)`.
    pub fn new(x: i32, y: i32, speed: i32) -> (b: Bullet)
        ensures
            b == (Bullet {
                x,
                y,
                width: BULLET_WIDTH,
                height: BULLET_HEIGHT,
                speed,
                is_active: true,
            }),
    {
        Bullet { x, y, width: BULLET_WIDTH, height: BULLET_HEIGHT, speed, is_active: true }
    }

    /// Moves the shot by one frame.
    pub fn update(&mut self)
        ensures
            *final(self) == old(self).advanced(),
            !old(self).is_active ==> *final(self) == *old(self),
    {
        if self.is_active {
            self.y = store(self.y as i64 - self.speed as i64);
            if self.y < 0 {
                self.is_active = false;
            }
        }
    }

    /// The box that shows the shot.
    pub open spec fn drawn(self) -> Draw {
        Draw::Shot { x: self.x, y: self.y, width: self.width, height: self.height }
    }

    /// What is to be drawn for the shot: its box while it is active, and
    /// nothing after that.
    pub fn draw(&self) -> (picture: Option<Draw>)
        ensures
            picture == if self.is_active {
                Some(self.drawn())
            } else {
                None
            },
    {
        if self.is_active {
            Some(Draw::Shot { x: self.x, y: self.y, width: self.width, height: self.height })
        } else {
            None
        }
    }

    /// Whether the shot's box and the invader's box overlap. Boxes that only
    /// share an edge do not.
    pub fn collides_with(&self, enemy: &Enemy) -> (hit: bool)
        ensures
            hit == self.overlaps(*enemy),
    {
        let bullet_right: i64 = self.x as i64 + self.width as i64;
        let bullet_bottom: i64 = self.y as i64 + self.height as i64;
        let enemy_right: i64 = enemy.x as i64 + enemy.width();
        let enemy_bottom: i64 = enemy.y as i64 + enemy.height();
        (self.x as i64) < enemy_right && bullet_right > enemy.x as i64
            && (self.y as i64) < enemy_bottom && bullet_bottom > enemy.y as i64
    }
}

} // verus!
