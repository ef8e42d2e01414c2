//! The ship: it moves along the bottom of the screen and fires shots.

use vstd::prelude::*;
use crate::bullet::{Bullet, BULLET_HEIGHT, BULLET_WIDTH};
use crate::fixed::{scale, scaled, store, stored};
use crate::scene::Draw;

verus! {

/// The scale at which the ship's sprite is shown, in percent.
pub const PLAYER_SCALE: i32 = 10;

/// How far right of the ship's left edge a shot starts, in units.
pub const MUZZLE_OFFSET: i32 = 2200;

/// Upward speed of a shot, in units per frame.
pub const SHOT_SPEED: i32 = 500;

/// The ship.
#[derive(Clone, Copy, Debug, PartialEq, Eq, Structural)]
pub struct Player {
    /// Left edge.
    pub x: i32,
    /// Top edge.
    pub y: i32,
    /// Sideways speed per frame while a direction key is held.
    pub speed: i32,
    /// Native width of the sprite, in pixels.
    pub sprite_width: u16,
    /// Scale of the sprite, in percent.
    pub scale_factor: i32,
}

impl Player {
    /// Width of the ship as shown.
    pub open spec fn box_width(self) -> int {
        scaled(self.sprite_width, self.scale_factor)
    }

    /// The same ship with its left edge at `x`.
    pub open spec fn at(self, x: int) -> Player {
        Player {
            x: x as i32,
            y: self.y,
            speed: self.speed,
            sprite_width: self.sprite_width,
            scale_factor: self.scale_factor,
        }
    }

    /// Where the left edge is after the keys have been applied, before the
    /// ship is held to the screen.
    pub open spec fn steered(self, left: bool, right: bool) -> int {
        let x1 = if left {
            stored(self.x - self.speed)
        } else {
            self.x as int
        };
        if right {
            stored(x1 + self.speed)
        } else {
            x1
        }
    }

    /// The ship one frame later: moved by the keys that are held, then held
    /// to the screen. A ship past the left wall stands at 0; otherwise one
    /// past the right wall stands with its right edge on the wall.
    pub open spec fn moved(self, left: bool, right: bool, screen_width: int) -> Player {
        let x = self.steered(left, right);
        if x < 0 {
            self.at(0)
        } else if x + self.box_width() > screen_width {
            self.at(stored(screen_width - self.box_width()))
        } else {
            self.at(x)
        }
    }

    /// The shot that the ship fires from where it stands.
    pub open spec fn shot(self) -> Bullet {
        Bullet {
            x: stored(self.x + MUZZLE_OFFSET) as i32,
            y: self.y,
            width: BULLET_WIDTH,
            height: BULLET_HEIGHT,
            speed: SHOT_SPEED,
            is_active: true,
        }
    }

    /// A ship at `(x, y)` whose sprite is `sprite_width` pixels wide.
    pub fn new(x: i32, y: i32, speed: i32, sprite_width: u16) -> (p: Player)
        ensures
            p == (Player { x, y, speed, sprite_width, scale_factor: PLAYER_SCALE }),
    {
        Player { x, y, speed, sprite_width, scale_factor: PLAYER_SCALE }
    }

    /// Moves the ship by one frame. `left` and `right` say which direction
    /// keys are held; with both held the ship stays.
    pub fn update(&mut self, left: bool, right: bool, screen_width: i32)
        ensures
            *final(self) == old(self).moved(left, right, screen_width as int),
    {
        let width: i64 = scale(self.sprite_width, self.scale_factor);
        if left {
            self.x = store(self.x as i64 - self.speed as i64);
        }
        if right {
            self.x = store(self.x as i64 + self.speed as i64);
        }
        if self.x < 0 {
            self.x = 0;
        } else if self.x as i64 + width > screen_width as i64 {
            self.x = store(screen_width as i64 - width);
        }
    }

    /// The sprite that shows the ship. It is always drawn at `PLAYER_SCALE`.
    pub open spec fn drawn(self) -> Draw {
        Draw::Ship { x: self.x, y: self.y, scale: PLAYER_SCALE }
    }

    /// What is to be drawn for the ship.
    pub fn draw(&self) -> (picture: Draw)
        ensures
            picture == self.drawn(),
    {
        Draw::Ship { x: self.x, y: self.y, scale: PLAYER_SCALE }
    }

    /// Fires a shot. The caller enforces the pause between shots.
    pub fn shoot(&self) -> (b: Bullet)
        ensures
            b == self.shot(),
    {
        Bullet::new(store(self.x as i64 + MUZZLE_OFFSET as i64), self.y, SHOT_SPEED)
    }
}

} // verus!
