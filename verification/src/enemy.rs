//! An invader: it descends steadily and bounces between the side walls.

use vstd::prelude::*;
use crate::fixed::{scale, scaled, store, stored};
use crate::scene::Draw;

verus! {

/// The scale at which an invader's sprite is shown, in percent.
pub const ENEMY_SCALE: i32 = 8;

/// How far below its box an invader's sprite is anchored, in units. The
/// sprite is drawn upside down from there; the box is not moved with it.
pub const SPRITE_DROP: i32 = 3500;

/// An invader. Its bounding box is its sprite's native size at its scale.
#[derive(Clone, Copy, Debug, PartialEq, Eq, Structural)]
pub struct Enemy {
    /// Left edge.
    pub x: i32,
    /// Top edge.
    pub y: i32,
    /// Downward speed per frame.
    pub speed: i32,
    /// Sideways speed per frame; its sign is the direction.
    pub horizontal_speed: i32,
    /// Native width of the sprite, in pixels.
    pub sprite_width: u16,
    /// Native height of the sprite, in pixels.
    pub sprite_height: u16,
    pub is_dead: bool,
    /// Scale of the sprite, in percent.
    pub scale_factor: i32,
}

impl Enemy {
    /// Width of the bounding box.
    pub open spec fn box_width(self) -> int {
        scaled(self.sprite_width, self.scale_factor)
    }

    /// Height of the bounding box.
    pub open spec fn box_height(self) -> int {
        scaled(self.sprite_height, self.scale_factor)
    }

    /// Whether the invader, standing at `x`, is past either side wall.
    pub open spec fn past_wall(self, x: int, screen_width: int) -> bool {
        x < 0 || x + self.box_width() > screen_width
    }

    /// The invader one frame later: moved down and sideways, and turned
    /// round if the move took it past a wall.
    pub open spec fn stepped(self, screen_width: int) -> Enemy {
        let x = stored(self.x + self.horizontal_speed);
        Enemy {
            x: x as i32,
            y: stored(self.y + self.speed) as i32,
            speed: self.speed,
            horizontal_speed: if self.past_wall(x, screen_width) {
                stored(-self.horizontal_speed) as i32
            } else {
                self.horizontal_speed
            },
            sprite_width: self.sprite_width,
            sprite_height: self.sprite_height,
            is_dead: self.is_dead,
            scale_factor: self.scale_factor,
        }
    }

    /// The same invader, shot or landed.
    pub open spec fn killed(self) -> Enemy {
        Enemy {
            x: self.x,
            y: self.y,
            speed: self.speed,
            horizontal_speed: self.horizontal_speed,
            sprite_width: self.sprite_width,
            sprite_height: self.sprite_height,
            is_dead: true,
            scale_factor: self.scale_factor,
        }
    }

    /// The same invader with another downward speed.
    pub open spec fn with_speed(self, speed: i32) -> Enemy {
        Enemy {
            x: self.x,
            y: self.y,
            speed,
            horizontal_speed: self.horizontal_speed,
            sprite_width: self.sprite_width,
            sprite_height: self.sprite_height,
            is_dead: self.is_dead,
            scale_factor: self.scale_factor,
        }
    }

    /// A live invader at `(x, y)` whose sprite measures `sprite_width` by
    /// `sprite_height` pixels.
    pub fn new(
        x: i32,
        y: i32,
        speed: i32,
        horizontal_speed: i32,
        sprite_width: u16,
        sprite_height: u16,
    ) -> (e: Enemy)
        ensures
            e == (Enemy {
                x,
                y,
                speed,
                horizontal_speed,
                sprite_width,
                sprite_height,
                is_dead: false,
                scale_factor: ENEMY_SCALE,
            }),
    {
        Enemy {
            x,
            y,
            speed,
            horizontal_speed,
            sprite_width,
            sprite_height,
            is_dead: false,
            scale_factor: ENEMY_SCALE,
        }
    }

    /// Width of the bounding box, in units.
    pub fn width(&self) -> (w: i64)
        ensures
            w == self.box_width(),
            -0x8000_0000_0000 <= w <= 0x8000_0000_0000,
    {
        scale(self.sprite_width, self.scale_factor)
    }

    /// Height of the bounding box, in units.
    pub fn height(&self) -> (h: i64)
        ensures
            h == self.box_height(),
            -0x8000_0000_0000 <= h <= 0x8000_0000_0000,
    {
        scale(self.sprite_height, self.scale_factor)
    }

    /// The sprite that shows the invader: anchored below the box and flipped
    /// top to bottom.
    pub open spec fn drawn(self) -> Draw {
        Draw::Invader {
            x: self.x,
            y: stored(self.y + SPRITE_DROP) as i32,
            scale_x: self.scale_factor,
            scale_y: stored(-self.scale_factor) as i32,
        }
    }

    /// What is to be drawn for the invader.
    pub fn draw(&self) -> (picture: Draw)
        ensures
            picture == self.drawn(),
    {
        Draw::Invader {
            x: self.x,
            y: store(self.y as i64 + SPRITE_DROP as i64),
            scale_x: self.scale_factor,
            scale_y: store(-(self.scale_factor as i64)),
        }
    }

    /// Moves the invader by one frame on a screen `screen_width` units wide.
    pub fn update(&mut self, screen_width: i32)
        ensures
            *final(self) == old(self).stepped(screen_width as int),
    {
        self.y = store(self.y as i64 + self.speed as i64);
        self.x = store(self.x as i64 + self.horizontal_speed as i64);
        let right: i64 = self.x as i64 + self.width();
        if self.x < 0 || right > screen_width as i64 {
            self.horizontal_speed = store(-(self.horizontal_speed as i64));
        }
    }
}

} // verus!
