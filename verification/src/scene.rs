//! What is to be drawn for a frame, as a list of plain commands in the order
//! in which they are to be carried out. Positions and sizes are in units;
//! scales are in percent, and a negative scale flips the picture.

use vstd::prelude::*;
use crate::bullet::Bullet;
use crate::combat::{filter_take_next, is_active};
use crate::enemy::Enemy;
use crate::fixed::{div_toward_zero, store, stored, toward_zero};
use crate::game::{Game, GameState};

verus! {

/// Where the three counters are written, from the left edge, in units.
pub const TEXT_LEFT: i32 = 1000;

/// Where the score is written, from the top edge, in units.
pub const SCORE_TOP: i32 = 1000;

/// Where the round is written, from the top edge, in units.
pub const ROUND_TOP: i32 = 3000;

/// Where the lifes are written, from the top edge, in units.
pub const LIFES_TOP: i32 = 5000;

/// How far below the middle of the screen the final score is written, in
/// units.
pub const FINAL_SCORE_DROP: i32 = 5000;

/// A line of text on the screen, by what it says.
#[derive(Clone, Copy, Debug, PartialEq, Eq, Structural)]
pub enum Label {
    /// The score while the game runs.
    Score(i32),
    Round(i32),
    Lifes(i32),
    Paused,
    GameOver,
    /// The score of a finished game.
    FinalScore(i32),
}

/// One thing to draw.
#[derive(Clone, Copy, Debug, PartialEq, Eq, Structural)]
pub enum Draw {
    /// Wipe the screen.
    Clear,
    /// The background picture, at the top-left corner.
    Background,
    /// A shot: a filled red box.
    Shot { x: i32, y: i32, width: i32, height: i32 },
    /// An invader's sprite.
    Invader { x: i32, y: i32, scale_x: i32, scale_y: i32 },
    /// The ship's sprite, at the same scale both ways.
    Ship { x: i32, y: i32, scale: i32 },
    /// A line of white text.
    Text { label: Label, x: i32, y: i32 },
}

/// How a shot is drawn, as a map on shots.
pub open spec fn shot_picture() -> spec_fn(Bullet) -> Draw {
    |b: Bullet| b.drawn()
}

/// How an invader is drawn, as a map on invaders.
pub open spec fn invader_picture() -> spec_fn(Enemy) -> Draw {
    |e: Enemy| e.drawn()
}

/// A line of text at `(x, y)`.
pub open spec fn text(label: Label, x: int, y: int) -> Draw {
    Draw::Text { label, x: x as i32, y: y as i32 }
}

impl Game {
    /// The three counters of a running game, one below the other.
    pub open spec fn counters(&self) -> Seq<Draw> {
        seq![
            text(Label::Score(self.score), TEXT_LEFT as int, SCORE_TOP as int),
            text(Label::Round(self.round), TEXT_LEFT as int, ROUND_TOP as int),
            text(Label::Lifes(self.lifes), TEXT_LEFT as int, LIFES_TOP as int),
        ]
    }

    /// What is drawn for the game as it stands. A running game is drawn
    /// whole: the background, the active shots, the invaders, the counters
    /// and last the ship. A paused game only writes so over what is on the
    /// screen, and a finished one writes so and, below it, the score.
    pub open spec fn scene(&self, screen_width: i32, screen_height: i32) -> Seq<Draw> {
        let cx = toward_zero(screen_width as int, 2);
        let cy = toward_zero(screen_height as int, 2);
        match self.state {
            GameState::Playing => seq![Draw::Clear, Draw::Background] + self.bullets@.filter(
                is_active(),
            ).map_values(shot_picture()) + self.enemys@.map_values(invader_picture())
                + self.counters() + seq![self.player.drawn()],
            GameState::Paused => seq![text(Label::Paused, cx, cy)],
            GameState::GameOver => seq![
                text(Label::GameOver, cx, cy),
                text(Label::FinalScore(self.score), cx, stored(cy + FINAL_SCORE_DROP)),
            ],
        }
    }

    /// Lists what is to be drawn for the game as it stands, on a screen of
    /// the given size. The game is not changed.
    pub fn draw(&self, screen_width: i32, screen_height: i32) -> (out: Vec<Draw>)
        ensures
            out@ == self.scene(screen_width, screen_height),
    {
        let cx: i32 = div_toward_zero(screen_width as i64, 2) as i32;
        let cy: i32 = div_toward_zero(screen_height as i64, 2) as i32;
        let mut out: Vec<Draw> = Vec::new();
        match self.state {
            GameState::Playing => {
                out.push(Draw::Clear);
                out.push(Draw::Background);
                let ghost head = out@;
                assert(head =~= seq![Draw::Clear, Draw::Background]);
                let mut i: usize = 0;
                proof {
                    reveal(Seq::filter);
                    assert(self.bullets@.take(0) =~= Seq::<Bullet>::empty());
                    assert(out@ =~= head + self.bullets@.take(0).filter(is_active()).map_values(
                        shot_picture(),
                    ));
                }
                while i < self.bullets.len()
                    invariant
                        i <= self.bullets@.len(),
                        out@ == head + self.bullets@.take(i as int).filter(is_active()).map_values(
                            shot_picture(),
                        ),
                    decreases self.bullets@.len() - i,
                {
                    let ghost before = self.bullets@.take(i as int).filter(is_active());
                    proof {
                        filter_take_next(self.bullets@, is_active(), i as int);
                    }
                    match self.bullets[i].draw() {
                        Some(picture) => {
                            out.push(picture);
                            assert(out@ =~= head + before.push(self.bullets@[i as int]).map_values(
                                shot_picture(),
                            ));
                        },
                        None => {},
                    }
                    i += 1;
                }
                assert(self.bullets@.take(i as int) =~= self.bullets@);
                let ghost shots = out@;
                let mut j: usize = 0;
                assert(out@ =~= shots + self.enemys@.take(0).map_values(invader_picture()));
                while j < self.enemys.len()
                    invariant
                        j <= self.enemys@.len(),
                        out@ == shots + self.enemys@.take(j as int).map_values(invader_picture()),
                    decreases self.enemys@.len() - j,
                {
                    out.push(self.enemys[j].draw());
                    assert(out@ =~= shots + self.enemys@.take(j + 1).map_values(
                        invader_picture(),
                    ));
                    j += 1;
                }
                assert(self.enemys@.take(j as int) =~= self.enemys@);
                out.push(Draw::Text { label: Label::Score(self.score), x: TEXT_LEFT, y: SCORE_TOP });
                out.push(Draw::Text { label: Label::Round(self.round), x: TEXT_LEFT, y: ROUND_TOP });
                out.push(Draw::Text { label: Label::Lifes(self.lifes), x: TEXT_LEFT, y: LIFES_TOP });
                out.push(self.player.draw());
                assert(out@ =~= self.scene(screen_width, screen_height));
            },
            GameState::Paused => {
                out.push(Draw::Text { label: Label::Paused, x: cx, y: cy });
                assert(out@ =~= self.scene(screen_width, screen_height));
            },
            GameState::GameOver => {
                out.push(Draw::Text { label: Label::GameOver, x: cx, y: cy });
                out.push(
                    Draw::Text {
                        label: Label::FinalScore(self.score),
                        x: cx,
                        y: store(cy as i64 + FINAL_SCORE_DROP as i64),
                    },
                );
                assert(out@ =~= self.scene(screen_width, screen_height));
            },
        }
        out
    }
}

} // verus!
