//! The game itself: the ship, the shots, the invaders and the counters, and
//! what one frame does to them in each of the three states.

use vstd::prelude::*;
use crate::bullet::Bullet;
use crate::combat::{
    active_bullets, descend_all, descent, is_active, is_alive, landings, live_enemies, strike_all,
    struck,
};
use crate::enemy::Enemy;
use crate::fixed::{div_toward_zero, store, stored, toward_zero};
use crate::player::Player;
use crate::wave::{grid, spawn_grid, toss};

verus! {

/// The shortest time between two shots, in milliseconds. A shot is allowed
/// only when more than this has passed since the last one.
pub const SHOT_COOLDOWN: u64 = 300;

/// The lifes that a game and every wave start with.
pub const START_LIFES: i32 = 3;

/// What one invader shot is worth.
pub const HIT_SCORE: i32 = 10;

/// The ship's sideways speed, in units per frame.
pub const PLAYER_SPEED: i32 = 1500;

/// The room that is kept for the ship when it is placed, in units.
pub const PLAYER_SIZE: i32 = 5000;

/// How far above the bottom edge the ship's room ends, in units.
pub const PLAYER_MARGIN: i32 = 5000;

/// The most columns a wave can have.
pub const MAX_COLUMNS: i32 = 9;

/// The most rows a wave can have.
pub const MAX_ROWS: i32 = 3;

/// The three states of a game.
#[derive(Clone, Copy, Debug, PartialEq, Eq, Structural)]
pub enum GameState {
    Playing,
    Paused,
    GameOver,
}

/// What the game is told of the world for one frame: which keys are held,
/// the time, and the sizes of the screen and of the sprites.
#[derive(Clone, Copy, Debug, PartialEq, Eq, Structural)]
pub struct Frame {
    pub left: bool,
    pub right: bool,
    pub fire: bool,
    /// The key that pauses a running game and resumes a paused one.
    pub pause: bool,
    pub reset: bool,
    /// Milliseconds since the program started.
    pub now: u64,
    /// Width of the screen, in units.
    pub screen_width: i32,
    /// Height of the screen, in units.
    pub screen_height: i32,
    /// Native width of the ship's sprite, in pixels.
    pub player_sprite_width: u16,
    /// Native width of an invader's sprite, in pixels.
    pub enemy_sprite_width: u16,
    /// Native height of an invader's sprite, in pixels.
    pub enemy_sprite_height: u16,
}

/// A game: the ship, the shots in flight, the invaders of the current wave
/// and the counters.
#[derive(Clone, Debug)]
pub struct Game {
    pub player: Player,
    pub bullets: Vec<Bullet>,
    pub enemys: Vec<Enemy>,
    pub round: i32,
    pub score: i32,
    /// When the last shot was fired, in milliseconds since the program
    /// started.
    pub last_shot_time: u64,
    pub state: GameState,
    pub lifes: i32,
}

/// A game as a mathematical value.
pub struct GameView {
    pub player: Player,
    pub bullets: Seq<Bullet>,
    pub enemys: Seq<Enemy>,
    pub round: int,
    pub score: int,
    pub last_shot_time: nat,
    pub state: GameState,
    pub lifes: int,
}

/// Columns of the wave of round `round`: three per round, up to nine.
pub open spec fn wave_columns(round: int) -> int {
    if round > 3 {
        MAX_COLUMNS as int
    } else {
        3 * round
    }
}

/// Rows of the wave of round `round`: one per round, up to three.
pub open spec fn wave_rows(round: int) -> int {
    if round > 3 {
        MAX_ROWS as int
    } else {
        round
    }
}

/// Downward speed of the invaders of round `round`: 20 units per frame and
/// 10 more for every round.
pub open spec fn wave_speed(round: int) -> i32 {
    stored(20 + 10 * round) as i32
}

/// Gives an invader the speed of round `round`.
pub open spec fn at_wave_speed(round: int) -> spec_fn(Enemy) -> Enemy {
    |e: Enemy| e.with_speed(wave_speed(round))
}

/// The ship as a game places it: centred as if it were `PLAYER_SIZE` wide,
/// with room for it and a margin below.
pub open spec fn fresh_player(screen_width: i32, screen_height: i32, sprite_width: u16) -> Player {
    Player {
        x: toward_zero(screen_width - PLAYER_SIZE, 2) as i32,
        y: stored(screen_height - PLAYER_SIZE - PLAYER_MARGIN) as i32,
        speed: PLAYER_SPEED,
        sprite_width,
        scale_factor: crate::player::PLAYER_SCALE,
    }
}

impl GameView {
    /// What holds of every game between frames: no counter is negative,
    /// there are never more than `START_LIFES` lifes, and a game that is not
    /// over has a life left.
    pub open spec fn wf(self) -> bool {
        &&& 0 <= self.round
        &&& 0 <= self.score
        &&& 0 <= self.lifes <= START_LIFES
        &&& self.state != GameState::GameOver ==> 1 <= self.lifes
    }

    /// Whether no spent shot and no dead invader is left over.
    pub open spec fn is_clean(self) -> bool {
        &&& forall|i: int| 0 <= i < self.bullets.len() ==> (#[trigger] self.bullets[i]).is_active
        &&& forall|i: int| 0 <= i < self.enemys.len() ==> !(#[trigger] self.enemys[i]).is_dead
    }

    /// Whether the ship fires in this frame: the key is held and more than
    /// `SHOT_COOLDOWN` has passed since the last shot.
    pub open spec fn fires(self, frame: Frame) -> bool {
        frame.fire && frame.now - self.last_shot_time > SHOT_COOLDOWN
    }

    /// The shots at the start of the volley: those in flight and, if the
    /// ship fires, a new one from where the ship has moved to.
    pub open spec fn loaded(self, frame: Frame) -> Seq<Bullet> {
        if self.fires(frame) {
            self.bullets.push(
                self.player.moved(frame.left, frame.right, frame.screen_width as int).shot(),
            )
        } else {
            self.bullets
        }
    }

    /// The volley of this frame, every shot having had its turn.
    pub open spec fn volley(self, frame: Frame) -> crate::combat::Volley {
        struck(self.loaded(frame), self.enemys, self.loaded(frame).len() as int)
    }

    /// How many invaders land in this frame.
    pub open spec fn lost(self, frame: Frame) -> nat {
        landings(self.volley(frame).enemies, frame.screen_height as int)
    }

    /// How many lifes this frame takes: one for each invader that lands
    /// while the game runs, and none once the last life is gone. A game
    /// that does not run loses none.
    pub open spec fn taken(self, frame: Frame) -> int {
        if self.state != GameState::Playing {
            0
        } else if self.lost(frame) >= self.lifes {
            self.lifes
        } else {
            self.lost(frame) as int
        }
    }

    /// A running game after the moves of one frame: the ship steers, fires
    /// if it may, the shots strike, the invaders descend or land, and what
    /// is spent is cleared away. Each landing takes a life until none is
    /// left; with the last life the game is over, and invaders that land
    /// after that take nothing. A game that is not over is paused if the
    /// pause key is held.
    pub open spec fn played(self, frame: Frame) -> GameView {
        let volley = self.volley(frame);
        let lost = self.lost(frame);
        GameView {
            player: self.player.moved(frame.left, frame.right, frame.screen_width as int),
            bullets: volley.bullets.filter(is_active()),
            enemys: volley.enemies.map_values(
                descent(frame.screen_width as int, frame.screen_height as int),
            ).filter(is_alive()),
            round: self.round,
            score: self.score + HIT_SCORE * volley.hits,
            last_shot_time: if self.fires(frame) {
                frame.now as nat
            } else {
                self.last_shot_time
            },
            state: if lost >= self.lifes {
                GameState::GameOver
            } else if frame.pause {
                GameState::Paused
            } else {
                GameState::Playing
            },
            lifes: if lost >= self.lifes {
                0
            } else {
                self.lifes - lost
            },
        }
    }

    /// The game with the next round begun: the round counted, the lifes
    /// restored, the shots cleared, and `wave` brought in at the speed of
    /// the new round.
    pub open spec fn with_wave(self, wave: Seq<Enemy>) -> GameView {
        GameView {
            player: self.player,
            bullets: Seq::empty(),
            enemys: wave.map_values(at_wave_speed(self.round + 1)),
            round: self.round + 1,
            score: self.score,
            last_shot_time: self.last_shot_time,
            state: self.state,
            lifes: START_LIFES as int,
        }
    }

    /// The wave that follows the current round, drifting right or left.
    pub open spec fn next_grid(self, frame: Frame, rightward: bool) -> Seq<Enemy> {
        grid(
            frame.screen_width,
            wave_columns(self.round + 1) as i32,
            wave_rows(self.round + 1) as i32,
            frame.enemy_sprite_width,
            frame.enemy_sprite_height,
            rightward,
        )
    }

    /// The game started over: no shots, no invaders, the counters at their
    /// first values and the ship placed anew. The time of the last shot
    /// stays.
    pub open spec fn restarted(self, frame: Frame) -> GameView {
        GameView {
            player: fresh_player(
                frame.screen_width,
                frame.screen_height,
                frame.player_sprite_width,
            ),
            bullets: Seq::empty(),
            enemys: Seq::empty(),
            round: 0,
            score: 0,
            last_shot_time: self.last_shot_time,
            state: GameState::Playing,
            lifes: START_LIFES as int,
        }
    }

    /// The same game in another state.
    pub open spec fn in_state(self, state: GameState) -> GameView {
        GameView {
            player: self.player,
            bullets: self.bullets,
            enemys: self.enemys,
            round: self.round,
            score: self.score,
            last_shot_time: self.last_shot_time,
            state,
            lifes: self.lifes,
        }
    }

    /// The game after the moves of one frame, before any new wave: a running
    /// game plays the frame, a paused game waits for the pause key and a
    /// finished one for the reset key.
    pub open spec fn settled(self, frame: Frame) -> GameView {
        match self.state {
            GameState::Playing => self.played(frame),
            GameState::Paused => if frame.pause {
                self.in_state(GameState::Playing)
            } else {
                self
            },
            GameState::GameOver => if frame.reset {
                self.restarted(frame)
            } else {
                self
            },
        }
    }

    /// Whether this frame ends the round: the game was running and the
    /// frame leaves no invader.
    pub open spec fn wave_due(self, frame: Frame) -> bool {
        self.state == GameState::Playing && self.played(frame).enemys.len() == 0
    }

    /// The game one frame later, where a wave that has to be brought in
    /// drifts right if `rightward` and left if not.
    pub open spec fn next(self, frame: Frame, rightward: bool) -> GameView {
        let after = self.settled(frame);
        if self.wave_due(frame) {
            after.with_wave(after.next_grid(frame, rightward))
        } else {
            after
        }
    }
}

impl View for Game {
    type V = GameView;

    open spec fn view(&self) -> GameView {
        GameView {
            player: self.player,
            bullets: self.bullets@,
            enemys: self.enemys@,
            round: self.round as int,
            score: self.score as int,
            last_shot_time: self.last_shot_time as nat,
            state: self.state,
            lifes: self.lifes as int,
        }
    }
}

/// Places the ship for a screen of the given size.
pub fn new_player(screen_width: i32, screen_height: i32, sprite_width: u16) -> (p: Player)
    ensures
        p == fresh_player(screen_width, screen_height, sprite_width),
{
    let x: i64 = div_toward_zero(screen_width as i64 - PLAYER_SIZE as i64, 2);
    let y: i32 = store(screen_height as i64 - PLAYER_SIZE as i64 - PLAYER_MARGIN as i64);
    Player::new(x as i32, y, PLAYER_SPEED, sprite_width)
}

/// The numbers of columns and of rows of the wave of round `round`. Rounds
/// are counted from 0.
pub fn wave_shape(round: i32) -> (shape: (i32, i32))
    requires
        0 <= round,
    ensures
        shape.0 == wave_columns(round as int),
        shape.1 == wave_rows(round as int),
{
    if round > 3 {
        (MAX_COLUMNS, MAX_ROWS)
    } else {
        (3 * round, round)
    }
}

impl Game {
    /// Whether the counters have room for one more frame: every shot may
    /// score and a round may begin.
    pub open spec fn has_room(&self) -> bool {
        &&& self.score + HIT_SCORE * (self.bullets@.len() + 1) <= i32::MAX
        &&& self.round < i32::MAX
    }

    /// Whether the game can take a frame: it is well formed and, while it
    /// runs, its counters have room.
    pub open spec fn ready(&self) -> bool {
        &&& self@.wf()
        &&& self.state == GameState::Playing ==> self.has_room()
    }

    /// A game about to start: round 0, no score, all lifes, an empty
    /// screen, and the ship placed for the frame's screen.
    pub fn new(frame: &Frame) -> (game: Game)
        ensures
            game@ == (GameView {
                player: fresh_player(
                    frame.screen_width,
                    frame.screen_height,
                    frame.player_sprite_width,
                ),
                bullets: Seq::empty(),
                enemys: Seq::empty(),
                round: 0,
                score: 0,
                last_shot_time: frame.now as nat,
                state: GameState::Playing,
                lifes: START_LIFES as int,
            }),
            game.ready(),
    {
        Game {
            player: new_player(frame.screen_width, frame.screen_height, frame.player_sprite_width),
            bullets: Vec::new(),
            enemys: Vec::new(),
            round: 0,
            score: 0,
            last_shot_time: frame.now,
            state: GameState::Playing,
            lifes: START_LIFES,
        }
    }

    /// Says whether `update` may be called.
    pub fn can_update(&self) -> (ok: bool)
        ensures
            ok == self.ready(),
    {
        let wf: bool = 0 <= self.round && 0 <= self.score && 0 <= self.lifes && self.lifes
            <= START_LIFES && (self.lifes >= 1 || self.state == GameState::GameOver);
        let room: bool = self.round < i32::MAX && self.bullets.len() < 0x0fff_ffff
            && self.score as i64 + (HIT_SCORE as i64) * (self.bullets.len() as i64 + 1)
            <= 0x7fff_ffff;
        wf && (self.state != GameState::Playing || room)
    }

    /// Starts the game over, from any state.
    pub fn reset_game(&mut self, frame: &Frame)
        ensures
            final(self)@ == old(self)@.restarted(*frame),
            final(self).ready(),
    {
        self.enemys.clear();
        self.bullets.clear();
        self.round = 0;
        self.lifes = START_LIFES;
        self.score = 0;
        self.player = new_player(
            frame.screen_width,
            frame.screen_height,
            frame.player_sprite_width,
        );
        self.state = GameState::Playing;
    }

    /// Plays one frame of a running game, up to the clearing away, and
    /// returns how many lifes it took.
    fn play(&mut self, frame: &Frame) -> (taken: i32)
        requires
            old(self).ready(),
            old(self).state == GameState::Playing,
        ensures
            final(self)@ == old(self)@.played(*frame),
            final(self).round == old(self).round,
            taken == old(self)@.taken(*frame),
    {
        if frame.pause {
            self.state = GameState::Paused;
        }
        self.player.update(frame.left, frame.right, frame.screen_width);
        if frame.fire && frame.now > self.last_shot_time && frame.now - self.last_shot_time
            > SHOT_COOLDOWN {
            let bullet = self.player.shoot();
            self.bullets.push(bullet);
            self.last_shot_time = frame.now;
        }
        let ghost room = old(self).bullets@.len() + 1;
        let hits: usize = strike_all(&mut self.bullets, &mut self.enemys);
        assert(0 <= HIT_SCORE * hits <= HIT_SCORE * room) by (nonlinear_arith)
            requires
                0 <= hits <= room,
        ;
        self.score = self.score + HIT_SCORE * (hits as i32);
        let lost: usize = descend_all(&mut self.enemys, frame.screen_width, frame.screen_height);
        let before: i32 = self.lifes;
        if lost >= before as usize {
            self.lifes = 0;
            self.state = GameState::GameOver;
        } else {
            self.lifes = before - (lost as i32);
        }
        self.bullets = active_bullets(&self.bullets);
        self.enemys = live_enemies(&self.enemys);
        before - self.lifes
    }

    /// Begins the next round with `wave`.
    fn start_wave(&mut self, wave: Vec<Enemy>)
        requires
            0 <= old(self).round < i32::MAX,
        ensures
            final(self)@ == old(self)@.with_wave(wave@),
    {
        self.round = self.round + 1;
        self.lifes = START_LIFES;
        self.bullets = Vec::new();
        let speed: i32 = store(20 + 10 * (self.round as i64));
        let mut wave = wave;
        let ghost start = wave@;
        let mut i: usize = 0;
        while i < wave.len()
            invariant
                i <= wave@.len(),
                wave@.len() == start.len(),
                speed == wave_speed(self.round as int),
                forall|k: int| 0 <= k < i ==> wave@[k] == start[k].with_speed(speed),
                forall|k: int| i <= k < wave@.len() ==> wave@[k] == start[k],
            decreases wave@.len() - i,
        {
            let mut enemy: Enemy = wave[i];
            enemy.speed = speed;
            wave.set(i, enemy);
            i += 1;
        }
        assert(wave@ =~= start.map_values(at_wave_speed(self.round as int)));
        self.enemys = wave;
    }

    /// Begins the next round with the wave that is due, drifting right if
    /// `rightward` and left if not.
    fn bring_wave(&mut self, frame: &Frame, rightward: bool)
        requires
            0 <= old(self).round < i32::MAX,
        ensures
            final(self)@ == old(self)@.with_wave(old(self)@.next_grid(*frame, rightward)),
    {
        let shape: (i32, i32) = wave_shape(self.round + 1);
        let wave = spawn_grid(
            frame.screen_width,
            shape.0,
            shape.1,
            frame.enemy_sprite_width,
            frame.enemy_sprite_height,
            rightward,
        );
        self.start_wave(wave);
    }

    /// Makes the moves of one frame. Returns whether the round has ended,
    /// and how many lifes the frame took.
    fn settle(&mut self, frame: &Frame) -> (outcome: (bool, i32))
        requires
            old(self).ready(),
        ensures
            final(self)@ == old(self)@.settled(*frame),
            outcome.0 == old(self)@.wave_due(*frame),
            outcome.1 == old(self)@.taken(*frame),
            outcome.0 ==> 0 <= final(self).round < i32::MAX,
            final(self)@.wf(),
    {
        match self.state {
            GameState::Playing => {
                let taken: i32 = self.play(frame);
                (self.enemys.len() == 0, taken)
            },
            GameState::Paused => {
                if frame.pause {
                    self.state = GameState::Playing;
                }
                (false, 0)
            },
            GameState::GameOver => {
                if frame.reset {
                    self.reset_game(frame);
                }
                (false, 0)
            },
        }
    }

    /// Advances the game by one frame, where a wave that has to be brought
    /// in drifts right if `rightward` and left if not. Returns how many
    /// lifes the frame took.
    pub fn update_with(&mut self, frame: &Frame, rightward: bool) -> (taken: i32)
        requires
            old(self).ready(),
        ensures
            final(self)@ == old(self)@.next(*frame, rightward),
            final(self)@.wf(),
            taken == old(self)@.taken(*frame),
    {
        let outcome: (bool, i32) = self.settle(frame);
        if outcome.0 {
            self.bring_wave(frame, rightward);
        }
        outcome.1
    }

    /// Advances the game by one frame. Where a wave has to be brought in,
    /// the toss of a coin decides which way it drifts. Returns how many
    /// lifes the frame took.
    pub fn update(&mut self, frame: &Frame) -> (taken: i32)
        requires
            old(self).ready(),
        ensures
            final(self)@ == old(self)@.next(*frame, true) || final(self)@ == old(self)@.next(
                *frame,
                false,
            ),
            final(self)@.wf(),
            taken == old(self)@.taken(*frame),
    {
        let outcome: (bool, i32) = self.settle(frame);
        if outcome.0 {
            let rightward: bool = toss();
            self.bring_wave(frame, rightward);
        }
        outcome.1
    }
}

} // verus!
