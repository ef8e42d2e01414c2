//! Laying out a wave of invaders in a grid above the screen.

use vstd::prelude::*;
use vstd::arithmetic::div_mod::lemma_fundamental_div_mod_converse;
use crate::enemy::{Enemy, ENEMY_SCALE};
use crate::fixed::{div_toward_zero, scale, scaled, store, store_wide, stored, toward_zero};

verus! {

/// Vertical distance between two rows of a wave, in units.
pub const ROW_GAP: i32 = 5000;

/// Downward speed that a wave is laid out with, in units per frame.
pub const WAVE_DESCENT: i32 = 150;

/// Sideways speed of a wave, in units per frame.
pub const WAVE_DRIFT: i32 = 200;

/// The free width of the screen shared out evenly before, between and after
/// `columns` invaders, each `width` wide.
pub open spec fn column_gap(screen_width: int, width: int, columns: int) -> int {
    toward_zero(screen_width - width * columns, columns + 1)
}

/// The sideways speed of a wave that starts to the right, or to the left.
pub open spec fn drift(rightward: bool) -> i32 {
    if rightward {
        WAVE_DRIFT
    } else {
        (-WAVE_DRIFT) as i32
    }
}

/// The invader that stands in column `column` and row `row` of a wave, both
/// counted from 0. Columns are spread over the screen; row 0 stands one gap
/// above the top edge and each further row one gap lower.
pub open spec fn cell(
    screen_width: i32,
    columns: i32,
    sprite_width: u16,
    sprite_height: u16,
    rightward: bool,
    column: int,
    row: int,
) -> Enemy {
    let width = scaled(sprite_width, ENEMY_SCALE);
    let gap = column_gap(screen_width as int, width, columns as int);
    Enemy {
        x: stored((column + 1) * gap + column * width) as i32,
        y: stored((row - 1) * ROW_GAP) as i32,
        speed: WAVE_DESCENT,
        horizontal_speed: drift(rightward),
        sprite_width,
        sprite_height,
        is_dead: false,
        scale_factor: ENEMY_SCALE,
    }
}

/// How many invaders a wave of `columns` by `rows` holds.
pub open spec fn wave_size(columns: i32, rows: i32) -> nat {
    if columns <= 0 || rows <= 0 {
        0
    } else {
        (columns * rows) as nat
    }
}

/// A whole wave, column by column, each column from its top row down.
pub open spec fn grid(
    screen_width: i32,
    columns: i32,
    rows: i32,
    sprite_width: u16,
    sprite_height: u16,
    rightward: bool,
) -> Seq<Enemy> {
    Seq::new(
        wave_size(columns, rows),
        |k: int|
            cell(
                screen_width,
                columns,
                sprite_width,
                sprite_height,
                rightward,
                k / (rows as int),
                k % (rows as int),
            ),
    )
}

/// Lays out a wave of `num_x` columns by `num_y` rows for a screen
/// `screen_width` units wide, drifting right if `rightward` and left if not.
/// Without a column or without a row the wave is empty.
pub fn spawn_grid(
    screen_width: i32,
    num_x: i32,
    num_y: i32,
    sprite_width: u16,
    sprite_height: u16,
    rightward: bool,
) -> (enemies: Vec<Enemy>)
    ensures
        enemies@ == grid(screen_width, num_x, num_y, sprite_width, sprite_height, rightward),
{
    let mut enemies: Vec<Enemy> = Vec::new();
    if num_x <= 0 || num_y <= 0 {
        assert(enemies@ =~= grid(
            screen_width,
            num_x,
            num_y,
            sprite_width,
            sprite_height,
            rightward,
        ));
        return enemies;
    }
    let width: i64 = scale(sprite_width, ENEMY_SCALE);
    assert(0 <= width * (num_x as i64) <= 0x4_0000_0000_0000) by (nonlinear_arith)
        requires
            0 <= width <= 0xffff * 8,
            0 < num_x <= 0x7fff_ffff,
    ;
    let gap: i64 = div_toward_zero(screen_width as i64 - width * (num_x as i64), num_x as i64 + 1);
    let sideways: i32 = if rightward {
        WAVE_DRIFT
    } else {
        -WAVE_DRIFT
    };
    let ghost target = grid(screen_width, num_x, num_y, sprite_width, sprite_height, rightward);
    let mut column: i32 = 0;
    while column < num_x
        invariant
            0 < num_x,
            0 < num_y,
            0 <= column <= num_x,
            width == scaled(sprite_width, ENEMY_SCALE),
            0 <= width <= 0xffff * 8,
            gap == column_gap(screen_width as int, width as int, num_x as int),
            -0x8_0000_0000_0000 <= gap <= 0x8_0000_0000_0000,
            sideways == drift(rightward),
            target == grid(screen_width, num_x, num_y, sprite_width, sprite_height, rightward),
            enemies@.len() == column * num_y,
            forall|k: int| 0 <= k < enemies@.len() ==> enemies@[k] == target[k],
        decreases num_x - column,
    {
        assert(-0x8_0000_0000_0000_0000_0000 <= (column as i128 + 1) * (gap as i128)
            <= 0x8_0000_0000_0000_0000_0000) by (nonlinear_arith)
            requires
                0 <= column <= 0x7fff_ffff,
                -0x8_0000_0000_0000 <= gap <= 0x8_0000_0000_0000,
        ;
        assert(0 <= (column as i128) * (width as i128) <= 0x8_0000_0000_0000_0000_0000)
            by (nonlinear_arith)
            requires
                0 <= column <= 0x7fff_ffff,
                0 <= width <= 0xffff * 8,
        ;
        let x: i32 = store_wide(
            (column as i128 + 1) * (gap as i128) + (column as i128) * (width as i128),
        );
        let mut row: i32 = 0;
        while row < num_y
            invariant
                0 < num_x,
                0 < num_y,
                0 <= column < num_x,
                0 <= row <= num_y,
                width == scaled(sprite_width, ENEMY_SCALE),
                gap == column_gap(screen_width as int, width as int, num_x as int),
                x == stored((column + 1) * gap + column * width),
                sideways == drift(rightward),
                target == grid(screen_width, num_x, num_y, sprite_width, sprite_height, rightward),
                enemies@.len() == column * num_y + row,
                forall|k: int| 0 <= k < enemies@.len() ==> enemies@[k] == target[k],
            decreases num_y - row,
        {
            let y: i32 = store((row as i64 - 1) * (ROW_GAP as i64));
            let enemy = Enemy::new(x, y, WAVE_DESCENT, sideways, sprite_width, sprite_height);
            proof {
                let k = enemies@.len() as int;
                lemma_fundamental_div_mod_converse(k, num_y as int, column as int, row as int);
                assert(column * num_y + row < num_x * num_y) by (nonlinear_arith)
                    requires
                        0 <= column < num_x,
                        0 <= row < num_y,
                ;
                assert(enemy == target[k]);
            }
            enemies.push(enemy);
            row += 1;
        }
        assert((column + 1) * num_y == column * num_y + num_y) by (nonlinear_arith);
        column += 1;
    }
    assert(enemies@ =~= target);
    enemies
}

/// Tosses a fair coin with `rand::Rng::gen_ratio(1, 2)` on the thread's
/// generator. The outcome is open, so nothing is claimed of it.
#[verifier::external_body]
pub(crate) fn toss() -> (heads: bool) {
    rand::Rng::gen_ratio(&mut rand::thread_rng(), 1, 2)
}

/// Lays out a wave as `spawn_grid` does, with the direction in which the
/// whole wave first drifts chosen by the toss of a coin.
pub fn spawn_enemies(
    screen_width: i32,
    num_x: i32,
    num_y: i32,
    sprite_width: u16,
    sprite_height: u16,
) -> (enemies: Vec<Enemy>)
    ensures
        enemies@ == grid(screen_width, num_x, num_y, sprite_width, sprite_height, true)
            || enemies@ == grid(screen_width, num_x, num_y, sprite_width, sprite_height, false),
{
    let rightward: bool = toss();
    spawn_grid(screen_width, num_x, num_y, sprite_width, sprite_height, rightward)
}

} // verus!
