//! What holds of the rules for every input.

use vstd::prelude::*;
use vstd::arithmetic::div_mod::{lemma_fundamental_div_mod, lemma_mod_bound};
use crate::bullet::Bullet;
use crate::combat::{descent, first_hit, is_active, is_alive, struck};
use crate::enemy::{Enemy, ENEMY_SCALE};
use crate::fixed::{boxes_overlap, scaled, stored};
use crate::game::{
    at_wave_speed, wave_columns, wave_rows, Frame, GameState, GameView, PLAYER_MARGIN,
    PLAYER_SIZE, PLAYER_SPEED, START_LIFES,
};
use crate::wave::{cell, column_gap};

verus! {

/// A shot that is no longer active does not change when it is updated.
pub proof fn inactive_bullet_stays(bullet: Bullet)
    requires
        !bullet.is_active,
    ensures
        bullet.advanced() == bullet,
{
}

/// A shot at the top edge or above it, which its speed takes above the top
/// edge, is inactive after one update. If it was active it has risen by its
/// speed, as far as the field can hold, and its top is above the edge.
pub proof fn bullet_above_top_goes_out(bullet: Bullet)
    requires
        bullet.y <= 0,
        bullet.y - bullet.speed < 0,
    ensures
        !bullet.advanced().is_active,
        bullet.is_active ==> bullet.advanced().y < 0,
        bullet.is_active ==> bullet.advanced().y == stored(bullet.y - bullet.speed),
        bullet.is_active && i32::MIN <= bullet.y - bullet.speed ==> bullet.advanced().y == bullet.y
            - bullet.speed,
        bullet.advanced().x == bullet.x,
        bullet.advanced().speed == bullet.speed,
{
}

/// Two boxes overlap whichever of them is asked first.
pub proof fn overlap_is_mutual(
    ax: int,
    ay: int,
    aw: int,
    ah: int,
    bx: int,
    by: int,
    bw: int,
    bh: int,
)
    ensures
        boxes_overlap(ax, ay, aw, ah, bx, by, bw, bh) == boxes_overlap(
            bx,
            by,
            bw,
            bh,
            ax,
            ay,
            aw,
            ah,
        ),
{
}

/// Overlap does not depend on which corner of a box lies inside the other:
/// mirroring both boxes, left to right or top to bottom, changes nothing.
pub proof fn overlap_survives_mirroring(
    ax: int,
    ay: int,
    aw: int,
    ah: int,
    bx: int,
    by: int,
    bw: int,
    bh: int,
)
    ensures
        boxes_overlap(ax, ay, aw, ah, bx, by, bw, bh) == boxes_overlap(
            -(ax + aw),
            ay,
            aw,
            ah,
            -(bx + bw),
            by,
            bw,
            bh,
        ),
        boxes_overlap(ax, ay, aw, ah, bx, by, bw, bh) == boxes_overlap(
            ax,
            -(ay + ah),
            aw,
            ah,
            bx,
            -(by + bh),
            bw,
            bh,
        ),
{
}

/// A shot and an invader whose boxes share an edge, on any of the four
/// sides, do not collide.
pub proof fn shared_edge_is_no_collision(bullet: Bullet, enemy: Enemy)
    requires
        bullet.x + bullet.width == enemy.x || bullet.x == enemy.x + enemy.box_width() || bullet.y
            + bullet.height == enemy.y || bullet.y == enemy.y + enemy.box_height(),
    ensures
        !bullet.overlaps(enemy),
{
}

/// A shot collides with an invader exactly when each box begins before the
/// other ends, across and down.
pub proof fn collision_is_strict_overlap(bullet: Bullet, enemy: Enemy)
    ensures
        bullet.overlaps(enemy) <==> {
            &&& bullet.x < enemy.x + enemy.box_width()
            &&& enemy.x < bullet.x + bullet.width
            &&& bullet.y < enemy.y + enemy.box_height()
            &&& enemy.y < bullet.y + bullet.height
        },
{
}

/// An invader whose right edge is past the right wall after its sideways
/// step turns round in that same update, and its next step goes the other
/// way. The step itself is taken in full: the invader is not set back to
/// the wall.
pub proof fn enemy_bounces_off_right_wall(enemy: Enemy, screen_width: int)
    requires
        enemy.stepped(screen_width).x + enemy.box_width() > screen_width,
    ensures
        enemy.stepped(screen_width).x == stored(enemy.x + enemy.horizontal_speed),
        i32::MIN <= enemy.x + enemy.horizontal_speed <= i32::MAX ==> enemy.stepped(screen_width).x
            == enemy.x + enemy.horizontal_speed,
        enemy.stepped(screen_width).y == stored(enemy.y + enemy.speed),
        enemy.stepped(screen_width).horizontal_speed == stored(-enemy.horizontal_speed),
        enemy.horizontal_speed > i32::MIN ==> enemy.stepped(screen_width).horizontal_speed
            == -enemy.horizontal_speed,
        enemy.horizontal_speed > i32::MIN ==> enemy.stepped(screen_width).stepped(screen_width).x
            == stored(enemy.stepped(screen_width).x - enemy.horizontal_speed),
{
}

/// An invader past the left wall after its sideways step turns round in
/// that same update.
pub proof fn enemy_bounces_off_left_wall(enemy: Enemy, screen_width: int)
    requires
        enemy.stepped(screen_width).x < 0,
    ensures
        enemy.stepped(screen_width).horizontal_speed == stored(-enemy.horizontal_speed),
{
}

/// The test that finds the dead among the invaders.
pub open spec fn is_dead() -> spec_fn(Enemy) -> bool {
    |e: Enemy| e.is_dead
}

/// The first invader that a shot strikes, where there is one, is alive, is
/// overlapped by the shot, and is the first such in the list.
pub proof fn first_hit_is_first(bullet: Bullet, enemies: Seq<Enemy>, from: int)
    requires
        0 <= from,
    ensures
        from <= first_hit(bullet, enemies, from) || first_hit(bullet, enemies, from)
            == enemies.len(),
        first_hit(bullet, enemies, from) <= enemies.len(),
        first_hit(bullet, enemies, from) < enemies.len() ==> !enemies[first_hit(
            bullet,
            enemies,
            from,
        )].is_dead && bullet.overlaps(enemies[first_hit(bullet, enemies, from)]),
        forall|k: int|
            from <= k < first_hit(bullet, enemies, from) ==> (#[trigger] enemies[k]).is_dead
                || !bullet.overlaps(enemies[k]),
    decreases enemies.len() - from,
{
    if from < enemies.len() && !(!enemies[from].is_dead && bullet.overlaps(enemies[from])) {
        first_hit_is_first(bullet, enemies, from + 1);
    }
}

/// Marking one element that fails a test with one that passes it makes the
/// elements that pass one more.
pub proof fn one_more_passes<A>(s: Seq<A>, keep: spec_fn(A) -> bool, j: int, marked: A)
    requires
        0 <= j < s.len(),
        !keep(s[j]),
        keep(marked),
    ensures
        s.update(j, marked).filter(keep).len() == s.filter(keep).len() + 1,
    decreases s.len(),
{
    reveal(Seq::filter);
    let t = s.update(j, marked);
    if j == s.len() - 1 {
        assert(t.drop_last() =~= s.drop_last());
    } else {
        assert(t.drop_last() =~= s.drop_last().update(j, marked));
        one_more_passes(s.drop_last(), keep, j, marked);
    }
}

/// In a volley no shot and no invader comes or goes, every shot takes at
/// most one invader, and every hit is one more dead invader.
pub proof fn each_hit_is_one_invader(bullets: Seq<Bullet>, enemies: Seq<Enemy>, n: int)
    requires
        0 <= n <= bullets.len(),
    ensures
        struck(bullets, enemies, n).bullets.len() == bullets.len(),
        struck(bullets, enemies, n).enemies.len() == enemies.len(),
        struck(bullets, enemies, n).hits <= n,
        struck(bullets, enemies, n).enemies.filter(is_dead()).len() == enemies.filter(
            is_dead(),
        ).len() + struck(bullets, enemies, n).hits,
    decreases n,
{
    if n > 0 {
        each_hit_is_one_invader(bullets, enemies, n - 1);
        let before = struck(bullets, enemies, n - 1);
        let shot = bullets[n - 1];
        if shot.is_active {
            let j = first_hit(shot.advanced(), before.enemies, 0);
            first_hit_is_first(shot.advanced(), before.enemies, 0);
            if j < before.enemies.len() {
                one_more_passes(before.enemies, is_dead(), j, before.enemies[j].killed());
            }
        }
    }
}

/// On a screen that has room for all its columns side by side, every
/// invader of a new wave stands between the side walls, at the place that
/// the layout gives it without any rounding at the ends of the range.
pub proof fn wave_starts_between_walls(
    screen_width: i32,
    columns: i32,
    sprite_width: u16,
    sprite_height: u16,
    rightward: bool,
    column: int,
    row: int,
)
    requires
        0 <= column < columns,
        scaled(sprite_width, ENEMY_SCALE) * columns <= screen_width,
    ensures
        0 <= cell(screen_width, columns, sprite_width, sprite_height, rightward, column, row).x,
        cell(screen_width, columns, sprite_width, sprite_height, rightward, column, row).x + cell(
            screen_width,
            columns,
            sprite_width,
            sprite_height,
            rightward,
            column,
            row,
        ).box_width() <= screen_width,
        cell(screen_width, columns, sprite_width, sprite_height, rightward, column, row).x == (
        column + 1) * column_gap(
            screen_width as int,
            scaled(sprite_width, ENEMY_SCALE),
            columns as int,
        ) + column * scaled(sprite_width, ENEMY_SCALE),
{
    let w = scaled(sprite_width, ENEMY_SCALE);
    let n = columns as int;
    let free = screen_width - w * n;
    let gap = column_gap(screen_width as int, w, n);
    assert(w >= 0) by (nonlinear_arith)
        requires
            w == sprite_width * 8,
            sprite_width >= 0,
    ;
    assert(gap == free / (n + 1));
    lemma_fundamental_div_mod(free, n + 1);
    lemma_mod_bound(free, n + 1);
    assert(gap >= 0 && (n + 1) * gap <= free) by (nonlinear_arith)
        requires
            free >= 0,
            n + 1 > 0,
            gap == free / (n + 1),
            free == (n + 1) * (free / (n + 1)) + free % (n + 1),
            0 <= free % (n + 1),
    ;
    let x = (column + 1) * gap + column * w;
    assert(0 <= x && x + w <= screen_width) by (nonlinear_arith)
        requires
            0 <= column < n,
            gap >= 0,
            w >= 0,
            (n + 1) * gap <= free,
            free == screen_width - w * n,
            x == (column + 1) * gap + column * w,
    ;
}

/// After a frame of play no spent shot and no dead invader is left over.
pub proof fn play_leaves_no_remains(game: GameView, frame: Frame)
    ensures
        game.played(frame).is_clean(),
{
    let after = game.played(frame);
    let volley = game.volley(frame);
    let moved = volley.enemies.map_values(
        descent(frame.screen_width as int, frame.screen_height as int),
    );
    assert forall|i: int| 0 <= i < after.bullets.len() implies (#[trigger] after.bullets[i]).is_active by {
        volley.bullets.lemma_filter_pred(is_active(), i);
    }
    assert forall|i: int| 0 <= i < after.enemys.len() implies !(#[trigger] after.enemys[i]).is_dead by {
        moved.lemma_filter_pred(is_alive(), i);
    }
}

/// After any frame of a running game, with or without a new round, no spent
/// shot and no dead invader is left over.
pub proof fn frame_leaves_no_remains(game: GameView, frame: Frame, rightward: bool)
    requires
        game.wf(),
        game.state == GameState::Playing,
    ensures
        game.next(frame, rightward).is_clean(),
{
    play_leaves_no_remains(game, frame);
    if game.played(frame).enemys.len() == 0 {
        cleared_screen_begins_one_round(game, frame, rightward);
    }
}

/// When a frame of play leaves no invader, exactly one round begins: the
/// round goes up by one, the lifes are restored, the shots are cleared and
/// a wave of live invaders arrives, three columns by one row for each round
/// up to the third, and nine by three from then on.
pub proof fn cleared_screen_begins_one_round(game: GameView, frame: Frame, rightward: bool)
    requires
        game.wf(),
        game.state == GameState::Playing,
        game.played(frame).enemys.len() == 0,
    ensures
        game.next(frame, rightward).round == game.round + 1,
        game.next(frame, rightward).lifes == START_LIFES,
        game.next(frame, rightward).bullets.len() == 0,
        game.next(frame, rightward).enemys.len() > 0,
        game.next(frame, rightward).enemys.len() == wave_columns(game.round + 1) * wave_rows(
            game.round + 1,
        ),
        game.round + 1 <= 3 ==> wave_columns(game.round + 1) == 3 * (game.round + 1) && wave_rows(
            game.round + 1,
        ) == game.round + 1,
        game.round + 1 > 3 ==> wave_columns(game.round + 1) == 9 && wave_rows(game.round + 1) == 3,
        game.next(frame, rightward).is_clean(),
        forall|i: int|
            0 <= i < game.next(frame, rightward).enemys.len() ==> (#[trigger] game.next(
                frame,
                rightward,
            ).enemys[i]).speed == stored(20 + 10 * (game.round + 1)),
        20 + 10 * (game.round + 1) <= i32::MAX ==> forall|i: int|
            0 <= i < game.next(frame, rightward).enemys.len() ==> (#[trigger] game.next(
                frame,
                rightward,
            ).enemys[i]).speed == 20 + 10 * (game.round + 1),
{
    let round = game.round + 1;
    let after = game.played(frame);
    let wave = after.next_grid(frame, rightward);
    assert(1 <= wave_columns(round) <= 9 && 1 <= wave_rows(round) <= 3);
    assert(wave_columns(round) * wave_rows(round) > 0) by (nonlinear_arith)
        requires
            1 <= wave_columns(round),
            1 <= wave_rows(round),
    ;
    assert(wave.len() == wave_columns(round) * wave_rows(round));
    let next = game.next(frame, rightward);
    assert(next.enemys == wave.map_values(at_wave_speed(round)));
    assert forall|i: int| 0 <= i < next.enemys.len() implies !(#[trigger] next.enemys[i]).is_dead by {
        assert(!wave[i].is_dead);
    }
}

/// While a frame of play leaves an invader on the screen, no round begins.
pub proof fn standing_wave_begins_no_round(game: GameView, frame: Frame, rightward: bool)
    requires
        game.state == GameState::Playing,
        game.played(frame).enemys.len() > 0,
    ensures
        game.next(frame, rightward) == game.played(frame),
        game.next(frame, rightward).round == game.round,
{
}

/// Lifes only fall while a wave stands, and never below zero: a frame of
/// play takes one life for each invader that lands until none is left, and
/// the game is over exactly when the last one goes. Only a new round or a
/// restart brings lifes back, to `START_LIFES`, and there are never more.
/// A finished game stays as it is until the reset key.
pub proof fn lifes_fall_by_landings(game: GameView, frame: Frame, rightward: bool)
    requires
        game.wf(),
    ensures
        game.next(frame, rightward).wf(),
        0 <= game.next(frame, rightward).lifes <= START_LIFES,
        game.next(frame, rightward).lifes < 1 ==> game.next(frame, rightward).state
            == GameState::GameOver,
        0 <= game.taken(frame) <= game.lifes,
        game.taken(frame) <= game.lost(frame),
        game.state == GameState::Playing && game.lost(frame) <= game.lifes ==> game.taken(frame)
            == game.lost(frame),
        game.state == GameState::Playing ==> game.played(frame).lifes == game.lifes - game.taken(
            frame,
        ),
        game.state == GameState::Playing ==> (game.played(frame).state == GameState::GameOver
            <==> game.played(frame).lifes == 0),
        game.state == GameState::Playing && game.played(frame).enemys.len() > 0 ==> game.next(
            frame,
            rightward,
        ).lifes == game.lifes - game.taken(frame),
        game.state == GameState::Playing && game.played(frame).enemys.len() == 0 ==> game.next(
            frame,
            rightward,
        ).lifes == START_LIFES,
        game.state == GameState::Paused ==> game.next(frame, rightward).lifes == game.lifes,
        game.state == GameState::GameOver && !frame.reset ==> game.next(frame, rightward) == game,
{
}

/// A restart leaves nothing of the game before it but the time of the last
/// shot: the counters are at their first values, the screen is empty, the
/// game runs, and the ship stands at its speed in the middle of the screen,
/// to within the half unit that the division drops, with its room and a
/// margin below it, as far as the field can hold.
pub proof fn restart_starts_over(game: GameView, frame: Frame)
    ensures
        game.restarted(frame).round == 0,
        game.restarted(frame).score == 0,
        game.restarted(frame).lifes == START_LIFES,
        game.restarted(frame).bullets.len() == 0,
        game.restarted(frame).enemys.len() == 0,
        game.restarted(frame).state == GameState::Playing,
        game.restarted(frame).wf(),
        game.restarted(frame).player.speed == PLAYER_SPEED,
        game.restarted(frame).player.sprite_width == frame.player_sprite_width,
        -1 <= (frame.screen_width - PLAYER_SIZE) - 2 * game.restarted(frame).player.x <= 1,
        frame.screen_width >= PLAYER_SIZE ==> 0 <= (frame.screen_width - PLAYER_SIZE) - 2
            * game.restarted(frame).player.x <= 1,
        game.restarted(frame).player.y == stored(
            frame.screen_height - PLAYER_SIZE - PLAYER_MARGIN,
        ),
        i32::MIN <= frame.screen_height - PLAYER_SIZE - PLAYER_MARGIN ==> game.restarted(
            frame,
        ).player.y == frame.screen_height - PLAYER_SIZE - PLAYER_MARGIN,
        game.state == GameState::GameOver && frame.reset ==> game.next(frame, true)
            == game.restarted(frame) && game.next(frame, false) == game.restarted(frame),
{
}

/// The only ways from one state to another: a running game is paused by
/// the pause key or ended by a landing, a paused game is resumed by the
/// pause key, and a finished game is restarted by the reset key.
pub proof fn states_change_only_by_the_rules(game: GameView, frame: Frame, rightward: bool)
    requires
        game.wf(),
    ensures
        game.state == GameState::Playing ==> game.next(frame, rightward).state == (if game.lost(
            frame,
        ) >= game.lifes {
            GameState::GameOver
        } else if frame.pause {
            GameState::Paused
        } else {
            GameState::Playing
        }),
        game.state == GameState::Paused ==> game.next(frame, rightward).state == (if frame.pause {
            GameState::Playing
        } else {
            GameState::Paused
        }),
        game.state == GameState::GameOver ==> game.next(frame, rightward).state == (
        if frame.reset {
            GameState::Playing
        } else {
            GameState::GameOver
        }),
{
}

/// A second press of the fire key within the cooldown of a shot fires
/// nothing.
pub proof fn no_shot_within_cooldown(game: GameView, first: Frame, second: Frame, rightward: bool)
    requires
        game.state == GameState::Playing,
        game.fires(first),
        second.now - first.now <= crate::game::SHOT_COOLDOWN,
    ensures
        !game.next(first, rightward).fires(second),
{
}

} // verus!
