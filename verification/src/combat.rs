//! What happens between shots and invaders within one frame: shots strike
//! invaders, invaders descend or land, and what is spent is cleared away.

use vstd::prelude::*;
use crate::bullet::Bullet;
use crate::enemy::Enemy;

verus! {

/// The first invader at or after position `from` that is alive and that the
/// shot overlaps, by its position; where there is none, the number of
/// invaders.
pub open spec fn first_hit(bullet: Bullet, enemies: Seq<Enemy>, from: int) -> int
    decreases enemies.len() - from,
{
    if from < 0 || from >= enemies.len() {
        enemies.len() as int
    } else if !enemies[from].is_dead && bullet.overlaps(enemies[from]) {
        from
    } else {
        first_hit(bullet, enemies, from + 1)
    }
}

/// Shots and invaders part of the way through a frame, with the number of
/// invaders shot so far.
pub struct Volley {
    pub bullets: Seq<Bullet>,
    pub enemies: Seq<Enemy>,
    pub hits: nat,
}

/// The volley after the first `n` shots have had their turn, in order. An
/// active shot moves and then strikes the first live invader that it
/// overlaps: the shot is spent and the invader dies. A shot strikes at most
/// one invader, and a dead invader stops no shot.
pub open spec fn struck(bullets: Seq<Bullet>, enemies: Seq<Enemy>, n: int) -> Volley
    decreases n,
{
    if n <= 0 {
        Volley { bullets, enemies, hits: 0 }
    } else {
        let before = struck(bullets, enemies, n - 1);
        let shot = bullets[n - 1];
        if !shot.is_active {
            before
        } else {
            let moved = shot.advanced();
            let j = first_hit(moved, before.enemies, 0);
            if j < before.enemies.len() {
                Volley {
                    bullets: before.bullets.update(n - 1, moved.spent()),
                    enemies: before.enemies.update(j, before.enemies[j].killed()),
                    hits: before.hits + 1,
                }
            } else {
                Volley {
                    bullets: before.bullets.update(n - 1, moved),
                    enemies: before.enemies,
                    hits: before.hits,
                }
            }
        }
    }
}

/// Whether a live invader has reached the bottom of a screen `screen_height`
/// units high.
pub open spec fn landed(enemy: Enemy, screen_height: int) -> bool {
    !enemy.is_dead && enemy.y >= screen_height
}

/// `landed`, as a test on invaders.
pub open spec fn has_landed(screen_height: int) -> spec_fn(Enemy) -> bool {
    |e: Enemy| landed(e, screen_height)
}

/// An invader's turn: a dead one stays as it is, one that has landed dies
/// where it stands, and any other moves on by one frame.
pub open spec fn descended(enemy: Enemy, screen_width: int, screen_height: int) -> Enemy {
    if enemy.is_dead {
        enemy
    } else if enemy.y >= screen_height {
        enemy.killed()
    } else {
        enemy.stepped(screen_width)
    }
}

/// `descended`, as a map on invaders.
pub open spec fn descent(screen_width: int, screen_height: int) -> spec_fn(Enemy) -> Enemy {
    |e: Enemy| descended(e, screen_width, screen_height)
}

/// How many invaders have landed.
pub open spec fn landings(enemies: Seq<Enemy>, screen_height: int) -> nat {
    enemies.filter(has_landed(screen_height)).len()
}

/// The test that keeps a shot.
pub open spec fn is_active() -> spec_fn(Bullet) -> bool {
    |b: Bullet| b.is_active
}

/// The test that keeps an invader.
pub open spec fn is_alive() -> spec_fn(Enemy) -> bool {
    |e: Enemy| !e.is_dead
}

/// Filtering one element more either appends that element or changes
/// nothing.
pub proof fn filter_take_next<A>(s: Seq<A>, keep: spec_fn(A) -> bool, i: int)
    requires
        0 <= i < s.len(),
    ensures
        s.take(i + 1).filter(keep) == if keep(s[i]) {
            s.take(i).filter(keep).push(s[i])
        } else {
            s.take(i).filter(keep)
        },
{
    reveal(Seq::filter);
    assert(s.take(i + 1).drop_last() =~= s.take(i));
    assert(s.take(i + 1).last() == s[i]);
}

/// The position of the first live invader that the shot overlaps, or the
/// number of invaders where it overlaps none.
pub fn first_target(bullet: &Bullet, enemies: &Vec<Enemy>) -> (j: usize)
    ensures
        j == first_hit(*bullet, enemies@, 0),
        j <= enemies@.len(),
{
    let mut j: usize = 0;
    while j < enemies.len()
        invariant
            j <= enemies@.len(),
            first_hit(*bullet, enemies@, 0) == first_hit(*bullet, enemies@, j as int),
        decreases enemies@.len() - j,
    {
        if !enemies[j].is_dead && bullet.collides_with(&enemies[j]) {
            return j;
        }
        j += 1;
    }
    j
}

/// Gives every shot its turn, in order, and returns how many invaders were
/// shot.
pub fn strike_all(bullets: &mut Vec<Bullet>, enemies: &mut Vec<Enemy>) -> (hits: usize)
    ensures
        final(bullets)@ == struck(old(bullets)@, old(enemies)@, old(bullets)@.len() as int).bullets,
        final(enemies)@ == struck(old(bullets)@, old(enemies)@, old(bullets)@.len() as int).enemies,
        hits == struck(old(bullets)@, old(enemies)@, old(bullets)@.len() as int).hits,
        hits <= old(bullets)@.len(),
        final(bullets)@.len() == old(bullets)@.len(),
        final(enemies)@.len() == old(enemies)@.len(),
{
    let ghost start_bullets = bullets@;
    let ghost start_enemies = enemies@;
    let mut hits: usize = 0;
    let mut i: usize = 0;
    while i < bullets.len()
        invariant
            i <= bullets@.len(),
            hits <= i,
            bullets@.len() == start_bullets.len(),
            enemies@.len() == start_enemies.len(),
            bullets@ == struck(start_bullets, start_enemies, i as int).bullets,
            enemies@ == struck(start_bullets, start_enemies, i as int).enemies,
            hits == struck(start_bullets, start_enemies, i as int).hits,
            forall|k: int| i <= k < bullets@.len() ==> bullets@[k] == start_bullets[k],
        decreases bullets@.len() - i,
    {
        let mut shot: Bullet = bullets[i];
        if shot.is_active {
            shot.update();
            let j: usize = first_target(&shot, enemies);
            if j < enemies.len() {
                shot.is_active = false;
                let mut enemy: Enemy = enemies[j];
                enemy.is_dead = true;
                enemies.set(j, enemy);
                hits += 1;
            }
            bullets.set(i, shot);
        }
        i += 1;
    }
    hits
}

/// Gives every invader its turn on a screen of the given size, and returns
/// how many of them landed.
pub fn descend_all(enemies: &mut Vec<Enemy>, screen_width: i32, screen_height: i32) -> (lost:
    usize)
    ensures
        final(enemies)@ == old(enemies)@.map_values(
            descent(screen_width as int, screen_height as int),
        ),
        lost == landings(old(enemies)@, screen_height as int),
        lost <= old(enemies)@.len(),
{
    let ghost start = enemies@;
    let mut lost: usize = 0;
    let mut i: usize = 0;
    proof {
        reveal(Seq::filter);
        assert(start.take(0) =~= Seq::<Enemy>::empty());
    }
    while i < enemies.len()
        invariant
            i <= enemies@.len(),
            lost <= i,
            enemies@.len() == start.len(),
            forall|k: int|
                0 <= k < i ==> enemies@[k] == descended(
                    start[k],
                    screen_width as int,
                    screen_height as int,
                ),
            forall|k: int| i <= k < enemies@.len() ==> enemies@[k] == start[k],
            lost == start.take(i as int).filter(has_landed(screen_height as int)).len(),
        decreases enemies@.len() - i,
    {
        let mut enemy: Enemy = enemies[i];
        proof {
            filter_take_next(start, has_landed(screen_height as int), i as int);
        }
        if !enemy.is_dead {
            if enemy.y >= screen_height {
                enemy.is_dead = true;
                lost += 1;
            } else {
                enemy.update(screen_width);
            }
            enemies.set(i, enemy);
        }
        i += 1;
    }
    proof {
        assert(start.take(i as int) =~= start);
        assert(enemies@ =~= start.map_values(descent(screen_width as int, screen_height as int)));
    }
    lost
}

/// The shots that are still active, in their order.
pub fn active_bullets(bullets: &Vec<Bullet>) -> (kept: Vec<Bullet>)
    ensures
        kept@ == bullets@.filter(is_active()),
{
    let mut kept: Vec<Bullet> = Vec::new();
    let mut i: usize = 0;
    proof {
        reveal(Seq::filter);
        assert(bullets@.take(0) =~= Seq::<Bullet>::empty());
    }
    while i < bullets.len()
        invariant
            i <= bullets@.len(),
            kept@ == bullets@.take(i as int).filter(is_active()),
        decreases bullets@.len() - i,
    {
        proof {
            filter_take_next(bullets@, is_active(), i as int);
        }
        if bullets[i].is_active {
            kept.push(bullets[i]);
        }
        i += 1;
    }
    proof {
        assert(bullets@.take(i as int) =~= bullets@);
    }
    kept
}

/// The invaders that are still alive, in their order.
pub fn live_enemies(enemies: &Vec<Enemy>) -> (kept: Vec<Enemy>)
    ensures
        kept@ == enemies@.filter(is_alive()),
{
    let mut kept: Vec<Enemy> = Vec::new();
    let mut i: usize = 0;
    proof {
        reveal(Seq::filter);
        assert(enemies@.take(0) =~= Seq::<Enemy>::empty());
    }
    while i < enemies.len()
        invariant
            i <= enemies@.len(),
            kept@ == enemies@.take(i as int).filter(is_alive()),
        decreases enemies@.len() - i,
    {
        proof {
            filter_take_next(enemies@, is_alive(), i as int);
        }
        if !enemies[i].is_dead {
            kept.push(enemies[i]);
        }
        i += 1;
    }
    proof {
        assert(enemies@.take(i as int) =~= enemies@);
    }
    kept
}

} // verus!
