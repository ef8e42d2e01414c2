use invaders::bullet::Bullet;
use invaders::combat::{active_bullets, descend_all, first_target, live_enemies, strike_all};
use invaders::enemy::Enemy;
use invaders::game::{new_player, wave_shape, Frame, Game, GameState};
use invaders::player::Player;

fn quiet(now: u64) -> Frame {
    Frame {
        left: false,
        right: false,
        fire: false,
        pause: false,
        reset: false,
        now,
        screen_width: 80000,
        screen_height: 60000,
        player_sprite_width: 500,
        enemy_sprite_width: 500,
        enemy_sprite_height: 400,
    }
}

fn firing(now: u64) -> Frame {
    Frame { fire: true, ..quiet(now) }
}

fn enemy_at(x: i32, y: i32) -> Enemy {
    Enemy::new(x, y, 30, 200, 500, 400)
}

fn shot_at(x: i32, y: i32) -> Bullet {
    Bullet::new(x, y, 500)
}

/// A running game in round 1 with the given shots and invaders.
fn running(bullets: Vec<Bullet>, enemys: Vec<Enemy>) -> Game {
    let mut game = Game::new(&quiet(0));
    game.round = 1;
    game.bullets = bullets;
    game.enemys = enemys;
    game
}

#[test]
fn new_game_starts_empty_with_three_lifes() {
    let game = Game::new(&quiet(1234));
    assert_eq!(game.round, 0);
    assert_eq!(game.score, 0);
    assert_eq!(game.lifes, 3);
    assert_eq!(game.last_shot_time, 1234);
    assert_eq!(game.state, GameState::Playing);
    assert!(game.bullets.is_empty());
    assert!(game.enemys.is_empty());
    assert_eq!(
        game.player,
        Player { x: 37500, y: 50000, speed: 1500, sprite_width: 500, scale_factor: 10 }
    );
    assert!(game.can_update());
}

#[test]
fn new_player_is_centred_above_the_bottom() {
    assert_eq!(new_player(80000, 60000, 500), Player::new(37500, 50000, 1500, 500));
    assert_eq!(new_player(80001, 60000, 64), Player::new(37500, 50000, 1500, 64));
    assert_eq!(new_player(0, 0, 64), Player::new(-2500, -10000, 1500, 64));
    assert_eq!(new_player(4999, 0, 64), Player::new(0, -10000, 1500, 64));
    assert_eq!(new_player(i32::MIN, i32::MIN, 64), Player::new(-1073744324, i32::MIN, 1500, 64));
}

#[test]
fn waves_grow_up_to_nine_by_three() {
    assert_eq!(wave_shape(0), (0, 0));
    assert_eq!(wave_shape(1), (3, 1));
    assert_eq!(wave_shape(2), (6, 2));
    assert_eq!(wave_shape(3), (9, 3));
    assert_eq!(wave_shape(4), (9, 3));
    assert_eq!(wave_shape(1000), (9, 3));
}

#[test]
fn an_empty_screen_begins_the_next_round() {
    let mut game = Game::new(&quiet(0));
    let sizes = [3, 12, 27, 27, 27];
    for (i, size) in sizes.iter().enumerate() {
        game.enemys.clear();
        game.lifes = 1;
        game.bullets.push(shot_at(100, 30000));
        assert!(game.can_update());
        game.update_with(&quiet(0), true);
        let round = i as i32 + 1;
        assert_eq!(game.round, round);
        assert_eq!(game.enemys.len(), *size);
        assert_eq!(game.lifes, 3);
        assert!(game.bullets.is_empty());
        assert_eq!(game.state, GameState::Playing);
        for e in &game.enemys {
            assert_eq!(e.speed, 20 + 10 * round);
            assert_eq!(e.horizontal_speed, 200);
            assert!(!e.is_dead);
        }
    }
    // The first invader of the full wave, before its first move.
    assert_eq!((game.enemys[0].x, game.enemys[0].y), (4400, -5000));
}

#[test]
fn a_standing_wave_keeps_the_round() {
    let mut game = Game::new(&quiet(0));
    game.update_with(&quiet(0), false);
    assert_eq!(game.round, 1);
    assert_eq!(game.enemys.len(), 3);
    assert_eq!((game.enemys[0].x, game.enemys[0].y), (17000, -5000));
    game.update_with(&quiet(16), true);
    assert_eq!(game.round, 1);
    assert_eq!(game.enemys.len(), 3);
    // One step at the speed of round 1, drifting left.
    assert_eq!((game.enemys[0].x, game.enemys[0].y), (16800, -4970));
    assert_eq!(game.enemys[0].horizontal_speed, -200);
}

#[test]
fn update_tosses_for_the_direction_of_a_new_wave() {
    for _ in 0..10 {
        let mut game = Game::new(&quiet(0));
        game.update(&quiet(0));
        assert_eq!(game.round, 1);
        assert_eq!(game.enemys.len(), 3);
        let mut right = Game::new(&quiet(0));
        right.update_with(&quiet(0), true);
        let mut left = Game::new(&quiet(0));
        left.update_with(&quiet(0), false);
        assert!(game.enemys == right.enemys || game.enemys == left.enemys);
    }
}

#[test]
fn firing_twice_within_the_cooldown_gives_one_bullet() {
    let mut game = running(vec![], vec![enemy_at(1000, 0)]);
    game.update_with(&firing(1000), true);
    assert_eq!(game.bullets.len(), 1);
    assert_eq!(game.last_shot_time, 1000);
    // The shot leaves the ship and rises once within its first frame.
    assert_eq!(
        game.bullets[0],
        Bullet { x: 39700, y: 49500, width: 500, height: 1000, speed: 500, is_active: true }
    );
    game.update_with(&firing(1299), true);
    assert_eq!(game.bullets.len(), 1);
    assert_eq!(game.last_shot_time, 1000);
    assert_eq!(game.bullets[0].y, 49000);
    // Exactly the cooldown is not yet enough.
    game.update_with(&firing(1300), true);
    assert_eq!(game.bullets.len(), 1);
    game.update_with(&firing(1301), true);
    assert_eq!(game.bullets.len(), 2);
    assert_eq!(game.last_shot_time, 1301);
}

#[test]
fn no_shot_without_the_key_or_before_time_has_passed() {
    let mut game = running(vec![], vec![enemy_at(1000, 0)]);
    game.update_with(&quiet(5000), true);
    assert!(game.bullets.is_empty());
    assert_eq!(game.last_shot_time, 0);
    game.update_with(&firing(300), true);
    assert!(game.bullets.is_empty());
    game.last_shot_time = 9000;
    game.update_with(&firing(8000), true);
    assert!(game.bullets.is_empty());
    assert_eq!(game.last_shot_time, 9000);
}

#[test]
fn the_ship_moves_before_it_fires() {
    let mut game = running(vec![], vec![enemy_at(1000, 0)]);
    game.update_with(&Frame { left: true, ..firing(1000) }, true);
    assert_eq!(game.player.x, 36000);
    assert_eq!(game.bullets[0].x, 38200);
}

#[test]
fn a_hit_scores_ten_and_removes_shot_and_invader() {
    // The invader's box is 4000 by 3200 units.
    let mut game = running(
        vec![shot_at(11000, 21000)],
        vec![enemy_at(10000, 20000), enemy_at(50000, 20000)],
    );
    game.update_with(&quiet(0), true);
    assert_eq!(game.score, 10);
    assert!(game.bullets.is_empty());
    assert_eq!(game.enemys.len(), 1);
    assert_eq!((game.enemys[0].x, game.enemys[0].y), (50200, 20030));
    assert_eq!(game.lifes, 3);
    assert_eq!(game.round, 1);
    assert_eq!(game.state, GameState::Playing);
}

#[test]
fn a_shot_is_tested_where_it_has_moved_to() {
    // Before its move the shot is below the invader; its move takes it in.
    let mut game = running(
        vec![shot_at(11000, 23600)],
        vec![enemy_at(10000, 20000), enemy_at(50000, 20000)],
    );
    game.update_with(&quiet(0), true);
    assert_eq!(game.score, 10);
    // This one touches after its move and goes on.
    let mut game = running(
        vec![shot_at(11000, 23700)],
        vec![enemy_at(10000, 20000), enemy_at(50000, 20000)],
    );
    game.update_with(&quiet(0), true);
    assert_eq!(game.score, 0);
    assert_eq!(game.bullets.len(), 1);
    assert_eq!(game.enemys.len(), 2);
}

#[test]
fn one_shot_takes_only_the_first_invader_it_overlaps() {
    let mut game = running(
        vec![shot_at(11000, 21000)],
        vec![enemy_at(50000, 20000), enemy_at(10500, 20000), enemy_at(10000, 20000)],
    );
    game.update_with(&quiet(0), true);
    assert_eq!(game.score, 10);
    assert_eq!(game.enemys.len(), 2);
    assert_eq!(game.enemys[0].x, 50200);
    assert_eq!(game.enemys[1].x, 10200);
}

#[test]
fn two_shots_on_one_invader_take_the_next_one_too() {
    let mut game = running(
        vec![shot_at(11000, 21000), shot_at(11200, 21000), shot_at(11400, 21000)],
        vec![enemy_at(10000, 20000), enemy_at(10500, 20000), enemy_at(50000, 20000)],
    );
    game.update_with(&quiet(0), true);
    // The third shot finds both invaders under it dead and flies on.
    assert_eq!(game.score, 20);
    assert_eq!(game.bullets.len(), 1);
    assert_eq!((game.bullets[0].x, game.bullets[0].y), (11400, 20500));
    assert_eq!(game.enemys.len(), 1);
}

#[test]
fn a_landing_costs_a_life_and_removes_the_invader() {
    let mut game = running(vec![], vec![enemy_at(10000, 60000), enemy_at(50000, 59999)]);
    game.update_with(&quiet(0), true);
    assert_eq!(game.lifes, 2);
    assert_eq!(game.state, GameState::Playing);
    assert_eq!(game.enemys.len(), 1);
    assert_eq!((game.enemys[0].x, game.enemys[0].y), (50200, 60029));
    game.update_with(&quiet(16), true);
    // The last invader has landed: a life is lost, then the next round restores them.
    assert_eq!(game.round, 2);
    assert_eq!(game.lifes, 3);
    assert_eq!(game.enemys.len(), 12);
}

#[test]
fn the_last_life_ends_the_game() {
    let mut game = running(
        vec![],
        vec![
            enemy_at(10000, 60000),
            enemy_at(20000, 70000),
            enemy_at(30000, 60000),
            enemy_at(50000, 100),
        ],
    );
    let taken = game.update_with(&quiet(0), true);
    assert_eq!(taken, 3);
    assert_eq!(game.lifes, 0);
    assert_eq!(game.state, GameState::GameOver);
    assert_eq!(game.enemys.len(), 1);
    assert_eq!(game.score, 0);
}

#[test]
fn more_landings_than_lifes_stop_at_zero() {
    let mut game = running(
        vec![],
        vec![enemy_at(10000, 60000), enemy_at(20000, 60100), enemy_at(50000, 5000)],
    );
    game.lifes = 1;
    let taken = game.update_with(&quiet(0), true);
    assert_eq!(taken, 1);
    assert_eq!(game.lifes, 0);
    assert_eq!(game.state, GameState::GameOver);
    // Both invaders at the bottom are gone, though only one took a life.
    assert_eq!(game.enemys.len(), 1);
    assert_eq!((game.enemys[0].x, game.enemys[0].y), (50200, 5030));
}

#[test]
fn update_says_how_many_lifes_the_frame_took() {
    let mut game = running(
        vec![],
        vec![enemy_at(10000, 60000), enemy_at(20000, 60000), enemy_at(50000, 100)],
    );
    assert_eq!(game.update_with(&quiet(0), true), 2);
    assert_eq!(game.lifes, 1);
    assert_eq!(game.state, GameState::Playing);
    assert_eq!(game.update_with(&quiet(16), true), 0);
    assert_eq!(game.lifes, 1);
    game.state = GameState::Paused;
    game.enemys.push(enemy_at(10000, 60000));
    assert_eq!(game.update_with(&quiet(32), true), 0);
    assert_eq!(game.lifes, 1);
    game.state = GameState::GameOver;
    game.lifes = 0;
    assert_eq!(game.update(&quiet(48)), 0);
    assert_eq!(game.lifes, 0);
    assert_eq!(game.enemys.len(), 2);
}

#[test]
fn a_game_that_ends_as_the_screen_clears_still_gets_its_wave() {
    let mut game = running(vec![], vec![enemy_at(10000, 60000), enemy_at(20000, 60000)]);
    game.lifes = 2;
    let taken = game.update_with(&quiet(0), false);
    assert_eq!(taken, 2);
    assert_eq!(game.state, GameState::GameOver);
    assert_eq!(game.round, 2);
    assert_eq!(game.lifes, 3);
    assert_eq!(game.enemys.len(), 12);
    // Nothing moves any more.
    let before = game.clone();
    assert_eq!(game.update_with(&quiet(16), false), 0);
    assert_eq!(game.enemys, before.enemys);
    assert_eq!(game.lifes, 3);
    assert_eq!(game.state, GameState::GameOver);
}

#[test]
fn a_finished_game_waits_for_the_reset_key() {
    let mut game = running(vec![shot_at(100, 30000)], vec![enemy_at(50000, 100)]);
    game.state = GameState::GameOver;
    game.lifes = 0;
    game.score = 70;
    game.round = 4;
    let before = game.clone();
    game.update_with(&Frame { left: true, pause: true, ..firing(5000) }, true);
    assert_eq!(game.state, GameState::GameOver);
    assert_eq!(game.lifes, 0);
    assert_eq!(game.score, 70);
    assert_eq!(game.round, 4);
    assert_eq!(game.bullets, before.bullets);
    assert_eq!(game.enemys, before.enemys);
    assert_eq!(game.player, before.player);
    assert_eq!(game.last_shot_time, before.last_shot_time);
}

#[test]
fn reset_from_game_over_starts_over() {
    let mut game = running(vec![shot_at(100, 30000)], vec![enemy_at(50000, 100)]);
    game.state = GameState::GameOver;
    game.lifes = 0;
    game.score = 70;
    game.round = 4;
    game.player.x = 123;
    game.last_shot_time = 777;
    game.update_with(&Frame { reset: true, ..quiet(9000) }, true);
    assert_eq!(game.round, 0);
    assert_eq!(game.score, 0);
    assert_eq!(game.lifes, 3);
    assert!(game.bullets.is_empty());
    assert!(game.enemys.is_empty());
    assert_eq!(game.player, Player::new(37500, 50000, 1500, 500));
    assert_eq!(game.state, GameState::Playing);
    assert_eq!(game.last_shot_time, 777);
}

#[test]
fn reset_game_works_from_any_state() {
    let mut game = running(vec![shot_at(100, 30000)], vec![enemy_at(50000, 100)]);
    game.score = 30;
    game.reset_game(&quiet(0));
    assert_eq!((game.round, game.score, game.lifes), (0, 0, 3));
    assert!(game.bullets.is_empty() && game.enemys.is_empty());
    assert_eq!(game.state, GameState::Playing);
    assert!(game.can_update());
}

#[test]
fn the_reset_key_does_nothing_to_a_running_game() {
    let mut game = running(vec![], vec![enemy_at(50000, 100)]);
    game.score = 30;
    game.update_with(&Frame { reset: true, ..quiet(0) }, true);
    assert_eq!(game.score, 30);
    assert_eq!(game.round, 1);
    assert_eq!(game.enemys.len(), 1);
}

#[test]
fn the_pause_key_pauses_after_the_frame_and_resumes() {
    let mut game = running(vec![shot_at(100, 30000)], vec![enemy_at(50000, 100)]);
    game.update_with(&Frame { pause: true, right: true, ..quiet(0) }, true);
    assert_eq!(game.state, GameState::Paused);
    // The frame in which the key came was still played.
    assert_eq!(game.player.x, 39000);
    assert_eq!(game.bullets[0].y, 29500);
    assert_eq!(game.enemys[0].y, 130);
    let paused = game.clone();
    game.update_with(&Frame { right: true, reset: true, ..firing(5000) }, true);
    assert_eq!(game.state, GameState::Paused);
    assert_eq!(game.player, paused.player);
    assert_eq!(game.bullets, paused.bullets);
    assert_eq!(game.enemys, paused.enemys);
    game.update_with(&Frame { pause: true, right: true, ..firing(5000) }, true);
    assert_eq!(game.state, GameState::Playing);
    assert_eq!(game.player, paused.player);
    assert_eq!(game.bullets, paused.bullets);
}

#[test]
fn a_landing_on_the_last_life_wins_over_the_pause_key() {
    let mut game = running(vec![], vec![enemy_at(10000, 60000), enemy_at(50000, 100)]);
    game.lifes = 1;
    game.update_with(&Frame { pause: true, ..quiet(0) }, true);
    assert_eq!(game.state, GameState::GameOver);
    assert_eq!(game.lifes, 0);
}

#[test]
fn a_shot_that_leaves_the_screen_is_removed() {
    let mut game = running(vec![shot_at(100, 200), shot_at(100, 500)], vec![enemy_at(50000, 100)]);
    game.update_with(&quiet(0), true);
    assert_eq!(game.bullets, vec![Bullet::new(100, 0, 500)]);
}

#[test]
fn can_update_sees_a_game_out_of_shape() {
    let mut game = running(vec![], vec![enemy_at(50000, 100)]);
    assert!(game.can_update());
    game.lifes = 4;
    assert!(!game.can_update());
    game.lifes = 0;
    assert!(!game.can_update());
    game.state = GameState::GameOver;
    assert!(game.can_update());
    game.lifes = -1;
    assert!(!game.can_update());
    game.lifes = 3;
    game.state = GameState::Playing;
    game.score = i32::MAX - 9;
    assert!(!game.can_update());
    game.score = i32::MAX - 10;
    assert!(game.can_update());
    game.bullets.push(Bullet::new(0, 0, 500));
    assert!(!game.can_update());
    game.state = GameState::Paused;
    assert!(game.can_update());
    game.state = GameState::Playing;
    game.score = 0;
    game.round = i32::MAX;
    assert!(!game.can_update());
    game.state = GameState::GameOver;
    assert!(game.can_update());
    game.round = -1;
    assert!(!game.can_update());
    game.round = 0;
    game.score = -1;
    assert!(!game.can_update());
}

#[test]
fn first_target_skips_the_dead_and_the_far() {
    let shot = shot_at(11000, 21000);
    let mut dead = enemy_at(10000, 20000);
    dead.is_dead = true;
    let enemies = vec![enemy_at(50000, 20000), dead, enemy_at(10500, 20000)];
    assert_eq!(first_target(&shot, &enemies), 2);
    assert_eq!(first_target(&shot_at(70000, 0), &enemies), 3);
    assert_eq!(first_target(&shot, &vec![]), 0);
}

#[test]
fn strike_all_marks_what_was_hit() {
    let mut spent = shot_at(11000, 21500);
    spent.is_active = false;
    let mut bullets = vec![spent, shot_at(11000, 21500), shot_at(70000, 300)];
    let mut enemies = vec![enemy_at(10000, 20000), enemy_at(50000, 20000)];
    let hits = strike_all(&mut bullets, &mut enemies);
    assert_eq!(hits, 1);
    assert_eq!(bullets[0], spent);
    assert_eq!((bullets[1].y, bullets[1].is_active), (21000, false));
    assert_eq!((bullets[2].y, bullets[2].is_active), (-200, false));
    assert!(enemies[0].is_dead);
    assert!(!enemies[1].is_dead);
    assert_eq!((enemies[0].x, enemies[0].y), (10000, 20000));
}

#[test]
fn descend_all_counts_the_landed() {
    let mut dead = enemy_at(10000, 90000);
    dead.is_dead = true;
    let mut enemies = vec![enemy_at(10000, 60000), dead, enemy_at(50000, 59999)];
    let lost = descend_all(&mut enemies, 80000, 60000);
    assert_eq!(lost, 1);
    assert!(enemies[0].is_dead);
    assert_eq!((enemies[0].x, enemies[0].y), (10000, 60000));
    assert_eq!(enemies[1], dead);
    assert_eq!((enemies[2].x, enemies[2].y, enemies[2].is_dead), (50200, 60029, false));
}

#[test]
fn clearing_keeps_the_order_of_what_is_left() {
    let mut spent = shot_at(2, 2);
    spent.is_active = false;
    let bullets = vec![shot_at(1, 1), spent, shot_at(3, 3)];
    assert_eq!(active_bullets(&bullets), vec![shot_at(1, 1), shot_at(3, 3)]);
    let mut dead = enemy_at(2, 2);
    dead.is_dead = true;
    let enemies = vec![dead, enemy_at(1, 1), dead, enemy_at(3, 3)];
    assert_eq!(live_enemies(&enemies), vec![enemy_at(1, 1), enemy_at(3, 3)]);
    assert!(live_enemies(&vec![dead]).is_empty());
}
