//! Behaviour of the per-tick simulation step.

use turbo_snake::game::{init_snake, snake_tick, tick_ready};
use turbo_snake::model::Dir;

#[test]
fn initial_state() {
    let s = init_snake();
    assert_eq!(s.len, 1);
    assert_eq!((s.x, s.y), (3, 4));
    assert_eq!(s.dir, Dir::Down);
    assert_eq!(s.new_dir, Dir::Down);
    assert_eq!(s.snake_sp, 30);
    assert_eq!(s.fruit_pos, 20);
    assert_eq!(s.fruit_rng, 0);
    assert_eq!(s.ctr, 0);
    assert_eq!(s.snake_move_timer, 0);
    assert_eq!(s.game_over_timer, 0);
    assert!(!s.game_over);
    assert_eq!(s.bits.len(), 64);
    assert_eq!(s.screen.len(), 64);
    assert!(s.bits.iter().all(|&b| b == 0));
    assert!(s.screen.iter().all(|&c| c == 0));
}

#[test]
fn wraps_right_edge() {
    let mut s = init_snake();
    s.x = 7;
    s.y = 7;
    s.new_dir = Dir::Right;
    let beep = snake_tick(&mut s);
    assert_eq!((s.x, s.y), (0, 7));
    assert_eq!(s.bits[0], 0 + 7 * 8);
    assert!(!beep);
}

#[test]
fn wraps_top_edge() {
    let mut s = init_snake();
    s.x = 0;
    s.y = 0;
    s.new_dir = Dir::Up;
    let beep = snake_tick(&mut s);
    assert_eq!((s.x, s.y), (0, 7));
    assert_eq!(s.bits[0], 0 + 7 * 8);
    assert!(!beep);
}

#[test]
fn wraps_bottom_edge() {
    let mut s = init_snake();
    s.x = 5;
    s.y = 7;
    s.new_dir = Dir::Down;
    snake_tick(&mut s);
    assert_eq!((s.x, s.y), (5, 0));
    assert_eq!(s.bits[0], 5);
}

#[test]
fn wraps_left_edge() {
    let mut s = init_snake();
    s.x = 0;
    s.y = 3;
    s.new_dir = Dir::Left;
    snake_tick(&mut s);
    assert_eq!((s.x, s.y), (7, 3));
    assert_eq!(s.bits[0], 7 + 3 * 8);
}

#[test]
fn move_timer_throttles() {
    let mut s = init_snake();
    s.snake_move_timer = 5;
    let beep = snake_tick(&mut s);
    assert_eq!(s.snake_move_timer, 4);
    assert_eq!((s.x, s.y), (3, 4));
    assert_eq!(s.len, 1);
    assert!(!beep);
    assert_eq!(s.ctr, 1);
}

#[test]
fn move_resets_timer_to_speed() {
    let mut s = init_snake();
    snake_tick(&mut s);
    assert_eq!(s.snake_move_timer, 30);
    assert_eq!((s.x, s.y), (3, 5));
    assert_eq!(s.bits[0], 3 + 5 * 8);
}

#[test]
fn eating_fruit_grows_and_reseats() {
    // Cell 20 is (4, 2); approach it from the left with the fruit counter at 7.
    let mut s = init_snake();
    s.x = 3;
    s.y = 2;
    s.new_dir = Dir::Right;
    s.fruit_rng = 7;
    assert_eq!(s.fruit_pos, 20);
    let beep = snake_tick(&mut s);
    assert!(beep);
    assert_eq!(s.len, 2);
    assert_eq!(s.fruit_pos, 7 % 64);
    assert_eq!(s.fruit_rng, 7 + 43);
    assert_eq!(s.bits[0], 20);
    assert!(!s.game_over);
}

#[test]
fn fruit_position_uses_pre_increment_counter() {
    // The new fruit cell comes from the counter as it was before the +43 step.
    let mut s = init_snake();
    s.x = 3;
    s.y = 2;
    s.new_dir = Dir::Right;
    s.fruit_rng = 130;
    snake_tick(&mut s);
    assert_eq!(s.fruit_pos, 130 % 64);
    assert_eq!(s.fruit_rng, 130 + 43);
}

#[test]
fn self_collision_ends_round() {
    // Head at cell 20 = (4, 2), body trailing left at 19 and 18; turning
    // around onto 19 must end the round.
    let mut s = init_snake();
    s.x = 4;
    s.y = 2;
    s.dir = Dir::Right;
    s.new_dir = Dir::Left;
    s.len = 3;
    s.bits[0] = 20;
    s.bits[1] = 19;
    s.bits[2] = 18;
    s.fruit_pos = 63;
    let beep = snake_tick(&mut s);
    assert!(s.game_over);
    assert!(!beep);
    assert_eq!(s.bits[0], 19);
}

#[test]
fn vacating_head_cell_is_still_checked() {
    // The cell the head vacates stays in the collision scan (it becomes
    // slot 1 after the shift), but the head never moves onto it in a single
    // step, so a straight run survives.
    let mut s = init_snake();
    s.x = 4;
    s.y = 2;
    s.dir = Dir::Right;
    s.new_dir = Dir::Right;
    s.len = 2;
    s.bits[0] = 20;
    s.bits[1] = 19;
    s.fruit_pos = 63;
    snake_tick(&mut s);
    assert!(!s.game_over);
    assert_eq!(s.bits[0], 21);
    assert_eq!(s.bits[1], 20);
    assert_eq!(s.bits[2], 19);
}

#[test]
fn closed_loop_does_not_collide() {
    // A length-4 snake occupying the square 0, 1, 9, 8 with its head on 0
    // moves down onto 8, the cell its tail tip vacates this very move.
    let mut s = init_snake();
    s.x = 0;
    s.y = 0;
    s.dir = Dir::Down;
    s.new_dir = Dir::Down;
    s.len = 4;
    s.bits[0] = 0;
    s.bits[1] = 1;
    s.bits[2] = 9;
    s.bits[3] = 8;
    s.fruit_pos = 63;
    let beep = snake_tick(&mut s);
    assert!(!s.game_over);
    assert!(!beep);
    assert_eq!((s.x, s.y), (0, 1));
    assert_eq!(s.bits[0], 8);
    assert_eq!(s.bits[1], 0);
    assert_eq!(s.bits[2], 1);
    assert_eq!(s.bits[3], 9);
}

#[test]
fn game_over_animation_shrinks_to_one() {
    // From game over at length 2 with the countdown at zero, the round is
    // back in play at length 1 after 0 + 21 * 2 + 1 ticks, with one beep per
    // shrink step.
    let mut s = init_snake();
    s.len = 2;
    s.game_over = true;
    s.game_over_timer = 0;
    let mut beeps = 0;
    for _ in 0..43 {
        assert!(s.game_over);
        if snake_tick(&mut s) {
            beeps += 1;
        }
    }
    assert!(!s.game_over);
    assert_eq!(s.len, 1);
    assert_eq!(s.game_over_timer, 20);
    assert_eq!(beeps, 2);
}

#[test]
fn game_over_timer_counts_down() {
    let mut s = init_snake();
    s.game_over = true;
    s.game_over_timer = 5;
    let beep = snake_tick(&mut s);
    assert!(!beep);
    assert_eq!(s.game_over_timer, 4);
    assert_eq!(s.len, 1);
    assert!(s.game_over);
}

#[test]
fn shrink_step_beeps_and_resets_timer() {
    let mut s = init_snake();
    s.len = 3;
    s.game_over = true;
    s.game_over_timer = 0;
    let beep = snake_tick(&mut s);
    assert!(beep);
    assert_eq!(s.len, 2);
    assert_eq!(s.game_over_timer, 20);
    assert!(s.game_over);
}

#[test]
fn shrunk_to_zero_restarts() {
    let mut s = init_snake();
    s.len = 0;
    s.game_over = true;
    s.game_over_timer = 0;
    let beep = snake_tick(&mut s);
    assert!(!beep);
    assert_eq!(s.len, 1);
    assert!(!s.game_over);
    assert_eq!(s.game_over_timer, 20);
}

#[test]
fn screen_shows_body_and_blinking_fruit() {
    let mut s = init_snake();
    s.ctr = 17;  // bright half of the 32-frame blink cycle
    snake_tick(&mut s);
    assert_eq!(s.screen[(3 + 5 * 8) as usize], 1);  // the head cell
    assert_eq!(s.screen[20], 1);  // the fruit
    let lit: Vec<usize> = (0..64).filter(|&c| s.screen[c] != 0).collect();
    assert_eq!(lit, vec![20, 43]);
}

#[test]
fn screen_hides_fruit_in_dark_half() {
    let mut s = init_snake();
    snake_tick(&mut s);  // ctr was 0: dark half of the cycle
    assert_eq!(s.screen[20], 0);
    let lit: Vec<usize> = (0..64).filter(|&c| s.screen[c] != 0).collect();
    assert_eq!(lit, vec![43]);
}

#[test]
fn tick_ready_guards_machine_limits() {
    let s = init_snake();
    assert!(tick_ready(&s));
    let mut worn = init_snake();
    worn.ctr = usize::MAX;
    assert!(!tick_ready(&worn));
    // A board-filling snake about to grow has no free slot for the shift.
    let mut full = init_snake();
    full.x = 3;
    full.y = 2;
    full.new_dir = Dir::Right;
    full.len = 63;
    assert_eq!(full.fruit_pos, 20);
    assert!(!tick_ready(&full));
    full.fruit_pos = 63;
    assert!(tick_ready(&full));
}
