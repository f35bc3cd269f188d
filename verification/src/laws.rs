//! Laws of the simulation, proved against the model transition.

use crate::model::{
    cell_index, key_next, model_wf, occupied_in, opposite, run_ticks, shift_up, step_x, step_y,
    tick_next, Dir, SnakeModel,
};
use vstd::prelude::*;

verus! {

/// An active snake whose move timer has run out moves to the wrapped
/// neighbour cell, and that cell's linear index — column plus row times the
/// grid height — lands in body slot 0.
pub proof fn lemma_head_cell(m: SnakeModel)
    requires
        model_wf(m),
        !m.game_over,
        m.snake_move_timer == 0,
    ensures
        tick_next(m).x == step_x(m.x, m.new_dir),
        tick_next(m).y == step_y(m.y, m.new_dir),
        tick_next(m).bits[0] == cell_index(step_x(m.x, m.new_dir), step_y(m.y, m.new_dir)) as u8,
{
}

/// Fruit consumption: when the moved head lands on the fruit cell, the length
/// grows by exactly one, the fruit moves to the cell named by the old fruit
/// counter modulo the grid area, and the counter then advances by exactly 43.
pub proof fn lemma_eat_fruit(m: SnakeModel)
    requires
        !m.game_over,
        m.snake_move_timer == 0,
        cell_index(step_x(m.x, m.new_dir), step_y(m.y, m.new_dir)) == m.fruit_pos,
    ensures
        tick_next(m).len == m.len + 1,
        tick_next(m).fruit_pos == m.fruit_rng % 64,
        tick_next(m).fruit_rng == m.fruit_rng + 43,
{
}

/// Self-collision is detected exactly when the new head cell matches an
/// occupied body slot after the shift; over the pre-move body that means
/// slot 0 — the cell the head vacates — or any slot strictly below the tail
/// tip.  The tail tip itself escapes the check, which is what lets a snake
/// close a loop.
pub proof fn lemma_collision_iff(m: SnakeModel)
    requires
        model_wf(m),
        !m.game_over,
        m.snake_move_timer == 0,
        m.len >= 1,
        cell_index(step_x(m.x, m.new_dir), step_y(m.y, m.new_dir)) == m.fruit_pos ==> m.len
            <= 63,
    ensures
        ({
            let hd = cell_index(step_x(m.x, m.new_dir), step_y(m.y, m.new_dir));
            let len1: int = if hd == m.fruit_pos {
                m.len + 1int
            } else {
                m.len as int
            };
            &&& (tick_next(m).game_over <==> occupied_in(
                shift_up(m.bits, len1),
                len1,
                hd as u8,
            ))
            &&& (occupied_in(shift_up(m.bits, len1), len1, hd as u8) <==> (m.bits[0] == hd as u8
                || exists|j: int| 0 <= j < len1 - 1 && m.bits[j] == hd as u8))
        }),
{
    let hd = cell_index(step_x(m.x, m.new_dir), step_y(m.y, m.new_dir));
    let len1: int = if hd == m.fruit_pos {
        m.len + 1int
    } else {
        m.len as int
    };
    let body = shift_up(m.bits, len1);
    if occupied_in(body, len1, hd as u8) {
        let i = choose|i: int| 0 <= i < len1 && body[i] == hd as u8;
        if i == 0 {
            assert(m.bits[0] == hd as u8);
        } else {
            assert(m.bits[i - 1] == hd as u8);
        }
    }
    if m.bits[0] == hd as u8 {
        assert(body[0] == hd as u8);
    }
    if exists|j: int| 0 <= j < len1 - 1 && m.bits[j] == hd as u8 {
        let j = choose|j: int| 0 <= j < len1 - 1 && m.bits[j] == hd as u8;
        assert(body[j + 1] == hd as u8);
    }
}

/// The closed-loop case: a head that moves onto the very cell its tail tip is
/// vacating, while touching no other occupied slot and no fruit, does not end
/// the round.
pub proof fn lemma_loop_closing(m: SnakeModel)
    requires
        model_wf(m),
        !m.game_over,
        m.snake_move_timer == 0,
        m.len >= 2,
        ({
            let hd = cell_index(step_x(m.x, m.new_dir), step_y(m.y, m.new_dir));
            &&& hd != m.fruit_pos
            &&& m.bits[m.len - 1] == hd as u8
            &&& forall|j: int| 0 <= j < m.len - 1 ==> m.bits[j] != hd as u8
        }),
    ensures
        !tick_next(m).game_over,
{
    let hd = cell_index(step_x(m.x, m.new_dir), step_y(m.y, m.new_dir));
    let body = shift_up(m.bits, m.len as int);
    assert forall|i: int| 0 <= i < m.len implies body[i] != hd as u8 by {
        if i == 0 {
            assert(body[0] == m.bits[0]);
        } else {
            assert(body[i] == m.bits[i - 1]);
        }
    }
    assert(!occupied_in(body, m.len as int, hd as u8));
}

/// Reversal requests are rejected: a key asking for the exact opposite of the
/// committed heading leaves the pending heading unchanged.
pub proof fn lemma_reversal_rejected(m: SnakeModel, nd: Dir)
    requires
        m.dir == opposite(nd),
    ensures
        key_next(m, Some(nd)).new_dir == m.new_dir,
{
}

/// Length of the game-over animation: a round that has ended with length `L`
/// and shrink countdown `t` is, after `t + 21 * L + 1` further ticks, back in
/// play with length 1.  Each shrink step costs one tick plus the 20-tick
/// countdown that follows it, and one final step restarts play.
pub proof fn lemma_game_over_animation(m: SnakeModel)
    requires
        m.game_over,
    ensures
        !run_ticks(m, (m.game_over_timer + 21 * m.len + 1) as nat).game_over,
        run_ticks(m, (m.game_over_timer + 21 * m.len + 1) as nat).len == 1,
    decreases m.game_over_timer + 21 * m.len,
{
    let n = (m.game_over_timer + 21 * m.len + 1) as nat;
    let m1 = tick_next(m);
    assert(run_ticks(m, n) == run_ticks(m1, (n - 1) as nat));
    if m.game_over_timer == 0 {
        if m.len == 0 {
            assert(m1.len == 1 && !m1.game_over);
            assert(run_ticks(m1, 0) == m1);
        } else {
            assert(m1.game_over && m1.game_over_timer == 20 && m1.len == m.len - 1);
            lemma_game_over_animation(m1);
        }
    } else {
        assert(m1.game_over && m1.game_over_timer == m.game_over_timer - 1 && m1.len == m.len);
        lemma_game_over_animation(m1);
    }
}

} // verus!
