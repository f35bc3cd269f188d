//! The mathematical model of the game: an abstract state record and the
//! per-tick transition on it.  Everything here is specification-level; the
//! executable state and code live in [`crate::game`].

use vstd::prelude::*;

verus! {

/// One of the four headings the snake can take.
#[derive(Clone, Copy, PartialEq, Eq, Structural, Debug)]
pub enum Dir {
    Down,
    Up,
    Left,
    Right,
}

/// The abstract game state: what a [`crate::game::Snake`] denotes.
///
/// The grid is 8 cells wide and 8 cells tall, linearised as
/// `x + y * 8`, and it wraps at the edges.
#[verifier::ext_equal]
pub struct SnakeModel {
    /// Current snake length, in cells.
    pub len: nat,
    /// Head column, in `[0, 8)`.
    pub x: nat,
    /// Head row, in `[0, 8)`.
    pub y: nat,
    /// Body cells, most recent first; only the first `len` slots are live.
    pub bits: Seq<u8>,
    /// Render projection: which cells light up.
    pub screen: Seq<bool>,
    /// Heading committed for the current move.
    pub dir: Dir,
    /// Heading requested for the next move.
    pub new_dir: Dir,
    /// Ticks between moves.
    pub snake_sp: nat,
    /// Cell index where the fruit sits.
    pub fruit_pos: nat,
    /// Additive counter driving fruit placement.
    pub fruit_rng: nat,
    /// Countdown to the next shrink step of the game-over animation.
    pub game_over_timer: nat,
    /// Countdown to the next move.
    pub snake_move_timer: nat,
    /// Whether the round has ended and the shrink animation is running.
    pub game_over: bool,
    /// Frame counter; drives the fruit blink.
    pub ctr: nat,
}

/// Well-formedness of a state: the head sits on the grid, the fruit names a
/// cell, the body fits the board and every recorded cell is on the board.
pub open spec fn model_wf(m: SnakeModel) -> bool {
    &&& m.x < 8
    &&& m.y < 8
    &&& m.len <= 64
    &&& m.fruit_pos < 64
    &&& m.bits.len() == 64
    &&& m.screen.len() == 64
    &&& forall|i: int| 0 <= i < 64 ==> m.bits[i] < 64
}

/// The heading that would undo `d` in one move.
pub open spec fn opposite(d: Dir) -> Dir {
    match d {
        Dir::Down => Dir::Up,
        Dir::Up => Dir::Down,
        Dir::Left => Dir::Right,
        Dir::Right => Dir::Left,
    }
}

/// Head column after one move in heading `d`, wrapping at the vertical edges.
pub open spec fn step_x(x: nat, d: Dir) -> nat {
    match d {
        Dir::Left => if x == 0 { 7 } else { (x - 1) as nat },
        Dir::Right => if x == 7 { 0 } else { x + 1 },
        _ => x,
    }
}

/// Head row after one move in heading `d`, wrapping at the horizontal edges.
pub open spec fn step_y(y: nat, d: Dir) -> nat {
    match d {
        Dir::Up => if y == 0 { 7 } else { (y - 1) as nat },
        Dir::Down => if y == 7 { 0 } else { y + 1 },
        _ => y,
    }
}

/// Linear index of the cell at `(x, y)`: column plus row times the grid height.
pub open spec fn cell_index(x: nat, y: nat) -> nat {
    x + y * 8
}

/// Whether cell `c` appears among the first `len` entries of `bits`.
pub open spec fn occupied_in(bits: Seq<u8>, len: int, c: u8) -> bool {
    exists|i: int| 0 <= i < len && bits[i] == c
}

/// `bits` with each slot in `1 ..= len` holding what the slot below held,
/// making room at slot 0; slot 0 and the slots above `len` keep their value.
pub open spec fn shift_up(bits: Seq<u8>, len: int) -> Seq<u8> {
    Seq::new(bits.len(), |i: int| if 1 <= i <= len { bits[i - 1] } else { bits[i] })
}

/// The render projection: a cell lights up when a live body slot names it, or
/// when the fruit sits on it during the bright half of the 32-frame blink
/// cycle.
pub open spec fn screen_of(bits: Seq<u8>, len: nat, fruit_pos: nat, ctr: nat) -> Seq<bool> {
    Seq::new(
        64,
        |c: int| occupied_in(bits, len as int, c as u8) || (ctr % 32 > 16 && c == fruit_pos),
    )
}

/// One movement step of an active snake whose move timer has run out: the head
/// advances one cell with wraparound, the snake grows and the fruit moves if
/// the new head cell holds the fruit, the body shifts up one slot, and only
/// then are the shifted slots searched for a self-collision, so that a snake
/// closing a loop onto the cell its tail is vacating survives.  The second
/// component reports whether fruit was eaten.
///
/// The new fruit cell comes from the fruit counter alone, with no check
/// against the body, so fruit may land under the snake; that is accepted
/// behaviour, kept as it is.
pub open spec fn move_phase(m: SnakeModel) -> (SnakeModel, bool) {
    let x1 = step_x(m.x, m.dir);
    let y1 = step_y(m.y, m.dir);
    let hd = cell_index(x1, y1);
    let ate = hd == m.fruit_pos;
    let len1: nat = if ate { m.len + 1 } else { m.len };
    let body = shift_up(m.bits, len1 as int);
    (
        SnakeModel {
            x: x1,
            y: y1,
            len: len1,
            bits: body.update(0, hd as u8),
            snake_move_timer: m.snake_sp,
            fruit_pos: if ate { m.fruit_rng % 64 } else { m.fruit_pos },
            fruit_rng: if ate { m.fruit_rng + 43 } else { m.fruit_rng },
            game_over: occupied_in(body, len1 as int, hd as u8),
            ..m
        },
        ate,
    )
}

/// One tick after the pending heading has been committed: an active snake
/// moves when due and otherwise counts its move timer down; an ended round
/// counts its animation timer down and, when it runs out, shrinks by one cell
/// with a beep, until at length zero the round restarts at length one.  The
/// second component reports whether the tick asks for a beep.
pub open spec fn core_phase(m: SnakeModel) -> (SnakeModel, bool) {
    if !m.game_over {
        if m.snake_move_timer == 0 {
            move_phase(m)
        } else {
            (SnakeModel { snake_move_timer: (m.snake_move_timer - 1) as nat, ..m }, false)
        }
    } else {
        if m.game_over_timer == 0 {
            if m.len != 0 {
                (SnakeModel { game_over_timer: 20, len: (m.len - 1) as nat, ..m }, true)
            } else {
                (SnakeModel { game_over_timer: 20, len: 1, game_over: false, ..m }, false)
            }
        } else {
            (SnakeModel { game_over_timer: (m.game_over_timer - 1) as nat, ..m }, false)
        }
    }
}

/// The pending heading takes effect at the top of every tick.
pub open spec fn commit_dir(m: SnakeModel) -> SnakeModel {
    SnakeModel { dir: m.new_dir, ..m }
}

/// The full per-tick transition: commit the pending heading, run the core
/// step, recompute the render projection from the resulting state, and count
/// the frame.
pub open spec fn tick_next(m: SnakeModel) -> SnakeModel {
    let c = core_phase(commit_dir(m)).0;
    SnakeModel { screen: screen_of(c.bits, c.len, c.fruit_pos, c.ctr), ctr: c.ctr + 1, ..c }
}

/// Whether the tick asks the caller to sound a beep: fruit was eaten, or the
/// game-over animation took a shrink step.
pub open spec fn tick_beep(m: SnakeModel) -> bool {
    core_phase(commit_dir(m)).1
}

/// The machine-level side conditions under which one executable tick runs
/// without overflow or an out-of-range body slot: the frame counter has room,
/// and a due move leaves the body shift within the 64 slots with the fruit
/// counter still in range.
pub open spec fn tick_ok(m: SnakeModel) -> bool {
    let c = commit_dir(m);
    let ate = cell_index(step_x(c.x, c.dir), step_y(c.y, c.dir)) == c.fruit_pos;
    let len1: nat = if ate { c.len + 1 } else { c.len };
    &&& m.ctr + 1 <= usize::MAX
    &&& (!c.game_over && c.snake_move_timer == 0 ==> {
        &&& len1 <= 63
        &&& (ate ==> c.fruit_rng + 43 <= usize::MAX)
    })
}

/// Effect of one key press: every press stirs the fruit counter by the current
/// frame count, and a directional press turns the pending heading unless it
/// would exactly reverse the committed one.
pub open spec fn key_next(m: SnakeModel, d: Option<Dir>) -> SnakeModel {
    let stirred = SnakeModel { fruit_rng: m.fruit_rng + m.ctr, ..m };
    match d {
        Option::Some(nd) => if m.dir != opposite(nd) {
            SnakeModel { new_dir: nd, ..stirred }
        } else {
            stirred
        },
        Option::None => stirred,
    }
}

/// The state the game starts in: a one-cell snake at `(3, 4)` heading down,
/// fruit at cell 20, every counter at zero and the board dark.
pub open spec fn init_model() -> SnakeModel {
    SnakeModel {
        len: 1,
        x: 3,
        y: 4,
        bits: Seq::new(64, |_i: int| 0u8),
        screen: Seq::new(64, |_i: int| false),
        dir: Dir::Down,
        new_dir: Dir::Down,
        snake_sp: 30,
        fruit_pos: 20,
        fruit_rng: 0,
        game_over_timer: 0,
        snake_move_timer: 0,
        game_over: false,
        ctr: 0,
    }
}

/// The state after `n` whole ticks.
pub open spec fn run_ticks(m: SnakeModel, n: nat) -> SnakeModel
    decreases n,
{
    if n == 0 {
        m
    } else {
        run_ticks(tick_next(m), (n - 1) as nat)
    }
}

} // verus!
