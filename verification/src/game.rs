//! The executable game state and the verified code that drives it: creation,
//! key handling and the per-tick simulation step.

use crate::model::{
    cell_index, commit_dir, core_phase, init_model, key_next, model_wf, occupied_in, opposite,
    screen_of, shift_up, step_x, step_y, tick_beep, tick_next, tick_ok, Dir, SnakeModel,
};
use vstd::prelude::*;

verus! {

/// Ticks between moves when a round starts.
pub const SNAKE_INIT_SPEED: u32 = 30;

/// The concrete game state.  Its meaning is the [`SnakeModel`] given by its
/// view; every transition here is specified against [`tick_next`],
/// [`key_next`] and [`init_model`] on that view.
pub struct Snake {
    /// Current snake length, in cells.
    pub len: u32,
    /// Render buffer, one flag per cell, recomputed every tick.
    pub screen: Vec<u8>,
    /// Body cells, most recent first; only the first `len` slots are live.
    pub bits: Vec<u8>,
    /// Head column.
    pub x: u32,
    /// Head row.
    pub y: u32,
    /// Frame counter.
    pub ctr: usize,
    /// Heading committed for the current move.
    pub dir: Dir,
    /// Heading requested for the next move.
    pub new_dir: Dir,
    /// Ticks between moves.
    pub snake_sp: u32,
    /// Cell index where the fruit sits.
    pub fruit_pos: usize,
    /// Additive counter driving fruit placement.
    pub fruit_rng: usize,
    /// Countdown to the next shrink step of the game-over animation.
    pub game_over_timer: u32,
    /// Countdown to the next move.
    pub snake_move_timer: u32,
    /// Whether the round has ended.
    pub game_over: bool,
}

impl View for Snake {
    type V = SnakeModel;

    open spec fn view(&self) -> SnakeModel {
        SnakeModel {
            len: self.len as nat,
            x: self.x as nat,
            y: self.y as nat,
            bits: self.bits@,
            screen: self.screen@.map(|_i: int, v: u8| v != 0),
            dir: self.dir,
            new_dir: self.new_dir,
            snake_sp: self.snake_sp as nat,
            fruit_pos: self.fruit_pos as nat,
            fruit_rng: self.fruit_rng as nat,
            game_over_timer: self.game_over_timer as nat,
            snake_move_timer: self.snake_move_timer as nat,
            game_over: self.game_over,
            ctr: self.ctr as nat,
        }
    }
}

impl Snake {
    /// A state is well formed when its model is.
    pub open spec fn wf(self) -> bool {
        model_wf(self@)
    }
}

/// A fresh cell buffer: 64 zeroed entries.
fn zero_cells() -> (v: Vec<u8>)
    ensures
        v@.len() == 64,
        forall|i: int| 0 <= i < 64 ==> v@[i] == 0u8,
{
    let mut v: Vec<u8> = Vec::new();
    let mut i: usize = 0;
    while i < 64
        invariant
            i <= 64,
            v@.len() == i,
            forall|j: int| 0 <= j < i ==> v@[j] == 0u8,
        decreases 64 - i,
    {
        v.push(0u8);
        i = i + 1;
    }
    v
}

/// Build the starting state: a one-cell snake at `(3, 4)` heading down, fruit
/// at cell 20, every counter at zero and the board dark.
pub fn init_snake() -> (s: Snake)
    ensures
        s@ == init_model(),
        s.wf(),
{
    let s = Snake {
        len: 1,
        screen: zero_cells(),
        bits: zero_cells(),
        x: 3,
        y: 4,
        snake_sp: SNAKE_INIT_SPEED,
        dir: Dir::Down,
        new_dir: Dir::Down,
        fruit_pos: 20,
        fruit_rng: 0,
        ctr: 0,
        game_over_timer: 0,
        snake_move_timer: 0,
        game_over: false,
    };
    proof {
        assert(s@.bits =~= init_model().bits);
        assert(s@.screen =~= init_model().screen);
        assert(s@ =~= init_model());
    }
    s
}

/// The heading that would undo `d` in one move.
fn opposite_of(d: Dir) -> (o: Dir)
    ensures
        o == opposite(d),
{
    match d {
        Dir::Down => Dir::Up,
        Dir::Up => Dir::Down,
        Dir::Left => Dir::Right,
        Dir::Right => Dir::Left,
    }
}

/// Feed one key press into the state; `d` is the heading a directional key
/// asks for, `None` any other key.  A request that would exactly reverse the
/// committed heading leaves the pending heading alone; every press stirs the
/// fruit counter by the current frame count.
pub fn handle_key(s: &mut Snake, d: Option<Dir>)
    requires
        old(s).fruit_rng + old(s).ctr <= usize::MAX,
    ensures
        final(s)@ == key_next(old(s)@, d),
        old(s).wf() ==> final(s).wf(),
{
    s.fruit_rng = s.fruit_rng + s.ctr;
    match d {
        Option::Some(nd) => {
            let rev = opposite_of(nd);
            if s.dir != rev {
                s.new_dir = nd;
            }
        },
        Option::None => {},
    }
    proof {
        assert(s@ =~= key_next(old(s)@, d));
    }
}

/// Advance `(x, y)` one cell in heading `d`, wrapping at the grid edges.
fn step_head(x: u32, y: u32, d: Dir) -> (p: (u32, u32))
    requires
        x < 8,
        y < 8,
    ensures
        p.0 == step_x(x as nat, d),
        p.1 == step_y(y as nat, d),
        p.0 < 8,
        p.1 < 8,
{
    match d {
        Dir::Down => (x, if y == 7 { 0 } else { y + 1 }),
        Dir::Up => (x, if y == 0 { 7 } else { y - 1 }),
        Dir::Left => (if x == 0 { 7 } else { x - 1 }, y),
        Dir::Right => (if x == 7 { 0 } else { x + 1 }, y),
    }
}

/// Shift the live body slots up one place, freeing slot 0 for the new head.
fn shift_body(bits: &mut Vec<u8>, len: u32)
    requires
        old(bits)@.len() == 64,
        len <= 63,
    ensures
        final(bits)@ == shift_up(old(bits)@, len as int),
{
    let ghost orig = bits@;
    let mut i: usize = len as usize;
    while i > 0
        invariant
            bits@.len() == 64,
            orig.len() == 64,
            i <= len,
            len <= 63,
            forall|j: int| i < j <= len ==> bits@[j] == orig[j - 1],
            forall|j: int| 0 <= j <= i ==> bits@[j] == orig[j],
            forall|j: int| len < j < 64 ==> bits@[j] == orig[j],
        decreases i,
    {
        let v = bits[i - 1];
        bits.set(i, v);
        i = i - 1;
    }
    proof {
        assert(bits@ =~= shift_up(orig, len as int));
    }
}

/// Whether cell `c` appears among the first `len` entries of `bits`.
fn scan_hit(bits: &Vec<u8>, len: u32, c: u8) -> (hit: bool)
    requires
        bits@.len() == 64,
        len <= 64,
    ensures
        hit == occupied_in(bits@, len as int, c),
{
    let mut hit = false;
    let mut i: usize = 0;
    while i < len as usize
        invariant
            bits@.len() == 64,
            i <= len,
            len <= 64,
            hit == occupied_in(bits@, i as int, c),
        decreases len as int - i as int,
    {
        if bits[i] == c {
            hit = true;
            assert(occupied_in(bits@, i + 1, c));
        }
        i = i + 1;
    }
    hit
}

/// Recompute the render buffer: dark everywhere, then the live body cells,
/// then the fruit during the bright half of the blink cycle.
fn render_screen(screen: &mut Vec<u8>, bits: &Vec<u8>, len: u32, fruit_pos: usize, ctr: usize)
    requires
        old(screen)@.len() == 64,
        bits@.len() == 64,
        len <= 64,
        fruit_pos < 64,
        forall|i: int| 0 <= i < 64 ==> bits@[i] < 64,
    ensures
        final(screen)@.len() == 64,
        final(screen)@.map(|_i: int, v: u8| v != 0) == screen_of(
            bits@,
            len as nat,
            fruit_pos as nat,
            ctr as nat,
        ),
{
    let mut i: usize = 0;
    while i < 64
        invariant
            screen@.len() == 64,
            i <= 64,
            forall|j: int| 0 <= j < i ==> screen@[j] == 0u8,
        decreases 64 - i,
    {
        screen.set(i, 0);
        i = i + 1;
    }
    let mut k: usize = 0;
    while k < len as usize
        invariant
            screen@.len() == 64,
            bits@.len() == 64,
            k <= len,
            len <= 64,
            forall|i2: int| 0 <= i2 < 64 ==> bits@[i2] < 64,
            forall|c: int|
                0 <= c < 64 ==> ((screen@[c] != 0) <==> occupied_in(bits@, k as int, c as u8)),
        decreases len as int - k as int,
    {
        let cell = bits[k];
        screen.set(cell as usize, 1);
        proof {
            assert forall|c: int|
                0 <= c < 64 implies ((screen@[c] != 0) <==> occupied_in(
                bits@,
                k + 1,
                c as u8,
            )) by {
                if c == cell as int {
                    assert(bits@[k as int] == c as u8);
                } else {
                    if occupied_in(bits@, k + 1, c as u8) {
                        let w = choose|w: int| 0 <= w < k + 1 && bits@[w] == c as u8;
                        assert(w < k && bits@[w] == c as u8);
                    }
                }
            }
        }
        k = k + 1;
    }
    if ctr % 32 > 16 {
        screen.set(fruit_pos, 1);
    }
    proof {
        let shown = screen@.map(|_i: int, v: u8| v != 0);
        let want = screen_of(bits@, len as nat, fruit_pos as nat, ctr as nat);
        assert forall|c: int| 0 <= c < 64 implies shown[c] == want[c] by {}
        assert(shown =~= want);
    }
}

/// Advance the simulation one tick.
///
/// The pending heading is committed first.  An active snake whose move timer
/// has run out moves one cell with wraparound, grows and re-seats the fruit
/// when the new head cell holds it, shifts its body up one slot, then checks
/// the shifted slots for a self-collision before the new head is written into
/// slot 0; otherwise the move timer counts down.  An ended round counts its
/// animation timer down and shrinks by one cell each time it runs out, until
/// at length zero play restarts at length one.  The render buffer is then
/// recomputed and the frame counted.  Returns whether the caller should sound
/// a beep (fruit eaten, or one shrink step).
pub fn snake_tick(s: &mut Snake) -> (beep: bool)
    requires
        old(s).wf(),
        tick_ok(old(s)@),
    ensures
        final(s)@ == tick_next(old(s)@),
        beep == tick_beep(old(s)@),
        final(s).wf(),
{
    let ghost m0 = old(s)@;
    let ghost mc = commit_dir(m0);
    s.dir = s.new_dir;
    assert(s@ =~= mc);
    let mut beep = false;
    if !s.game_over {
        if s.snake_move_timer == 0 {
            s.snake_move_timer = s.snake_sp;
            let (nx, ny) = step_head(s.x, s.y, s.dir);
            s.x = nx;
            s.y = ny;
            let hd: u8 = (nx + ny * 8) as u8;
            assert(hd == cell_index(nx as nat, ny as nat));
            if hd as usize == s.fruit_pos {
                beep = true;
                s.fruit_pos = s.fruit_rng % 64;
                s.fruit_rng = s.fruit_rng + 43;
                s.len = s.len + 1;
            }
            shift_body(&mut s.bits, s.len);
            let hit = scan_hit(&s.bits, s.len, hd);
            if hit {
                s.game_over = true;
            }
            s.bits.set(0, hd);
            proof {
                assert(s@ =~= core_phase(mc).0);
                assert(beep == core_phase(mc).1);
            }
        } else {
            s.snake_move_timer = s.snake_move_timer - 1;
            proof {
                assert(s@ =~= core_phase(mc).0);
            }
        }
    } else {
        if s.game_over_timer == 0 {
            s.game_over_timer = 20;
            if s.len != 0 {
                beep = true;
                s.len = s.len - 1;
            } else {
                s.len = 1;
                s.game_over = false;
            }
        } else {
            s.game_over_timer = s.game_over_timer - 1;
        }
        proof {
            assert(s@ =~= core_phase(mc).0);
            assert(beep == core_phase(mc).1);
        }
    }
    proof {
        assert(model_wf(s@));
    }
    render_screen(&mut s.screen, &s.bits, s.len, s.fruit_pos, s.ctr);
    s.ctr = s.ctr + 1;
    proof {
        assert(s@ =~= tick_next(m0));
    }
    beep
}

/// Whether the next [`snake_tick`] stays within the machine limits stated by
/// [`tick_ok`]; the unverified shell checks this before each tick.
pub fn tick_ready(s: &Snake) -> (ok: bool)
    requires
        s.wf(),
    ensures
        ok == tick_ok(s@),
{
    if s.ctr == usize::MAX {
        return false;
    }
    if s.game_over || s.snake_move_timer != 0 {
        return true;
    }
    let (nx, ny) = step_head(s.x, s.y, s.new_dir);
    let hd: u8 = (nx + ny * 8) as u8;
    let ate = hd as usize == s.fruit_pos;
    let len1 = if ate {
        s.len + 1
    } else {
        s.len
    };
    len1 <= 63 && (!ate || s.fruit_rng <= usize::MAX - 43)
}

/// Whether [`handle_key`] can stir the fruit counter without overflow; the
/// unverified shell checks this before each key press.
pub fn key_ready(s: &Snake) -> (ok: bool)
    ensures
        ok == (s@.fruit_rng + s@.ctr <= usize::MAX),
{
    s.fruit_rng <= usize::MAX - s.ctr
}

} // verus!
