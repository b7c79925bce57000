//! The scrolling background: a stack of tiles that wraps around.
use vstd::prelude::*;
use vstd::arithmetic::div_mod::{lemma_fundamental_div_mod, lemma_fundamental_div_mod_converse};
use crate::config::{SCROLL_SPEED, TILE_BOTTOM, TILE_COUNT, TILE_SIZE, TILE_SPAN, TILE_WRAP_Y};
use crate::motion::{distance, spec_distance};

verus! {

/// One background tile; only its height changes.
#[derive(Clone, Copy, Debug, PartialEq, Eq, Structural)]
pub struct BackgroundTile {
    pub y: i64,
}

/// A tile's height after it scrolls down by `d`: where it falls below the
/// wrap line it moves up by whole stack lengths, keeping the overshoot, so
/// that it lands in `[TILE_WRAP_Y, TILE_WRAP_Y + TILE_SPAN)`.
pub open spec fn spec_scroll(y: int, d: int) -> int {
    let z = y - d;
    if z < TILE_WRAP_Y {
        TILE_WRAP_Y + (z - TILE_WRAP_Y) % (TILE_SPAN as int)
    } else {
        z
    }
}

/// Total scroll distance over a sequence of tick lengths.
pub open spec fn scrolled(dts: Seq<nat>) -> int
    decreases dts.len(),
{
    if dts.len() == 0 {
        0
    } else {
        spec_distance(SCROLL_SPEED as int, dts[0] as int) + scrolled(dts.drop_first())
    }
}

/// A tile's height after one tick for each length in `dts`.
pub open spec fn scroll_ticks(y: int, dts: Seq<nat>) -> int
    decreases dts.len(),
{
    if dts.len() == 0 {
        y
    } else {
        scroll_ticks(
            spec_scroll(y, spec_distance(SCROLL_SPEED as int, dts[0] as int)),
            dts.drop_first(),
        )
    }
}

impl BackgroundTile {
    /// The tiles at startup, stacked upward from `TILE_BOTTOM`.
    pub fn initial_stack() -> (r: Vec<BackgroundTile>)
        ensures
            r@.len() == TILE_COUNT,
            forall|i: int| 0 <= i < TILE_COUNT ==> r@[i].y == TILE_BOTTOM + i * TILE_SIZE,
    {
        let mut r: Vec<BackgroundTile> = Vec::new();
        let mut i: i64 = 0;
        while i < TILE_COUNT
            invariant
                0 <= i <= TILE_COUNT,
                r@.len() == i,
                forall|j: int| 0 <= j < i ==> r@[j].y == TILE_BOTTOM + j * TILE_SIZE,
            decreases TILE_COUNT - i,
        {
            r.push(BackgroundTile { y: TILE_BOTTOM + i * TILE_SIZE });
            i = i + 1;
        }
        r
    }

    /// The tile after scrolling for `dt`.
    pub open spec fn spec_advance(self, dt: int) -> BackgroundTile {
        BackgroundTile { y: spec_scroll(self.y as int, spec_distance(SCROLL_SPEED as int, dt)) as i64 }
    }

    pub fn advance(&mut self, dt: u64)
        ensures
            *final(self) == old(self).spec_advance(dt as int),
    {
        let d: u128 = distance(SCROLL_SPEED, dt);
        let z: i128 = self.y as i128 - d as i128;
        if z < TILE_WRAP_Y as i128 {
            let u: u128 = (TILE_WRAP_Y as i128 - z) as u128;
            let r: u128 = u % TILE_SPAN as u128;
            proof {
                let s = TILE_SPAN as int;
                lemma_fundamental_div_mod(u as int, s);
                let q = u as int / s;
                if r == 0 {
                    lemma_fundamental_div_mod_converse(z - TILE_WRAP_Y, s, -q, 0);
                } else {
                    lemma_fundamental_div_mod_converse(z - TILE_WRAP_Y, s, -q - 1, s - r);
                }
            }
            if r == 0 {
                self.y = TILE_WRAP_Y;
            } else {
                self.y = TILE_WRAP_Y + TILE_SPAN - r as i64;
            }
        } else {
            self.y = z as i64;
        }
    }
}

/// Each tile scrolls for `dt`.
pub fn move_tiles(tiles: &mut Vec<BackgroundTile>, dt: u64)
    ensures
        final(tiles)@ == old(tiles)@.map_values(|t: BackgroundTile| t.spec_advance(dt as int)),
{
    let ghost s = tiles@;
    let mut moved: Vec<BackgroundTile> = Vec::new();
    let mut i: usize = 0;
    while i < tiles.len()
        invariant
            tiles@ == s,
            i <= s.len(),
            moved@.len() == i,
            forall|j: int| 0 <= j < i ==> moved@[j] == s[j].spec_advance(dt as int),
        decreases s.len() - i,
    {
        let mut t: BackgroundTile = tiles[i];
        t.advance(dt);
        moved.push(t);
        i = i + 1;
    }
    assert(moved@ =~= s.map_values(|t: BackgroundTile| t.spec_advance(dt as int)));
    *tiles = moved;
}

/// `k` whole lengths of the stack of tiles.
pub open spec fn stack_lengths(k: int) -> int {
    k * TILE_SPAN
}

proof fn lemma_scroll_step(y: int, d: int)
    ensures
        exists|k: int| spec_scroll(y, d) == y - d + #[trigger] stack_lengths(k),
        TILE_WRAP_Y <= y <= TILE_WRAP_Y + TILE_SPAN && d >= 0 ==> TILE_WRAP_Y <= spec_scroll(y, d)
            <= TILE_WRAP_Y + TILE_SPAN,
{
    let z = y - d;
    let s = TILE_SPAN as int;
    if z < TILE_WRAP_Y {
        lemma_fundamental_div_mod(z - TILE_WRAP_Y, s);
        let q = (z - TILE_WRAP_Y) / s;
        assert(spec_scroll(y, d) == y - d + stack_lengths(-q));
    } else {
        assert(spec_scroll(y, d) == y - d + stack_lengths(0));
    }
}

/// Scrolling tick by tick lands each tile where the total scroll distance,
/// taken modulo the length of the stack, puts it: the tiles keep their
/// spacing and never jump. A tile that starts within one stack length above
/// the wrap line stays there.
pub proof fn lemma_scroll_is_modular(y: int, dts: Seq<nat>)
    ensures
        exists|k: int| scroll_ticks(y, dts) == y - scrolled(dts) + #[trigger] stack_lengths(k),
        TILE_WRAP_Y <= y <= TILE_WRAP_Y + TILE_SPAN ==> TILE_WRAP_Y <= scroll_ticks(y, dts)
            <= TILE_WRAP_Y + TILE_SPAN,
    decreases dts.len(),
{
    if dts.len() > 0 {
        let d = spec_distance(SCROLL_SPEED as int, dts[0] as int);
        assert(d >= 0) by (nonlinear_arith)
            requires d == 40_000 * (dts[0] as int) / 1_000_000;
        lemma_scroll_step(y, d);
        let y1 = spec_scroll(y, d);
        lemma_scroll_is_modular(y1, dts.drop_first());
        let k1 = choose|k: int| y1 == y - d + #[trigger] stack_lengths(k);
        let k2 = choose|k: int|
            scroll_ticks(y1, dts.drop_first()) == y1 - scrolled(dts.drop_first()) + #[trigger] stack_lengths(k);
        assert(scroll_ticks(y, dts) == y - scrolled(dts) + stack_lengths(k1 + k2));
    } else {
        assert(scroll_ticks(y, dts) == y - scrolled(dts) + stack_lengths(0));
    }
}

} // verus!
