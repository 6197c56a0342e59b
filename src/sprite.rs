use vstd::prelude::*;

use crate::machine::{
    Chip8, MachineState, HEIGHT, MEMORY_SIZE, PIXEL_OFF, PIXEL_ON, SCREEN_SIZE, WIDTH,
};

verus! {

/// Bit `c` of a sprite row, counted from the most significant bit.
pub open spec fn sprite_bit(byte: u8, c: int) -> bool {
    (byte >> ((7 - c) as u8)) & 1u8 == 1u8
}

/// The sprite column that lands on pixel `p` when the sprite's left edge is
/// at `vx`, the screen wrapping horizontally.
pub open spec fn sprite_col(vx: u8, p: int) -> int {
    (p % (WIDTH as int) - vx) % (WIDTH as int)
}

/// The sprite row that lands on pixel `p` when the sprite's top edge is at
/// `vy`, the screen wrapping vertically.
pub open spec fn sprite_row(vy: u8, p: int) -> int {
    (p / (WIDTH as int) - vy) % (HEIGHT as int)
}

/// The pixel on which sprite row `i`, column `j` lands.
pub open spec fn sprite_pixel(vx: u8, vy: u8, i: int, j: int) -> int {
    (vx + j) % (WIDTH as int) + ((vy + i) % (HEIGHT as int)) * (WIDTH as int)
}

/// Whether the `n`-row sprite read from memory at the index register of `m`,
/// drawn at `(vx, vy)`, has a set bit on pixel `p`.
pub open spec fn sprite_covers(m: MachineState, vx: u8, vy: u8, n: u8, p: int) -> bool {
    let r = sprite_row(vy, p);
    let c = sprite_col(vx, p);
    &&& r < n
    &&& c < 8
    &&& sprite_bit(m.memory[(m.index + r) % (MEMORY_SIZE as int)], c)
}

/// The same, limited to the first `k` sprite cells in row-major order.
pub open spec fn sprite_covers_before(
    m: MachineState,
    vx: u8,
    vy: u8,
    n: u8,
    k: int,
    p: int,
) -> bool {
    &&& sprite_covers(m, vx, vy, n, p)
    &&& sprite_row(vy, p) * 8 + sprite_col(vx, p) < k
}

/// The screen after the sprite is XORed onto it.
pub open spec fn drawn_screen(m: MachineState, vx: u8, vy: u8, n: u8) -> Seq<bool> {
    Seq::new(SCREEN_SIZE as nat, |p: int| m.screen[p] != sprite_covers(m, vx, vy, n, p))
}

/// Whether drawing the sprite turns some lit pixel off.
pub open spec fn collides(m: MachineState, vx: u8, vy: u8, n: u8) -> bool {
    exists|p: int| 0 <= p < SCREEN_SIZE && m.screen[p] && #[trigger] sprite_covers(m, vx, vy, n, p)
}

/// Where sprite row `i`, column `j` lands, and that it lands nowhere else.
pub proof fn lemma_sprite_pixel(vx: u8, vy: u8, i: int, j: int)
    requires
        0 <= i < HEIGHT,
        0 <= j < WIDTH,
    ensures
        0 <= sprite_pixel(vx, vy, i, j) < SCREEN_SIZE,
        sprite_row(vy, sprite_pixel(vx, vy, i, j)) == i,
        sprite_col(vx, sprite_pixel(vx, vy, i, j)) == j,
        forall|p: int|
            0 <= p < SCREEN_SIZE && sprite_row(vy, p) == i && sprite_col(vx, p) == j ==> p
                == sprite_pixel(vx, vy, i, j),
{
    let px = (vx + j) % 64;
    let py = (vy + i) % 32;
    let pos = px + py * 64;
    assert(pos % 64 == px && pos / 64 == py) by (nonlinear_arith)
        requires
            0 <= px < 64,
            0 <= py < 32,
            pos == px + py * 64,
    ;
    assert((px - vx) % 64 == j) by (nonlinear_arith)
        requires
            px == (vx + j) % 64,
            0 <= j < 64,
            0 <= vx,
    ;
    assert((py - vy) % 32 == i) by (nonlinear_arith)
        requires
            py == (vy + i) % 32,
            0 <= i < 32,
            0 <= vy,
    ;
    assert forall|p: int|
        0 <= p < SCREEN_SIZE && sprite_row(vy, p) == i && sprite_col(vx, p) == j implies p
            == pos by {
        let qx = p % 64;
        let qy = p / 64;
        assert(p == qx + qy * 64 && 0 <= qx < 64 && 0 <= qy < 32) by (nonlinear_arith)
            requires
                0 <= p < 2048,
                qx == p % 64,
                qy == p / 64,
        ;
        assert(qx == px) by (nonlinear_arith)
            requires
                (qx - vx) % 64 == j,
                px == (vx + j) % 64,
                0 <= qx < 64,
        ;
        assert(qy == py) by (nonlinear_arith)
            requires
                (qy - vy) % 32 == i,
                py == (vy + i) % 32,
                0 <= qy < 32,
        ;
    }
}

/// Taking sprite cell `(i, j)` into the drawn prefix adds exactly its pixel,
/// where its bit is set.
pub proof fn lemma_cover_step(m: MachineState, vx: u8, vy: u8, n: u8, i: int, j: int)
    requires
        0 <= i < n < 16,
        0 <= j < 8,
    ensures
        !sprite_covers_before(m, vx, vy, n, i * 8 + j, sprite_pixel(vx, vy, i, j)),
        sprite_covers(m, vx, vy, n, sprite_pixel(vx, vy, i, j)) == sprite_bit(
            m.memory[(m.index + i) % (MEMORY_SIZE as int)],
            j,
        ),
        forall|p: int|
            0 <= p < SCREEN_SIZE ==> #[trigger] sprite_covers_before(m, vx, vy, n, i * 8 + j + 1, p)
                == (sprite_covers_before(m, vx, vy, n, i * 8 + j, p) || (p == sprite_pixel(
                vx,
                vy,
                i,
                j,
            ) && sprite_covers(m, vx, vy, n, p))),
{
    lemma_sprite_pixel(vx, vy, i, j);
    assert forall|p: int| 0 <= p < SCREEN_SIZE implies #[trigger] sprite_covers_before(
        m,
        vx,
        vy,
        n,
        i * 8 + j + 1,
        p,
    ) == (sprite_covers_before(m, vx, vy, n, i * 8 + j, p) || (p == sprite_pixel(vx, vy, i, j)
        && sprite_covers(m, vx, vy, n, p))) by {
        let r = sprite_row(vy, p);
        let c = sprite_col(vx, p);
        if r * 8 + c == i * 8 + j && 0 <= c < 8 && 0 <= r {
            assert(r == i && c == j) by (nonlinear_arith)
                requires
                    r * 8 + c == i * 8 + j,
                    0 <= c < 8,
                    0 <= j < 8,
                    0 <= r,
                    0 <= i,
            ;
        }
    }
}

/// Once every row is taken, the drawn prefix is the whole sprite.
pub proof fn lemma_cover_all(m: MachineState, vx: u8, vy: u8, n: u8)
    ensures
        forall|p: int|
            #[trigger] sprite_covers_before(m, vx, vy, n, n * 8, p) == sprite_covers(m, vx, vy, n, p),
{
    assert forall|p: int| #[trigger]
        sprite_covers_before(m, vx, vy, n, n * 8, p) == sprite_covers(m, vx, vy, n, p) by {
        let r = sprite_row(vy, p);
        let c = sprite_col(vx, p);
        if sprite_covers(m, vx, vy, n, p) {
            assert(r * 8 + c < n * 8) by (nonlinear_arith)
                requires
                    r < n,
                    c < 8,
            ;
        }
    }
}

impl Chip8 {
    /// XORs the `n`-row sprite from memory at the index register onto the
    /// screen at `(vx, vy)`, wrapping at the edges, and reports whether a lit
    /// pixel was turned off.
    #[verifier::rlimit(50)]
    pub(crate) fn draw_sprite(&mut self, vx: u8, vy: u8, n: u8) -> (collision: bool)
        requires
            old(self).wf(),
            n < 16,
        ensures
            final(self).wf(),
            final(self)@ == (MachineState { screen: drawn_screen(old(self)@, vx, vy, n), ..old(self)@ }),
            collision == collides(old(self)@, vx, vy, n),
    {
        let ghost m = self@;
        let mut collision = false;
        let mut i: usize = 0;
        while i < n as usize
            invariant
                i <= n < 16,
                self.wf(),
                self@ == (MachineState { screen: self@.screen, ..m }),
                forall|p: int|
                    0 <= p < SCREEN_SIZE ==> #[trigger] self@.screen[p] == (m.screen[p]
                        != sprite_covers_before(m, vx, vy, n, i * 8, p)),
                collision == exists|p: int|
                    0 <= p < SCREEN_SIZE && m.screen[p] && #[trigger] sprite_covers_before(
                        m,
                        vx,
                        vy,
                        n,
                        i * 8,
                        p,
                    ),
            decreases n - i,
        {
            let byte = self.memory[(self.I as usize + i) % MEMORY_SIZE];
            let mut j: usize = 0;
            while j < 8
                invariant
                    i < n < 16,
                    j <= 8,
                    byte == m.memory[(m.index + i) % (MEMORY_SIZE as int)],
                    self.wf(),
                    self@ == (MachineState { screen: self@.screen, ..m }),
                    forall|p: int|
                        0 <= p < SCREEN_SIZE ==> #[trigger] self@.screen[p] == (m.screen[p]
                            != sprite_covers_before(m, vx, vy, n, i * 8 + j, p)),
                    collision == exists|p: int|
                        0 <= p < SCREEN_SIZE && m.screen[p] && #[trigger] sprite_covers_before(
                            m,
                            vx,
                            vy,
                            n,
                            i * 8 + j,
                            p,
                        ),
                decreases 8 - j,
            {
                let bit = (byte >> ((7 - j) as u8)) & 1u8;
                let pos = (vx as usize + j) % WIDTH + ((vy as usize + i) % HEIGHT) * WIDTH;
                let ghost k = i * 8 + j;
                proof {
                    lemma_sprite_pixel(vx, vy, i as int, j as int);
                    lemma_cover_step(m, vx, vy, n, i as int, j as int);
                    assert(pos == sprite_pixel(vx, vy, i as int, j as int));
                    assert(sprite_covers(m, vx, vy, n, pos as int) == (bit == 1));
                }
                let was_lit = self.screen[pos] != PIXEL_OFF;
                proof {
                    assert(self@.screen[pos as int] == was_lit);
                    assert(was_lit == m.screen[pos as int]);
                }
                let ghost before = self@.screen;
                let ghost old_collision = collision;
                if was_lit && bit == 1 {
                    collision = true;
                }
                if was_lit != (bit == 1) {
                    self.screen[pos] = PIXEL_ON;
                } else {
                    self.screen[pos] = PIXEL_OFF;
                }
                proof {
                    assert(self@.screen =~= before.update(pos as int, was_lit != (bit == 1)));
                }
                j = j + 1;
                proof {
                    assert(i * 8 + j == k + 1);
                    if was_lit && bit == 1 {
                        assert(m.screen[pos as int] && sprite_covers_before(m, vx, vy, n, i * 8 + j, pos as int));
                    }
                    if !old_collision && !(was_lit && bit == 1) {
                        assert forall|p: int| 0 <= p < SCREEN_SIZE && m.screen[p] implies !#[trigger] sprite_covers_before(
                            m,
                            vx,
                            vy,
                            n,
                            i * 8 + j,
                            p,
                        ) by {
                            assert(!sprite_covers_before(m, vx, vy, n, k, p));
                            assert(sprite_covers_before(m, vx, vy, n, k + 1, p) == sprite_covers_before(m, vx, vy, n, i * 8 + j, p));
                        }
                    }
                    if old_collision {
                        let q = choose|q: int|
                            0 <= q < SCREEN_SIZE && m.screen[q] && #[trigger] sprite_covers_before(
                                m,
                                vx,
                                vy,
                                n,
                                k,
                                q,
                            );
                        assert(sprite_covers_before(m, vx, vy, n, k + 1, q));
                        assert(sprite_covers_before(m, vx, vy, n, i * 8 + j, q));
                    }
                }
            }
            proof {
                assert(i * 8 + 8 == (i + 1) * 8);
            }
            i = i + 1;
        }
        proof {
            lemma_cover_all(m, vx, vy, n);
            assert(self@.screen =~= drawn_screen(m, vx, vy, n));
            if collision {
                let q = choose|q: int|
                    0 <= q < SCREEN_SIZE && m.screen[q] && #[trigger] sprite_covers_before(
                        m,
                        vx,
                        vy,
                        n,
                        n * 8,
                        q,
                    );
                assert(sprite_covers(m, vx, vy, n, q));
            }
            if collides(m, vx, vy, n) {
                let q = choose|q: int|
                    0 <= q < SCREEN_SIZE && m.screen[q] && #[trigger] sprite_covers(m, vx, vy, n, q);
                assert(sprite_covers_before(m, vx, vy, n, n * 8, q));
            }
        }
        collision
    }
}

} // verus!
