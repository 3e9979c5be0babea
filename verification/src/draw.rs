use vstd::prelude::*;
use crate::state::CpuState;
use crate::semantics::sprite_bit;

verus! {

impl CpuState {
    /// The display index that the sprite pixel at `row`, `col` lands on when
    /// the sprite is drawn at (`Vx`, `Vy`): coordinates wrap around the
    /// 64 x 32 screen.
    pub open spec fn pixel_index(self, x: int, y: int, row: int, col: int) -> int {
        self.screen_row(y, row) * 64 + self.screen_col(x, col)
    }

    /// The screen row that sprite row `row` lands on when drawn at height `Vy`.
    pub open spec fn screen_row(self, y: int, row: int) -> int {
        (self.v[y] + row) % 32
    }

    /// The screen column that sprite column `col` lands on when drawn at
    /// `Vx`.
    pub open spec fn screen_col(self, x: int, col: int) -> int {
        (self.v[x] + col) % 64
    }

    /// Whether the sprite pixel at `row`, `col` (read from memory at `I + row`)
    /// is set.
    pub open spec fn pixel_set(self, row: int, col: int) -> bool {
        sprite_bit(self.memory[self.i + row], col)
    }

    /// The drawing of one sprite pixel is within the machine's limits: the
    /// sprite byte is in memory and the 8-bit coordinate and index arithmetic
    /// does not overflow.
    pub open spec fn pixel_fits(self, x: int, y: int, row: int, col: int) -> bool {
        &&& self.i + row < 4096
        &&& self.v[x] + col <= 255
        &&& self.v[y] + row <= 255
        &&& self.pixel_index(x, y, row, col) <= 255
    }

    /// One sprite pixel XOR-ed onto the display; `VF` set to 1 when a lit
    /// pixel is turned off.
    pub open spec fn draw_pixel(self, x: int, y: int, row: int, col: int) -> CpuState {
        let p = self.pixel_index(x, y, row, col);
        let bit = self.pixel_set(row, col);
        let s = if bit && self.display[p] {
            self.set_reg(15, 1)
        } else {
            self
        };
        CpuState { display: s.display.update(p, s.display[p] != bit), ..s }
    }

    /// The state at the start of a draw: `VF` cleared, the display marked for
    /// redrawing.
    pub open spec fn draw_start(self) -> CpuState {
        CpuState { draw_flag: true, ..self.set_reg(15, 0) }
    }

    /// The first `k` sprite pixels drawn, row by row, eight pixels to a row.
    pub open spec fn draw_pixels(self, x: int, y: int, k: nat) -> CpuState
        decreases k,
    {
        if k == 0 {
            self
        } else {
            let prev = self.draw_pixels(x, y, (k - 1) as nat);
            prev.draw_pixel(x, y, (k - 1) / 8, (k - 1) % 8)
        }
    }

    /// `Dxyn`: the `n`-byte sprite at `I` drawn at (`Vx`, `Vy`).
    pub open spec fn draw(self, x: int, y: int, n: u8) -> CpuState {
        self.draw_start().draw_pixels(x, y, (8 * n) as nat)
    }

    /// Every pixel of the draw stays within the machine's limits, in the
    /// state in which it is drawn.
    pub open spec fn draw_fits(self, x: int, y: int, n: u8) -> bool {
        forall|k: nat|
            k < 8 * n ==> #[trigger] self.draw_start().draw_pixels(x, y, k).pixel_fits(
                x,
                y,
                k as int / 8,
                k as int % 8,
            )
    }
}

/// Drawing pixels changes only the display and `VF`.
pub proof fn lemma_draw_pixels_frame(s: CpuState, x: int, y: int, k: nat)
    requires
        s.wf(),
    ensures
        ({
            let t = s.draw_pixels(x, y, k);
            &&& t.wf()
            &&& t.memory == s.memory
            &&& t.i == s.i
            &&& t.pc == s.pc
            &&& t.stack == s.stack
            &&& t.sp == s.sp
            &&& t.delay_timer == s.delay_timer
            &&& t.sound_timer == s.sound_timer
            &&& t.keypad == s.keypad
            &&& t.draw_flag == s.draw_flag
            &&& forall|j: int| 0 <= j < 16 && j != 15 ==> t.v[j] == s.v[j]
        }),
    decreases k,
{
    if k > 0 {
        lemma_draw_pixels_frame(s, x, y, (k - 1) as nat);
    }
}

impl CpuState {
    /// The limits of `Dxyn` stated on the state before the draw, for
    /// `x` and `y` other than 15: the sprite rows are in memory, the 8-bit
    /// coordinate sums do not overflow, and every sprite row lands on one of
    /// the screen rows 0 to 3 (below them the 8-bit display index overflows).
    pub open spec fn sprite_fits(self, x: int, y: int, n: u8) -> bool {
        n == 0 || {
            &&& self.i + n <= 4096
            &&& self.v[x] + 7 <= 255
            &&& self.v[y] + n <= 256
            &&& forall|row: int| 0 <= row < n ==> #[trigger] self.screen_row(y, row) < 4
        }
    }

    /// Some set sprite pixel among the first `k` lands on display pixel `p`.
    pub open spec fn covers_before(self, x: int, y: int, k: int, p: int) -> bool {
        exists|row: int, col: int|
            0 <= row && 0 <= col < 8 && 8 * row + col < k && #[trigger] self.pixel_index(
                x,
                y,
                row,
                col,
            ) == p && self.pixel_set(row, col)
    }

    /// Some set sprite pixel among the first `k` lands on a lit pixel.
    pub open spec fn collides_before(self, x: int, y: int, k: int) -> bool {
        exists|row: int, col: int|
            0 <= row && 0 <= col < 8 && 8 * row + col < k && #[trigger] self.pixel_set(row, col)
                && self.display[self.pixel_index(x, y, row, col)]
    }

    /// Some set pixel of the `n`-row sprite lands on display pixel `p`.
    pub open spec fn sprite_covers(self, x: int, y: int, n: u8, p: int) -> bool {
        self.covers_before(x, y, 8 * n, p)
    }

    /// Some set pixel of the `n`-row sprite lands on a lit display pixel.
    pub open spec fn sprite_collides(self, x: int, y: int, n: u8) -> bool {
        self.collides_before(x, y, 8 * n)
    }
}

/// Within a sprite that fits, no two pixels land on the same display pixel.
pub proof fn lemma_pixel_index_injective(
    s: CpuState,
    x: int,
    y: int,
    n: u8,
    r1: int,
    c1: int,
    r2: int,
    c2: int,
)
    requires
        s.sprite_fits(x, y, n),
        0 <= r1 < n,
        0 <= r2 < n,
        0 <= c1 < 8,
        0 <= c2 < 8,
        r1 != r2 || c1 != c2,
    ensures
        s.pixel_index(x, y, r1, c1) != s.pixel_index(x, y, r2, c2),
{
    if n >= 5 {
        assert(s.screen_row(y, 0) < 4);
        assert(s.screen_row(y, 1) < 4);
        assert(s.screen_row(y, 2) < 4);
        assert(s.screen_row(y, 3) < 4);
        assert(s.screen_row(y, 4) < 4);
    }
    assert(s.screen_row(y, r1) < 4);
    assert(s.screen_row(y, r2) < 4);
}

/// For `x` and `y` other than 15 the pixels of a draw all read the
/// coordinates, sprite and limits of the state before the draw.
pub proof fn lemma_draw_fits_iff(s: CpuState, x: int, y: int, n: u8)
    requires
        s.wf(),
        0 <= x < 16,
        0 <= y < 16,
        x != 15,
        y != 15,
    ensures
        s.draw_fits(x, y, n) <==> s.sprite_fits(x, y, n),
{
    let s0 = s.draw_start();
    assert forall|k: nat| k < 8 * n implies #[trigger] s0.draw_pixels(x, y, k).pixel_fits(
        x,
        y,
        k as int / 8,
        k as int % 8,
    ) == s.pixel_fits(x, y, k as int / 8, k as int % 8) by {
        lemma_draw_pixels_frame(s0, x, y, k);
    }
    if s.draw_fits(x, y, n) && n > 0 {
        let last = (8 * n - 1) as nat;
        assert(s0.draw_pixels(x, y, last).pixel_fits(x, y, last as int / 8, last as int % 8));
        assert forall|row: int| 0 <= row < n implies #[trigger] s.screen_row(y, row) < 4 by {
            let k = (8 * row + 7) as nat;
            assert(k as int / 8 == row && k as int % 8 == 7);
            assert(s0.draw_pixels(x, y, k).pixel_fits(x, y, k as int / 8, k as int % 8));
        }
    }
    if s.sprite_fits(x, y, n) {
        assert forall|k: nat| k < 8 * n implies #[trigger] s0.draw_pixels(x, y, k).pixel_fits(
            x,
            y,
            k as int / 8,
            k as int % 8,
        ) by {
            assert(s.screen_row(y, k as int / 8) < 4);
        }
    }
}

/// The first `k` pixels of a fitting draw, in closed form: the display is
/// the old one XOR the set sprite pixels, and `VF` tells whether one of them
/// landed on a lit pixel.
proof fn lemma_draw_pixels_closed(s: CpuState, x: int, y: int, n: u8, k: nat)
    requires
        s.wf(),
        0 <= x < 16,
        0 <= y < 16,
        x != 15,
        y != 15,
        s.sprite_fits(x, y, n),
        k <= 8 * n,
    ensures
        ({
            let t = s.draw_start().draw_pixels(x, y, k);
            &&& forall|p: int|
                0 <= p < 2048 ==> #[trigger] t.display[p] == (s.display[p] != s.covers_before(
                    x,
                    y,
                    k as int,
                    p,
                ))
            &&& t.v[15] == if s.collides_before(x, y, k as int) {
                1u8
            } else {
                0u8
            }
        }),
    decreases k,
{
    let s0 = s.draw_start();
    if k == 0 {
        assert forall|p: int| 0 <= p < 2048 implies !s.covers_before(x, y, 0, p) by {}
    } else {
        let j = (k - 1) as nat;
        lemma_draw_pixels_closed(s, x, y, n, j);
        lemma_draw_pixels_frame(s0, x, y, j);
        let t = s0.draw_pixels(x, y, j);
        let row = j as int / 8;
        let col = j as int % 8;
        assert(8 * row + col == j);
        let q = s.pixel_index(x, y, row, col);
        assert(t.pixel_index(x, y, row, col) == q);
        assert(t.pixel_set(row, col) == s.pixel_set(row, col));
        assert(0 <= q < 2048);
        // No earlier pixel landed on q.
        assert(!s.covers_before(x, y, j as int, q)) by {
            if s.covers_before(x, y, j as int, q) {
                let (r2, c2) = choose|r2: int, c2: int|
                    0 <= r2 && 0 <= c2 < 8 && 8 * r2 + c2 < j && #[trigger] s.pixel_index(
                        x,
                        y,
                        r2,
                        c2,
                    ) == q && s.pixel_set(r2, c2);
                lemma_pixel_index_injective(s, x, y, n, r2, c2, row, col);
            }
        }
        assert forall|p: int| 0 <= p < 2048 implies #[trigger] s.covers_before(x, y, k as int, p)
            == (s.covers_before(x, y, j as int, p) || (p == q && s.pixel_set(row, col))) by {
            if s.covers_before(x, y, k as int, p) && !s.covers_before(x, y, j as int, p) {
                let (r2, c2) = choose|r2: int, c2: int|
                    0 <= r2 && 0 <= c2 < 8 && 8 * r2 + c2 < k && #[trigger] s.pixel_index(
                        x,
                        y,
                        r2,
                        c2,
                    ) == p && s.pixel_set(r2, c2);
                assert(r2 == row && c2 == col);
            }
            if p == q && s.pixel_set(row, col) {
                assert(s.pixel_index(x, y, row, col) == p);
            }
        }
        if s.collides_before(x, y, k as int) && !s.collides_before(x, y, j as int) {
            let (r2, c2) = choose|r2: int, c2: int|
                0 <= r2 && 0 <= c2 < 8 && 8 * r2 + c2 < k && #[trigger] s.pixel_set(r2, c2)
                    && s.display[s.pixel_index(x, y, r2, c2)];
            assert(r2 == row && c2 == col);
        }
        if s.pixel_set(row, col) && s.display[q] {
            assert(s.pixel_set(row, col) && s.display[s.pixel_index(x, y, row, col)]);
        }
        assert(t.display[q] == s.display[q]);
    }
}

/// A whole fitting draw in closed form (for `x`, `y` other than 15).
pub proof fn lemma_draw_closed(s: CpuState, x: int, y: int, n: u8)
    requires
        s.wf(),
        0 <= x < 16,
        0 <= y < 16,
        x != 15,
        y != 15,
        s.sprite_fits(x, y, n),
    ensures
        ({
            let t = s.draw(x, y, n);
            &&& t.wf()
            &&& forall|p: int|
                0 <= p < 2048 ==> #[trigger] t.display[p] == (s.display[p] != s.sprite_covers(
                    x,
                    y,
                    n,
                    p,
                ))
            &&& t.v[15] == if s.sprite_collides(x, y, n) {
                1u8
            } else {
                0u8
            }
            &&& t.draw_flag
            &&& forall|j: int| 0 <= j < 16 && j != 15 ==> t.v[j] == s.v[j]
            &&& t.memory == s.memory
            &&& t.i == s.i
            &&& t.pc == s.pc
            &&& t.stack == s.stack
            &&& t.sp == s.sp
            &&& t.delay_timer == s.delay_timer
            &&& t.sound_timer == s.sound_timer
            &&& t.keypad == s.keypad
        }),
{
    lemma_draw_pixels_closed(s, x, y, n, (8 * n) as nat);
    lemma_draw_pixels_frame(s.draw_start(), x, y, (8 * n) as nat);
}

} // verus!
