//! Properties that hold across the machine's operations.
use vstd::prelude::*;
use crate::state::{CpuState, font_data};
use crate::instruction::{decode, Instr};
use crate::semantics::first_pressed;
use crate::draw::{lemma_draw_closed, lemma_draw_fits_iff, lemma_draw_pixels_frame};

verus! {

/// A return right after a call resumes at the caller: the program counter
/// and the stack pointer are as before the call; the only trace left is the
/// return address in the stack slot that the call used.
pub proof fn law_return_undoes_call(s: CpuState, nnn: u16)
    requires
        s.wf(),
        s.call_fits(),
    ensures
        s.call(nnn).return_fits(),
        s.call(nnn).return_from_call() == (CpuState {
            stack: s.stack.update(s.sp as int, s.pc),
            ..s
        }),
{
    assert(s.call(nnn).return_from_call() =~= (CpuState {
        stack: s.stack.update(s.sp as int, s.pc),
        ..s
    }));
}

/// Loading `V0..=Vx` from `I` gives back the registers that storing them
/// there wrote, whatever the registers held in between, as long as `I` and
/// the memory are as the store left them.
pub proof fn law_load_after_store(s: CpuState, t: CpuState, x: int)
    requires
        s.wf(),
        t.wf(),
        0 <= x < 16,
        s.block_fits(x),
        t.i == s.i,
        t.memory == s.store(x).memory,
    ensures
        t.block_fits(x),
        forall|j: int| 0 <= j <= x ==> #[trigger] t.load(x).v[j] == s.v[j],
        forall|j: int| x < j < 16 ==> #[trigger] t.load(x).v[j] == t.v[j],
{
}

/// Storing `V0..=Vx` changes no memory byte outside `I..=I+x`.
pub proof fn law_store_writes_only_its_block(s: CpuState, x: int)
    requires
        s.wf(),
        0 <= x < 16,
        s.block_fits(x),
    ensures
        s.store(x).wf(),
        forall|k: int|
            0 <= k < 4096 && !(s.i <= k <= s.i + x) ==> #[trigger] s.store(x).memory[k]
                == s.memory[k],
{
}

/// The delay timer reads back the value last written to it.
pub proof fn law_delay_round_trip(s: CpuState, x: int, y: int)
    requires
        s.wf(),
        0 <= x < 16,
        0 <= y < 16,
    ensures
        s.set_delay(x).get_delay(y).v[y] == s.v[x],
{
}

/// For `x` and `y` other than 15 the limits of `Dxyn` can be read off the
/// state before the draw: the sprite is in memory, the coordinate sums stay
/// below 256, and every sprite row lands on one of the screen rows 0 to 3.
pub proof fn law_draw_fits_iff(s: CpuState, x: int, y: int, n: u8)
    requires
        s.wf(),
        0 <= x < 16,
        0 <= y < 16,
        x != 15,
        y != 15,
    ensures
        s.draw_fits(x, y, n) <==> s.sprite_fits(x, y, n),
{
    lemma_draw_fits_iff(s, x, y, n);
}

/// `Dxyn` XORs the sprite onto the display: a display pixel flips exactly
/// when a set sprite pixel lands on it; `VF` is 1 exactly when a set sprite
/// pixel lands on a lit pixel; nothing but the display, `VF` and the redraw
/// flag changes.
pub proof fn law_draw_xors_sprite(s: CpuState, x: int, y: int, n: u8)
    requires
        s.wf(),
        0 <= x < 16,
        0 <= y < 16,
        x != 15,
        y != 15,
        s.draw_fits(x, y, n),
    ensures
        ({
            let t = s.draw(x, y, n);
            &&& forall|p: int|
                0 <= p < 2048 ==> #[trigger] t.display[p] == (s.display[p] != s.sprite_covers(
                    x,
                    y,
                    n,
                    p,
                ))
            &&& t.v[15] == if s.sprite_collides(x, y, n) {
                1u8
            } else {
                0u8
            }
            &&& t.draw_flag
            &&& forall|j: int| 0 <= j < 16 && j != 15 ==> t.v[j] == s.v[j]
            &&& t.memory == s.memory
            &&& t.i == s.i
            &&& t.pc == s.pc
            &&& t.stack == s.stack
            &&& t.sp == s.sp
            &&& t.delay_timer == s.delay_timer
            &&& t.sound_timer == s.sound_timer
            &&& t.keypad == s.keypad
        }),
{
    lemma_draw_fits_iff(s, x, y, n);
    lemma_draw_closed(s, x, y, n);
}

/// Drawing the same sprite at the same place twice erases it: the display
/// is as before the first draw, and the second draw sets `VF` to 1 exactly
/// when some set sprite pixel had landed on a dark pixel.
pub proof fn law_draw_twice_restores(s: CpuState, x: int, y: int, n: u8)
    requires
        s.wf(),
        0 <= x < 16,
        0 <= y < 16,
        x != 15,
        y != 15,
        s.draw_fits(x, y, n),
    ensures
        s.draw(x, y, n).draw_fits(x, y, n),
        s.draw(x, y, n).draw(x, y, n).display == s.display,
        s.draw(x, y, n).draw(x, y, n).v[15] == 1 <==> exists|row: int, col: int|
            0 <= row < n && 0 <= col < 8 && #[trigger] s.pixel_set(row, col) && !s.display[s.pixel_index(
                x,
                y,
                row,
                col,
            )],
{
    lemma_draw_fits_iff(s, x, y, n);
    lemma_draw_closed(s, x, y, n);
    let t = s.draw(x, y, n);
    assert(t.v[x] == s.v[x] && t.v[y] == s.v[y]);
    assert(t.sprite_fits(x, y, n)) by {
        if n > 0 {
            assert forall|row: int| 0 <= row < n implies #[trigger] t.screen_row(y, row) < 4 by {
                assert(s.screen_row(y, row) < 4);
            }
        }
    }
    lemma_draw_fits_iff(t, x, y, n);
    lemma_draw_closed(t, x, y, n);
    assert forall|p: int| 0 <= p < 2048 implies #[trigger] t.sprite_covers(x, y, n, p)
        == s.sprite_covers(x, y, n, p) by {
        if t.sprite_covers(x, y, n, p) {
            let (r, c) = choose|r: int, c: int|
                0 <= r && 0 <= c < 8 && 8 * r + c < 8 * n && #[trigger] t.pixel_index(x, y, r, c)
                    == p && t.pixel_set(r, c);
            assert(s.pixel_index(x, y, r, c) == p);
        }
        if s.sprite_covers(x, y, n, p) {
            let (r, c) = choose|r: int, c: int|
                0 <= r && 0 <= c < 8 && 8 * r + c < 8 * n && #[trigger] s.pixel_index(x, y, r, c)
                    == p && s.pixel_set(r, c);
            assert(t.pixel_index(x, y, r, c) == p);
        }
    }
    assert(t.draw(x, y, n).display =~= s.display);
    if t.sprite_collides(x, y, n) {
        let (r, c) = choose|r: int, c: int|
            0 <= r && 0 <= c < 8 && 8 * r + c < 8 * n && #[trigger] t.pixel_set(r, c)
                && t.display[t.pixel_index(x, y, r, c)];
        let p = s.pixel_index(x, y, r, c);
        assert(t.pixel_index(x, y, r, c) == p);
        assert(s.sprite_covers(x, y, n, p)) by {
            assert(s.pixel_index(x, y, r, c) == p);
        }
        assert(s.pixel_set(r, c) && !s.display[s.pixel_index(x, y, r, c)]);
    }
    if exists|row: int, col: int|
        0 <= row < n && 0 <= col < 8 && #[trigger] s.pixel_set(row, col) && !s.display[s.pixel_index(
            x,
            y,
            row,
            col,
        )] {
        let (r, c) = choose|row: int, col: int|
            0 <= row < n && 0 <= col < 8 && #[trigger] s.pixel_set(row, col) && !s.display[s.pixel_index(
                x,
                y,
                row,
                col,
            )];
        let p = s.pixel_index(x, y, r, c);
        assert(s.sprite_covers(x, y, n, p)) by {
            assert(s.pixel_index(x, y, r, c) == p);
        }
        assert(t.pixel_index(x, y, r, c) == p);
        assert(t.pixel_set(r, c) && t.display[t.pixel_index(x, y, r, c)]);
    }
}

/// `8xy4` keeps the full sum: the new `Vx` plus 256 times the carry in `VF`
/// is `Vx + Vy` (for `x` other than 15, which the carry would overwrite).
pub proof fn law_add_reg_carry(s: CpuState, x: int, y: int)
    requires
        s.wf(),
        0 <= x < 15,
        0 <= y < 16,
    ensures
        s.add_reg(x, y).v[x] + 256 * s.add_reg(x, y).v[15] == s.v[x] + s.v[y],
        s.add_reg(x, y).v[15] <= 1,
{
}

/// `8xy5` and `8xy7` keep the full difference: the new `Vx` minus 256 times
/// the borrow is the difference, and `VF` is 1 exactly when there is no
/// borrow (for `x` other than 15).
pub proof fn law_sub_borrow(s: CpuState, x: int, y: int)
    requires
        s.wf(),
        0 <= x < 15,
        0 <= y < 16,
    ensures
        s.sub(x, y).v[x] - 256 * (1 - s.sub(x, y).v[15]) == s.v[x] - s.v[y],
        s.sub(x, y).v[15] == 1 <==> s.v[x] >= s.v[y],
        s.subn(x, y).v[x] - 256 * (1 - s.subn(x, y).v[15]) == s.v[y] - s.v[x],
        s.subn(x, y).v[15] == 1 <==> s.v[y] >= s.v[x],
{
}

/// The shifts lose no bit: the bit shifted out lands in `VF` (for `x` other
/// than 15).
pub proof fn law_shift_keeps_bits(s: CpuState, x: int)
    requires
        s.wf(),
        0 <= x < 15,
    ensures
        2 * s.shr(x).v[x] + s.shr(x).v[15] == s.v[x],
        s.shl(x).v[x] + 256 * s.shl(x).v[15] == 2 * s.v[x],
        s.shr(x).v[15] <= 1,
        s.shl(x).v[15] <= 1,
{
}

/// `Fx33` writes the three decimal digits of `Vx`, most significant first.
pub proof fn law_bcd_digits(s: CpuState, x: int)
    requires
        s.wf(),
        0 <= x < 16,
        s.bcd_fits(),
    ensures
        ({
            let m = s.bcd(x).memory;
            let i = s.i as int;
            &&& m[i] < 10 && m[i + 1] < 10 && m[i + 2] < 10
            &&& 100 * m[i] + 10 * m[i + 1] + m[i + 2] == s.v[x]
        }),
{
}

/// `Cxkk` sets only bits of `Vx` that are set in `kk`, whatever byte was
/// drawn.
pub proof fn law_rand_within_mask(s: CpuState, x: int, kk: u8, rnd: u8)
    requires
        s.wf(),
        0 <= x < 16,
    ensures
        s.rand(x, kk, rnd).v[x] & kk == s.rand(x, kk, rnd).v[x],
{
    assert((rnd & kk) & kk == rnd & kk) by (bit_vector);
}

/// With the font in place at the bottom of memory, `Fx29` points `I` at the
/// five rows of the glyph for the digit `Vx`.
pub proof fn law_font_points_at_glyph(s: CpuState, x: int)
    requires
        s.wf(),
        0 <= x < 16,
        s.v[x] < 16,
        s.memory.subrange(0, 80) == font_data(),
    ensures
        forall|r: int|
            0 <= r < 5 ==> #[trigger] s.memory[s.font(x).i + r] == font_data()[5 * s.v[x] + r],
{
    assert forall|r: int| 0 <= r < 5 implies #[trigger] s.memory[s.font(x).i + r]
        == font_data()[5 * s.v[x] + r] by {
        assert(s.memory.subrange(0, 80)[5 * s.v[x] + r] == s.memory[5 * s.v[x] + r]);
    }
}

/// `Fx0A` reads the lowest pressed key; when no key is pressed, the program
/// counter goes back to the waiting instruction, which thus runs again in
/// the next cycle.
pub proof fn law_wait_key(s: CpuState, x: int)
    requires
        s.wf(),
        0 <= x < 15,
        s.fetch_fits(),
    ensures
        ({
            let k = first_pressed(s.keypad, 0);
            let t = s.advance_pc().wait_key(x);
            &&& k <= 16
            &&& k < 16 ==> s.keypad[k] && t.v[x] == k && t.pc == s.pc + 2
            &&& forall|j: int| 0 <= j < k && j < 16 ==> !#[trigger] s.keypad[j]
            &&& k == 16 ==> t.pc == s.pc && t.v == s.v
        }),
{
    lemma_first_pressed(s.keypad, 0);
}

proof fn lemma_first_pressed(keys: Seq<bool>, from: int)
    requires
        0 <= from <= 16,
        keys.len() == 16,
    ensures
        from <= first_pressed(keys, from) <= 16,
        first_pressed(keys, from) < 16 ==> keys[first_pressed(keys, from)],
        forall|j: int| from <= j < first_pressed(keys, from) ==> !#[trigger] keys[j],
    decreases 16 - from,
{
    if from < 16 && !keys[from] {
        lemma_first_pressed(keys, from + 1);
    }
}

/// No instruction changes the keypad, and only `Fx33` and `Fx55` write to
/// memory; every instruction keeps the sizes of the machine's parts.
pub proof fn law_run_frame(s: CpuState, instr: Instr, rnd: u8)
    requires
        s.wf(),
        s.instr_fits(instr),
    ensures
        s.run(instr, rnd).wf(),
        s.run(instr, rnd).keypad == s.keypad,
        !(instr is Bcd) && !(instr is Store) ==> s.run(instr, rnd).memory == s.memory,
{
    match instr {
        Instr::Draw(x, y, n) => {
            lemma_draw_pixels_frame(s.draw_start(), x as int, y as int, (8 * n) as nat);
        },
        _ => {},
    }
}

/// Every opcode decodes to register numbers below 16 and a sprite height
/// below 16.
pub proof fn law_decoded_fields_in_range(opcode: u16)
    ensures
        ({
            let x = ((opcode & 0x0F00) >> 8);
            let y = ((opcode & 0x00F0) >> 4);
            let n = (opcode & 0x000F);
            x < 16 && y < 16 && n < 16
        }),
        decode(opcode) matches Instr::Draw(x, y, n) ==> x < 16 && y < 16 && n < 16,
{
    assert((opcode & 0x0F00) >> 8 < 16 && (opcode & 0x00F0) >> 4 < 16 && opcode & 0x000F < 16)
        by (bit_vector);
}

/// On a machine just powered on, loading a program and fetching reads the
/// program's first two bytes as the first opcode.
pub proof fn law_first_opcode_is_rom_start(rom: Seq<u8>)
    requires
        2 <= rom.len(),
        0x200 + rom.len() <= 4096,
    ensures
        CpuState::initial().load_rom(rom).fetch_fits(),
        CpuState::initial().load_rom(rom).opcode_at_pc() == 256 * rom[0] + rom[1],
{
    let s = CpuState::initial().load_rom(rom);
    assert(s.memory[0x200] == rom[0]);
    assert(s.memory[0x201] == rom[1]);
}

/// Only `Cxkk` depends on the random byte: every other instruction has one
/// outcome.
pub proof fn law_only_rand_is_random(s: CpuState, instr: Instr, r1: u8, r2: u8)
    requires
        !(instr is Rand),
    ensures
        s.run(instr, r1) == s.run(instr, r2),
{
}

} // verus!
