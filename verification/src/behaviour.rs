//! What each operation does, stated directly on the fields of the machine
//! state before and after it.
use vstd::prelude::*;
use crate::state::{CpuState, font_data};
use crate::instruction::{decode, Instr};
use crate::screen::frame_of;
use crate::semantics::first_pressed;
use crate::draw::{lemma_draw_closed, lemma_draw_fits_iff, lemma_pixel_index_injective};

verus! {

/// `t` differs from `s` at most in register `x`.
pub open spec fn only_register_changed(s: CpuState, t: CpuState, x: int) -> bool {
    &&& t.memory == s.memory
    &&& t.i == s.i
    &&& t.pc == s.pc
    &&& t.stack == s.stack
    &&& t.sp == s.sp
    &&& t.delay_timer == s.delay_timer
    &&& t.sound_timer == s.sound_timer
    &&& t.display == s.display
    &&& t.keypad == s.keypad
    &&& t.draw_flag == s.draw_flag
    &&& t.v.len() == s.v.len()
    &&& forall|j: int| 0 <= j < s.v.len() && j != x ==> #[trigger] t.v[j] == s.v[j]
}

/// Bit `7 - c` of the byte at `I + r`: column `c` (from the left) of sprite
/// row `r`.
pub open spec fn sprite_byte_bit(s: CpuState, r: int, c: int) -> bool {
    (s.memory[s.i + r] >> ((7 - c) as u8)) & 1u8 == 1u8
}

/// The display index of column `(Vx + c) % 64` in row `(Vy + r) % 32`.
pub open spec fn wrapped_index(s: CpuState, x: int, y: int, r: int, c: int) -> int {
    ((s.v[y] + r) % 32) * 64 + (s.v[x] + c) % 64
}

/// `t` differs from `s` at most in the program counter.
pub open spec fn only_pc_changed(s: CpuState, t: CpuState) -> bool {
    t == CpuState { pc: t.pc, ..s }
}

/// Each sprite row is read from its own byte, at `I + row`: after a fitting
/// `Dxyn` (with `x`, `y` other than 15) the display pixel at column
/// `(Vx + c) % 64` of row `(Vy + r) % 32` has flipped exactly when bit `7 - c`
/// of the byte at `I + r` is set, and `VF` is 1 exactly when such a set bit
/// met a lit pixel.
pub proof fn law_draw_reads_each_row(s: CpuState, x: int, y: int, n: u8)
    requires
        s.wf(),
        0 <= x < 15,
        0 <= y < 15,
        s.draw_fits(x, y, n),
    ensures
        forall|r: int, c: int|
            0 <= r < n && 0 <= c < 8 ==> {
                &&& 0 <= #[trigger] wrapped_index(s, x, y, r, c) < 2048
                &&& s.draw(x, y, n).display[wrapped_index(s, x, y, r, c)] == (
                s.display[wrapped_index(s, x, y, r, c)] != sprite_byte_bit(s, r, c))
            },
        s.draw(x, y, n).v[15] == 1 <==> exists|r: int, c: int|
            0 <= r < n && 0 <= c < 8 && #[trigger] sprite_byte_bit(s, r, c) && s.display[wrapped_index(
                s,
                x,
                y,
                r,
                c,
            )],
        s.draw(x, y, n).v[15] <= 1,
{
    lemma_draw_fits_iff(s, x, y, n);
    lemma_draw_closed(s, x, y, n);
    let t = s.draw(x, y, n);
    assert forall|r: int, c: int| 0 <= r < n && 0 <= c < 8 implies {
        &&& 0 <= #[trigger] wrapped_index(s, x, y, r, c) < 2048
        &&& t.display[wrapped_index(s, x, y, r, c)] == (s.display[wrapped_index(s, x, y, r, c)]
            != sprite_byte_bit(s, r, c))
    } by {
        let p = s.pixel_index(x, y, r, c);
        assert(s.screen_row(y, r) < 4);
        assert(s.sprite_covers(x, y, n, p) == s.pixel_set(r, c)) by {
            if s.sprite_covers(x, y, n, p) {
                let (r2, c2) = choose|r2: int, c2: int|
                    0 <= r2 && 0 <= c2 < 8 && 8 * r2 + c2 < 8 * n && #[trigger] s.pixel_index(
                        x,
                        y,
                        r2,
                        c2,
                    ) == p && s.pixel_set(r2, c2);
                if r2 != r || c2 != c {
                    lemma_pixel_index_injective(s, x, y, n, r2, c2, r, c);
                }
            }
            if s.pixel_set(r, c) {
                assert(s.pixel_index(x, y, r, c) == p);
            }
        }
    }
    if t.v[15] == 1 {
        let (r, c) = choose|r: int, c: int|
            0 <= r && 0 <= c < 8 && 8 * r + c < 8 * n && #[trigger] s.pixel_set(r, c)
                && s.display[s.pixel_index(x, y, r, c)];
        assert(sprite_byte_bit(s, r, c) && s.display[wrapped_index(s, x, y, r, c)]);
    }
    if exists|r: int, c: int|
        0 <= r < n && 0 <= c < 8 && #[trigger] sprite_byte_bit(s, r, c) && s.display[wrapped_index(
            s,
            x,
            y,
            r,
            c,
        )] {
        let (r, c) = choose|r: int, c: int|
            0 <= r < n && 0 <= c < 8 && #[trigger] sprite_byte_bit(s, r, c) && s.display[wrapped_index(
                s,
                x,
                y,
                r,
                c,
            )];
        assert(s.pixel_set(r, c) && s.display[s.pixel_index(x, y, r, c)]);
    }
}

/// The register moves and byte loads: `8xy0` copies `Vy` into `Vx` whatever
/// `Vx` held, `6xkk` loads `kk`, `Fx07` reads the delay timer, `Cxkk` keeps
/// the bits of the drawn byte that `kk` has; nothing else changes.
pub proof fn law_register_loads(s: CpuState, x: int, y: int, kk: u8, rnd: u8)
    requires
        s.wf(),
        0 <= x < 16,
        0 <= y < 16,
    ensures
        s.mov(x, y).v[x] == s.v[y],
        only_register_changed(s, s.mov(x, y), x),
        s.set(x, kk).v[x] == kk,
        only_register_changed(s, s.set(x, kk), x),
        s.get_delay(x).v[x] == s.delay_timer,
        only_register_changed(s, s.get_delay(x), x),
        s.rand(x, kk, rnd).v[x] == rnd & kk,
        only_register_changed(s, s.rand(x, kk, rnd), x),
{
}

/// The bitwise and wrapping-add register operations (`8xy1`, `8xy2`,
/// `8xy3`, `Vx += kk`): bit `b` of the new `Vx` is the OR, AND or XOR of bit
/// `b` of `Vx` and `Vy`; the wrapping add gives `Vx + kk` less 256 when that
/// reaches 256. Nothing else changes.
pub proof fn law_register_bitwise(s: CpuState, x: int, y: int, kk: u8)
    requires
        s.wf(),
        0 <= x < 16,
        0 <= y < 16,
    ensures
        forall|b: u8|
            b < 8 ==> (#[trigger] (s.or(x, y).v[x] >> b)) & 1 == ((s.v[x] >> b) & 1) | ((s.v[y]
                >> b) & 1),
        forall|b: u8|
            b < 8 ==> (#[trigger] (s.and(x, y).v[x] >> b)) & 1 == ((s.v[x] >> b) & 1) & ((s.v[y]
                >> b) & 1),
        forall|b: u8|
            b < 8 ==> (#[trigger] (s.xor(x, y).v[x] >> b)) & 1 == ((s.v[x] >> b) & 1) ^ ((s.v[y]
                >> b) & 1),
        only_register_changed(s, s.or(x, y), x),
        only_register_changed(s, s.and(x, y), x),
        only_register_changed(s, s.xor(x, y), x),
        s.v[x] + kk < 256 ==> s.add(x, kk).v[x] == s.v[x] + kk,
        s.v[x] + kk >= 256 ==> s.add(x, kk).v[x] == s.v[x] + kk - 256,
        only_register_changed(s, s.add(x, kk), x),
{
    let vx = s.v[x];
    let vy = s.v[y];
    assert(s.or(x, y).v[x] == vx | vy);
    assert(s.and(x, y).v[x] == vx & vy);
    assert(s.xor(x, y).v[x] == vx ^ vy);
    assert forall|b: u8| b < 8 implies (#[trigger] ((vx | vy) >> b)) & 1 == ((vx >> b) & 1) | ((vy
        >> b) & 1) by {
        assert(((vx | vy) >> b) & 1 == ((vx >> b) & 1) | ((vy >> b) & 1)) by (bit_vector);
    }
    assert forall|b: u8| b < 8 implies (#[trigger] ((vx & vy) >> b)) & 1 == ((vx >> b) & 1) & ((vy
        >> b) & 1) by {
        assert(((vx & vy) >> b) & 1 == ((vx >> b) & 1) & ((vy >> b) & 1)) by (bit_vector);
    }
    assert forall|b: u8| b < 8 implies (#[trigger] ((vx ^ vy) >> b)) & 1 == ((vx >> b) & 1) ^ ((vy
        >> b) & 1) by {
        assert(((vx ^ vy) >> b) & 1 == ((vx >> b) & 1) ^ ((vy >> b) & 1)) by (bit_vector);
    }
}

/// The flag-setting arithmetic writes only `Vx` and `VF`.
pub proof fn law_arithmetic_writes_only_vx_and_vf(s: CpuState, x: int, y: int)
    requires
        s.wf(),
        0 <= x < 16,
        0 <= y < 16,
    ensures
        forall|j: int|
            0 <= j < 16 && j != x && j != 15 ==> {
                &&& #[trigger] s.add_reg(x, y).v[j] == s.v[j]
                &&& s.sub(x, y).v[j] == s.v[j]
                &&& s.subn(x, y).v[j] == s.v[j]
                &&& s.shr(x).v[j] == s.v[j]
                &&& s.shl(x).v[j] == s.v[j]
            },
        s.add_reg(x, y).v[15] == if s.v[x] + s.v[y] > 255 { 1u8 } else { 0u8 },
        s.sub(x, y).v[15] == if s.v[x] >= s.v[y] { 1u8 } else { 0u8 },
        s.subn(x, y).v[15] == if s.v[y] >= s.v[x] { 1u8 } else { 0u8 },
        s.shr(x).v[15] == s.v[x] % 2,
        s.shl(x).v[15] == s.v[x] / 128,
        s.add_reg(x, y).pc == s.pc && s.sub(x, y).pc == s.pc && s.subn(x, y).pc == s.pc
            && s.shr(x).pc == s.pc && s.shl(x).pc == s.pc,
        s.add_reg(x, y).memory == s.memory && s.sub(x, y).memory == s.memory && s.subn(
            x,
            y,
        ).memory == s.memory && s.shr(x).memory == s.memory && s.shl(x).memory == s.memory,
{
}

/// The conditional skips move the program counter on by two exactly when
/// their condition holds, and depend on nothing else: `Ex9E` and `ExA1` look
/// only at the key `Vx`, whatever the other keys are.
pub proof fn law_skips(s: CpuState, x: int, y: int, kk: u8)
    requires
        s.wf(),
        0 <= x < 16,
        0 <= y < 16,
        s.pc + 2 <= u16::MAX,
    ensures
        s.skip_eq_byte(x, kk).pc == if s.v[x] == kk { s.pc + 2 } else { s.pc as int },
        s.skip_neq_byte(x, kk).pc == if s.v[x] != kk { s.pc + 2 } else { s.pc as int },
        s.skip_eq_reg(x, y).pc == if s.v[x] == s.v[y] { s.pc + 2 } else { s.pc as int },
        s.skip_neq_reg(x, y).pc == if s.v[x] != s.v[y] { s.pc + 2 } else { s.pc as int },
        only_pc_changed(s, s.skip_eq_byte(x, kk)),
        only_pc_changed(s, s.skip_neq_byte(x, kk)),
        only_pc_changed(s, s.skip_eq_reg(x, y)),
        only_pc_changed(s, s.skip_neq_reg(x, y)),
        s.v[x] < 16 ==> s.skip_key(x).pc == if s.keypad[s.v[x] as int] {
            s.pc + 2
        } else {
            s.pc as int
        },
        s.v[x] < 16 ==> s.skip_nkey(x).pc == if !s.keypad[s.v[x] as int] {
            s.pc + 2
        } else {
            s.pc as int
        },
        only_pc_changed(s, s.skip_key(x)),
        only_pc_changed(s, s.skip_nkey(x)),
{
}

/// Key skips do not depend on the keys other than `Vx`: two states that
/// differ only in other keys skip alike.
pub proof fn law_key_skips_look_at_one_key(s: CpuState, keys: Seq<bool>, x: int)
    requires
        s.wf(),
        0 <= x < 16,
        s.v[x] < 16,
        keys.len() == 16,
        keys[s.v[x] as int] == s.keypad[s.v[x] as int],
    ensures
        (CpuState { keypad: keys, ..s }).skip_key(x).pc == s.skip_key(x).pc,
        (CpuState { keypad: keys, ..s }).skip_nkey(x).pc == s.skip_nkey(x).pc,
{
}

/// The index register: `Annn` sets it to `nnn`, `Fx1E` adds `Vx` to it,
/// `Fx29` sets it to five times `Vx`; nothing else changes.
pub proof fn law_index_register(s: CpuState, x: int, nnn: u16)
    requires
        s.wf(),
        0 <= x < 16,
    ensures
        s.set_i(nnn).i == nnn,
        s.set_i(nnn) == (CpuState { i: s.set_i(nnn).i, ..s }),
        s.add_i_fits(x) ==> s.add_i(x).i == s.i + s.v[x],
        s.add_i(x) == (CpuState { i: s.add_i(x).i, ..s }),
        s.font(x).i == 5 * s.v[x],
        s.font(x) == (CpuState { i: s.font(x).i, ..s }),
{
}

/// The timers: `Fx15` and `Fx18` load them from `Vx`; one tick takes one
/// off each timer that is positive and leaves a zero timer at zero.
pub proof fn law_timers(s: CpuState, x: int)
    requires
        s.wf(),
        0 <= x < 16,
    ensures
        s.set_delay(x).delay_timer == s.v[x],
        s.set_delay(x) == (CpuState { delay_timer: s.set_delay(x).delay_timer, ..s }),
        s.set_sound(x).sound_timer == s.v[x],
        s.set_sound(x) == (CpuState { sound_timer: s.set_sound(x).sound_timer, ..s }),
        s.delay_timer > 0 ==> s.tick_timers().delay_timer == s.delay_timer - 1,
        s.delay_timer == 0 ==> s.tick_timers().delay_timer == 0,
        s.sound_timer > 0 ==> s.tick_timers().sound_timer == s.sound_timer - 1,
        s.sound_timer == 0 ==> s.tick_timers().sound_timer == 0,
        s.tick_timers() == (CpuState {
            delay_timer: s.tick_timers().delay_timer,
            sound_timer: s.tick_timers().sound_timer,
            ..s
        }),
{
}

/// Control flow: `1nnn` jumps to `nnn`, `Bnnn` to `nnn + V0`, `2nnn` pushes
/// the program counter and jumps, `00EE` pops the top return address.
pub proof fn law_control_flow(s: CpuState, nnn: u16)
    requires
        s.wf(),
    ensures
        s.jump(nnn).pc == nnn,
        only_pc_changed(s, s.jump(nnn)),
        s.jump_v0_fits(nnn) ==> s.jump_v0(nnn).pc == nnn + s.v[0],
        only_pc_changed(s, s.jump_v0(nnn)),
        s.call_fits() ==> {
            let t = s.call(nnn);
            &&& t.pc == nnn
            &&& t.sp == s.sp + 1
            &&& t.stack[s.sp as int] == s.pc
            &&& forall|j: int| 0 <= j < 16 && j != s.sp ==> #[trigger] t.stack[j] == s.stack[j]
            &&& t == CpuState { pc: t.pc, sp: t.sp, stack: t.stack, ..s }
        },
        s.return_fits() ==> {
            let t = s.return_from_call();
            &&& t.sp == s.sp - 1
            &&& t.pc == s.stack[s.sp - 1]
            &&& t == CpuState { pc: t.pc, sp: t.sp, ..s }
        },
{
}

/// `00E0` darkens every pixel and marks the display for redrawing, changing
/// nothing else.
pub proof fn law_clear_screen(s: CpuState)
    requires
        s.wf(),
    ensures
        s.clear_screen().display.len() == 2048,
        forall|p: int| 0 <= p < 2048 ==> !#[trigger] s.clear_screen().display[p],
        s.clear_screen().draw_flag,
        s.clear_screen() == (CpuState {
            display: s.clear_screen().display,
            draw_flag: true,
            ..s
        }),
{
}

/// `Fx55` writes `Vj` to `I + j` for each `j <= x`; `Fx65` reads `Vj` from
/// `I + j` for each `j <= x`; each changes nothing else.
pub proof fn law_store_and_load_addresses(s: CpuState, x: int)
    requires
        s.wf(),
        0 <= x < 16,
        s.block_fits(x),
    ensures
        forall|j: int| 0 <= j <= x ==> #[trigger] s.store(x).memory[s.i + j] == s.v[j],
        s.store(x) == (CpuState { memory: s.store(x).memory, ..s }),
        s.store(x).memory.len() == 4096,
        forall|j: int| 0 <= j <= x ==> #[trigger] s.load(x).v[j] == s.memory[s.i + j],
        forall|j: int| x < j < 16 ==> #[trigger] s.load(x).v[j] == s.v[j],
        s.load(x) == (CpuState { v: s.load(x).v, ..s }),
        s.load(x).v.len() == 16,
{
}

/// Fetching reads the byte at the program counter as the high byte and the
/// next one as the low byte, and moves the program counter on by two.
pub proof fn law_fetch(s: CpuState)
    requires
        s.wf(),
        s.fetch_fits(),
    ensures
        s.opcode_at_pc() == 256 * s.memory[s.pc as int] + s.memory[s.pc + 1],
        s.advance_pc().pc == s.pc + 2,
        only_pc_changed(s, s.advance_pc()),
{
}

/// Loading a program puts its byte `k` at `0x200 + k` and changes no other
/// byte and nothing else.
pub proof fn law_load_rom(s: CpuState, data: Seq<u8>)
    requires
        s.wf(),
        0x200 + data.len() <= 4096,
    ensures
        forall|k: int| 0 <= k < data.len() ==> #[trigger] s.load_rom(data).memory[0x200 + k]
            == data[k],
        forall|a: int|
            0 <= a < 4096 && !(0x200 <= a < 0x200 + data.len()) ==> #[trigger] s.load_rom(
                data,
            ).memory[a] == s.memory[a],
        s.load_rom(data).memory.len() == 4096,
        s.load_rom(data) == (CpuState { memory: s.load_rom(data).memory, ..s }),
{
}

/// A machine just powered on holds the font in its first 80 bytes and
/// zeros above, starts at `0x200` with empty stack, clear registers, timers,
/// display and keys.
pub proof fn law_power_on()
    ensures
        ({
            let s = CpuState::initial();
            &&& s.wf()
            &&& forall|k: int| 0 <= k < 80 ==> #[trigger] s.memory[k] == font_data()[k]
            &&& forall|k: int| 80 <= k < 4096 ==> #[trigger] s.memory[k] == 0
            &&& s.memory[0] == 0xF0 && s.memory[1] == 0x90 && s.memory[79] == 0x80
            &&& s.pc == 0x200 && s.i == 0 && s.sp == 0
            &&& s.delay_timer == 0 && s.sound_timer == 0 && !s.draw_flag
            &&& forall|j: int| 0 <= j < 16 ==> #[trigger] s.v[j] == 0 && s.stack[j] == 0
                && !s.keypad[j]
            &&& forall|p: int| 0 <= p < 2048 ==> !#[trigger] s.display[p]
        }),
{
}

/// The scaled frame shows each lit display pixel as white (`0xFFFFFF`) and
/// each dark one as black, screen pixel (`px`, `py`) showing display pixel
/// (`px / 10`, `py / 10`).
pub proof fn law_frame_colours(display: Seq<bool>)
    requires
        display.len() == 2048,
    ensures
        frame_of(display).len() == 640 * 320,
        forall|px: int, py: int|
            0 <= px < 640 && 0 <= py < 320 ==> #[trigger] frame_of(display)[py * 640 + px] == if display[(py
                / 10) * 64 + px / 10] {
                0x00FF_FFFFu32
            } else {
                0u32
            },
{
    assert forall|px: int, py: int| 0 <= px < 640 && 0 <= py < 320 implies #[trigger] frame_of(
        display,
    )[py * 640 + px] == if display[(py / 10) * 64 + px / 10] {
        0x00FF_FFFFu32
    } else {
        0u32
    } by {
        assert((py * 640 + px) / 640 == py);
        assert((py * 640 + px) % 640 == px);
    }
}

/// Decoding, stated with the opcode's hexadecimal digits: the group is the
/// top digit, `x` and `y` the next two, `n` the last, `kk` the low byte and
/// `nnn` the low three digits.
pub proof fn law_decode_digits(opcode: u16)
    ensures
        ({
            let g = opcode / 0x1000;
            let x = ((opcode / 0x100) % 16) as usize;
            let y = ((opcode / 0x10) % 16) as usize;
            let n = (opcode % 16) as u8;
            let kk = (opcode % 0x100) as u8;
            let nnn = (opcode % 0x1000) as u16;
            let d = decode(opcode);
            &&& opcode == 0x00E0 ==> d == Instr::ClearScreen
            &&& opcode == 0x00EE ==> d == Instr::Return
            &&& g == 0 && opcode != 0x00E0 && opcode != 0x00EE ==> d == Instr::Nop
            &&& g == 1 ==> d == Instr::Jump(nnn)
            &&& g == 2 ==> d == Instr::Call(nnn)
            &&& g == 3 ==> d == Instr::SkipEqByte(x, kk)
            &&& g == 4 ==> d == Instr::SkipNeqByte(x, kk)
            &&& g == 5 ==> d == Instr::SkipEqReg(x, y)
            &&& g == 6 || g == 7 ==> d == Instr::SetByte(x, kk)
            &&& g == 8 && n == 0 ==> d == Instr::Mov(x, y)
            &&& g == 8 && n == 1 ==> d == Instr::Or(x, y)
            &&& g == 8 && n == 2 ==> d == Instr::And(x, y)
            &&& g == 8 && n == 3 ==> d == Instr::Xor(x, y)
            &&& g == 8 && n == 4 ==> d == Instr::AddReg(x, y)
            &&& g == 8 && n == 5 ==> d == Instr::Sub(x, y)
            &&& g == 8 && n == 6 ==> d == Instr::Shr(x)
            &&& g == 8 && n == 7 ==> d == Instr::Subn(x, y)
            &&& g == 8 && n == 0xE ==> d == Instr::Shl(x)
            &&& g == 8 && 8 <= n < 0xE ==> d == Instr::Nop
            &&& g == 8 && n == 0xF ==> d == Instr::Nop
            &&& g == 9 ==> d == Instr::SkipNeqReg(x, y)
            &&& g == 0xA ==> d == Instr::SetI(nnn)
            &&& g == 0xB ==> d == Instr::JumpV0(nnn)
            &&& g == 0xC ==> d == Instr::Rand(x, kk)
            &&& g == 0xD ==> d == Instr::Draw(x, y, n)
            &&& g == 0xE && kk == 0x9E ==> d == Instr::SkipKey(x)
            &&& g == 0xE && kk == 0xA1 ==> d == Instr::SkipNotKey(x)
            &&& g == 0xE && kk != 0x9E && kk != 0xA1 ==> d == Instr::Nop
            &&& g == 0xF && kk == 0x07 ==> d == Instr::GetDelay(x)
            &&& g == 0xF && kk == 0x0A ==> d == Instr::WaitKey(x)
            &&& g == 0xF && kk == 0x15 ==> d == Instr::SetDelay(x)
            &&& g == 0xF && kk == 0x18 ==> d == Instr::SetSound(x)
            &&& g == 0xF && kk == 0x1E ==> d == Instr::AddI(x)
            &&& g == 0xF && kk == 0x29 ==> d == Instr::Font(x)
            &&& g == 0xF && kk == 0x33 ==> d == Instr::Bcd(x)
            &&& g == 0xF && kk == 0x55 ==> d == Instr::Store(x)
            &&& g == 0xF && kk == 0x65 ==> d == Instr::Load(x)
        }),
{
    assert((opcode & 0xF000) >> 12 == opcode / 0x1000 && (opcode & 0x0F00) >> 8 == (opcode
        / 0x100) % 16 && (opcode & 0x00F0) >> 4 == (opcode / 0x10) % 16 && opcode & 0x000F
        == opcode % 16 && opcode & 0x00FF == opcode % 0x100 && opcode & 0x0FFF == opcode
        % 0x1000) by (bit_vector);
}

/// Running a decoded instruction performs that instruction's operation.
pub proof fn law_run_dispatch(s: CpuState, x: usize, y: usize, kk: u8, nnn: u16, n: u8, rnd: u8)
    ensures
        s.run(Instr::ClearScreen, rnd) == s.clear_screen(),
        s.run(Instr::Return, rnd) == s.return_from_call(),
        s.run(Instr::Jump(nnn), rnd) == s.jump(nnn),
        s.run(Instr::Call(nnn), rnd) == s.call(nnn),
        s.run(Instr::SkipEqByte(x, kk), rnd) == s.skip_eq_byte(x as int, kk),
        s.run(Instr::SkipNeqByte(x, kk), rnd) == s.skip_neq_byte(x as int, kk),
        s.run(Instr::SkipEqReg(x, y), rnd) == s.skip_eq_reg(x as int, y as int),
        s.run(Instr::SetByte(x, kk), rnd) == s.set(x as int, kk),
        s.run(Instr::Mov(x, y), rnd) == s.mov(x as int, y as int),
        s.run(Instr::Or(x, y), rnd) == s.or(x as int, y as int),
        s.run(Instr::And(x, y), rnd) == s.and(x as int, y as int),
        s.run(Instr::Xor(x, y), rnd) == s.xor(x as int, y as int),
        s.run(Instr::AddReg(x, y), rnd) == s.add_reg(x as int, y as int),
        s.run(Instr::Sub(x, y), rnd) == s.sub(x as int, y as int),
        s.run(Instr::Shr(x), rnd) == s.shr(x as int),
        s.run(Instr::Subn(x, y), rnd) == s.subn(x as int, y as int),
        s.run(Instr::Shl(x), rnd) == s.shl(x as int),
        s.run(Instr::SkipNeqReg(x, y), rnd) == s.skip_neq_reg(x as int, y as int),
        s.run(Instr::SetI(nnn), rnd) == s.set_i(nnn),
        s.run(Instr::JumpV0(nnn), rnd) == s.jump_v0(nnn),
        s.run(Instr::Rand(x, kk), rnd) == s.rand(x as int, kk, rnd),
        s.run(Instr::Draw(x, y, n), rnd) == s.draw(x as int, y as int, n),
        s.run(Instr::SkipKey(x), rnd) == s.skip_key(x as int),
        s.run(Instr::SkipNotKey(x), rnd) == s.skip_nkey(x as int),
        s.run(Instr::GetDelay(x), rnd) == s.get_delay(x as int),
        s.run(Instr::WaitKey(x), rnd) == s.wait_key(x as int),
        s.run(Instr::SetDelay(x), rnd) == s.set_delay(x as int),
        s.run(Instr::SetSound(x), rnd) == s.set_sound(x as int),
        s.run(Instr::AddI(x), rnd) == s.add_i(x as int),
        s.run(Instr::Font(x), rnd) == s.font(x as int),
        s.run(Instr::Bcd(x), rnd) == s.bcd(x as int),
        s.run(Instr::Store(x), rnd) == s.store(x as int),
        s.run(Instr::Load(x), rnd) == s.load(x as int),
        s.run(Instr::Nop, rnd) == s,
{
}

/// When an instruction can run: register-only instructions always can;
/// a return needs a return address on the stack, a call a free stack slot,
/// a skip that is taken room for the program counter, the memory
/// instructions their bytes in memory, a draw its pixels within limits.
pub proof fn law_instr_fits(s: CpuState, x: usize, y: usize, kk: u8, nnn: u16, n: u8)
    requires
        s.wf(),
        x < 16,
        y < 16,
    ensures
        s.instr_fits(Instr::ClearScreen),
        s.instr_fits(Instr::Jump(nnn)),
        s.instr_fits(Instr::SetI(nnn)),
        s.instr_fits(Instr::Nop),
        s.instr_fits(Instr::SetByte(x, kk)),
        s.instr_fits(Instr::Mov(x, y)) && s.instr_fits(Instr::Or(x, y)) && s.instr_fits(
            Instr::And(x, y),
        ) && s.instr_fits(Instr::Xor(x, y)),
        s.instr_fits(Instr::AddReg(x, y)) && s.instr_fits(Instr::Sub(x, y)) && s.instr_fits(
            Instr::Subn(x, y),
        ) && s.instr_fits(Instr::Shr(x)) && s.instr_fits(Instr::Shl(x)),
        s.instr_fits(Instr::Rand(x, kk)) && s.instr_fits(Instr::GetDelay(x)) && s.instr_fits(
            Instr::SetDelay(x),
        ) && s.instr_fits(Instr::SetSound(x)) && s.instr_fits(Instr::Font(x)),
        s.instr_fits(Instr::Return) <==> 1 <= s.sp <= 16,
        s.instr_fits(Instr::Call(nnn)) <==> s.sp < 16,
        s.instr_fits(Instr::SkipEqByte(x, kk)) <==> (s.v[x as int] == kk ==> s.pc <= 0xFFFD),
        s.instr_fits(Instr::SkipNeqByte(x, kk)) <==> (s.v[x as int] != kk ==> s.pc <= 0xFFFD),
        s.instr_fits(Instr::SkipEqReg(x, y)) <==> (s.v[x as int] == s.v[y as int] ==> s.pc
            <= 0xFFFD),
        s.instr_fits(Instr::SkipNeqReg(x, y)) <==> (s.v[x as int] != s.v[y as int] ==> s.pc
            <= 0xFFFD),
        s.instr_fits(Instr::JumpV0(nnn)) <==> nnn + s.v[0] <= 0xFFFF,
        s.instr_fits(Instr::SkipKey(x)) <==> s.v[x as int] < 16 && (s.keypad[s.v[x as int] as int]
            ==> s.pc <= 0xFFFD),
        s.instr_fits(Instr::SkipNotKey(x)) <==> s.v[x as int] < 16 && (!s.keypad[s.v[x as int]
            as int] ==> s.pc <= 0xFFFD),
        s.instr_fits(Instr::WaitKey(x)) <==> ((forall|k: int|
            0 <= k < 16 ==> !#[trigger] s.keypad[k]) ==> s.pc >= 2),
        s.instr_fits(Instr::AddI(x)) <==> s.i + s.v[x as int] <= 0xFFFF,
        s.instr_fits(Instr::Bcd(x)) <==> s.i + 2 < 4096,
        s.instr_fits(Instr::Store(x)) <==> s.i + x < 4096,
        s.instr_fits(Instr::Load(x)) <==> s.i + x < 4096,
        s.instr_fits(Instr::Draw(x, y, n)) <==> s.draw_fits(x as int, y as int, n),
{
    lemma_first_pressed_none(s.keypad, 0);
}

proof fn lemma_first_pressed_none(keys: Seq<bool>, from: int)
    requires
        0 <= from <= 16,
    ensures
        first_pressed(keys, from) >= 16 <==> forall|k: int| from <= k < 16 ==> !#[trigger] keys[k],
        first_pressed(keys, from) <= 16,
    decreases 16 - from,
{
    if from < 16 {
        lemma_first_pressed_none(keys, from + 1);
        if !keys[from] {
            assert forall|k: int| from <= k < 16 && (forall|j: int| from + 1 <= j < 16 ==> !#[trigger] keys[j])
                implies !#[trigger] keys[k] by {
                if k > from {
                    assert(!keys[k]);
                }
            }
        }
    }
}

/// A cycle moves the program counter past the opcode before running it: an
/// opcode that decodes to nothing only moves the program counter on by two,
/// and a jump lands on its target.
pub proof fn law_cycle(s: CpuState, rnd: u8)
    requires
        s.wf(),
        s.cycle_fits(),
    ensures
        decode(s.opcode_at_pc()) is Nop ==> s.cycle(rnd) == (CpuState { pc: (s.pc + 2) as u16, ..s }),
        decode(s.opcode_at_pc()) matches Instr::Jump(nnn) ==> s.cycle(rnd).pc == nnn,
        decode(s.opcode_at_pc()) matches Instr::Call(nnn) ==> s.cycle(rnd).stack[s.sp as int]
            == s.pc + 2,
{
}

} // verus!
