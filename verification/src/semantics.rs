use vstd::prelude::*;
use crate::state::CpuState;

verus! {

/// The lowest index in `from..16` of a pressed key, or 16 when none of them
/// is pressed.
pub open spec fn first_pressed(keys: Seq<bool>, from: int) -> int
    decreases 16 - from,
{
    if from >= 16 {
        16
    } else if keys[from] {
        from
    } else {
        first_pressed(keys, from + 1)
    }
}

/// Whether bit `7 - col` of `sprite` (the sprite's column `col`, counted
/// from the left) is set.
pub open spec fn sprite_bit(sprite: u8, col: int) -> bool {
    (sprite >> ((7 - col) as u8)) & 1u8 == 1u8
}

impl CpuState {
    /// Register `x` set to `value`, nothing else changed.
    pub open spec fn set_reg(self, x: int, value: u8) -> CpuState {
        CpuState { v: self.v.update(x, value), ..self }
    }

    /// The next instruction skipped: the program counter moved on by two.
    pub open spec fn skip_if(self, cond: bool) -> CpuState {
        if cond {
            CpuState { pc: (self.pc + 2) as u16, ..self }
        } else {
            self
        }
    }

    /// Skipping is possible without leaving the range of the program counter.
    pub open spec fn skip_fits(self, cond: bool) -> bool {
        cond ==> self.pc + 2 <= u16::MAX
    }

    /// `00E0`: every pixel cleared, the display marked for redrawing.
    pub open spec fn clear_screen(self) -> CpuState {
        CpuState { display: Seq::new(2048, |k: int| false), draw_flag: true, ..self }
    }

    /// `00EE`: the return address popped off the stack into the program counter.
    pub open spec fn return_from_call(self) -> CpuState {
        let sp = (self.sp - 1) as u8;
        CpuState { sp, pc: self.stack[sp as int], ..self }
    }

    /// There is a return address on the stack.
    pub open spec fn return_fits(self) -> bool {
        1 <= self.sp <= 16
    }

    /// `1nnn`: the program counter set to `nnn`.
    pub open spec fn jump(self, nnn: u16) -> CpuState {
        CpuState { pc: nnn, ..self }
    }

    /// `2nnn`: the program counter pushed, then set to `nnn`.
    pub open spec fn call(self, nnn: u16) -> CpuState {
        CpuState {
            stack: self.stack.update(self.sp as int, self.pc),
            sp: (self.sp + 1) as u8,
            pc: nnn,
            ..self
        }
    }

    /// The stack has room for another return address.
    pub open spec fn call_fits(self) -> bool {
        self.sp < 16
    }

    /// `3xkk`: skip when `Vx == kk`.
    pub open spec fn skip_eq_byte(self, x: int, kk: u8) -> CpuState {
        self.skip_if(self.v[x] == kk)
    }

    /// `4xkk`: skip when `Vx != kk`.
    pub open spec fn skip_neq_byte(self, x: int, kk: u8) -> CpuState {
        self.skip_if(self.v[x] != kk)
    }

    /// `5xy0`: skip when `Vx == Vy`.
    pub open spec fn skip_eq_reg(self, x: int, y: int) -> CpuState {
        self.skip_if(self.v[x] == self.v[y])
    }

    /// `9xy0`: skip when `Vx != Vy`.
    pub open spec fn skip_neq_reg(self, x: int, y: int) -> CpuState {
        self.skip_if(self.v[x] != self.v[y])
    }

    /// `6xkk` (and `7xkk`, which this machine decodes the same way): `Vx = kk`.
    pub open spec fn set(self, x: int, kk: u8) -> CpuState {
        self.set_reg(x, kk)
    }

    /// `Vx = Vx + kk`, wrapping around at 256.
    pub open spec fn add(self, x: int, kk: u8) -> CpuState {
        self.set_reg(x, ((self.v[x] + kk) % 256) as u8)
    }

    /// `8xy0`: `Vx = Vy`.
    pub open spec fn mov(self, x: int, y: int) -> CpuState {
        self.set_reg(x, self.v[y])
    }

    /// `8xy1`: `Vx = Vx | Vy`.
    pub open spec fn or(self, x: int, y: int) -> CpuState {
        self.set_reg(x, self.v[x] | self.v[y])
    }

    /// `8xy2`: `Vx = Vx & Vy`.
    pub open spec fn and(self, x: int, y: int) -> CpuState {
        self.set_reg(x, self.v[x] & self.v[y])
    }

    /// `8xy3`: `Vx = Vx ^ Vy`.
    pub open spec fn xor(self, x: int, y: int) -> CpuState {
        self.set_reg(x, self.v[x] ^ self.v[y])
    }

    /// `8xy4`: `Vx = Vx + Vy` modulo 256, then `VF` = 1 on carry, else 0.
    pub open spec fn add_reg(self, x: int, y: int) -> CpuState {
        let sum = self.v[x] + self.v[y];
        self.set_reg(x, (sum % 256) as u8).set_reg(15, if sum > 255 { 1 } else { 0 })
    }

    /// `8xy5`: `Vx = Vx - Vy` modulo 256, then `VF` = 0 on borrow, else 1.
    pub open spec fn sub(self, x: int, y: int) -> CpuState {
        let d = self.v[x] - self.v[y];
        self.set_reg(x, (if d < 0 { d + 256 } else { d }) as u8).set_reg(
            15,
            if d < 0 { 0 } else { 1 },
        )
    }

    /// `8xy7`: `Vx = Vy - Vx` modulo 256, then `VF` = 0 on borrow, else 1.
    pub open spec fn subn(self, x: int, y: int) -> CpuState {
        let d = self.v[y] - self.v[x];
        self.set_reg(x, (if d < 0 { d + 256 } else { d }) as u8).set_reg(
            15,
            if d < 0 { 0 } else { 1 },
        )
    }

    /// `8xy6`: `Vx` halved, then `VF` = the bit shifted out.
    pub open spec fn shr(self, x: int) -> CpuState {
        self.set_reg(x, self.v[x] / 2).set_reg(15, self.v[x] % 2)
    }

    /// `8xyE`: `Vx` doubled modulo 256, then `VF` = the bit shifted out.
    pub open spec fn shl(self, x: int) -> CpuState {
        self.set_reg(x, ((2 * self.v[x]) % 256) as u8).set_reg(
            15,
            if self.v[x] >= 128 { 1 } else { 0 },
        )
    }

    /// `Annn`: `I = nnn`.
    pub open spec fn set_i(self, nnn: u16) -> CpuState {
        CpuState { i: nnn, ..self }
    }

    /// `Bnnn`: jump to `nnn + V0`.
    pub open spec fn jump_v0(self, nnn: u16) -> CpuState {
        CpuState { pc: (nnn + self.v[0]) as u16, ..self }
    }

    /// The jump target of `Bnnn` is an address.
    pub open spec fn jump_v0_fits(self, nnn: u16) -> bool {
        nnn + self.v[0] <= u16::MAX
    }

    /// `Cxkk`: `Vx = rnd & kk`, where `rnd` is the random byte drawn.
    pub open spec fn rand(self, x: int, kk: u8, rnd: u8) -> CpuState {
        self.set_reg(x, rnd & kk)
    }

    /// `Ex9E`: skip when the key `Vx` is pressed.
    pub open spec fn skip_key(self, x: int) -> CpuState {
        self.skip_if(self.keypad[self.v[x] as int])
    }

    /// `ExA1`: skip when the key `Vx` is not pressed.
    pub open spec fn skip_nkey(self, x: int) -> CpuState {
        self.skip_if(!self.keypad[self.v[x] as int])
    }

    /// `Vx` names a key, and the skip stays in range.
    pub open spec fn skip_key_fits(self, x: int) -> bool {
        &&& self.v[x] < 16
        &&& self.skip_fits(self.keypad[self.v[x] as int])
    }

    /// `Vx` names a key, and the skip stays in range.
    pub open spec fn skip_nkey_fits(self, x: int) -> bool {
        &&& self.v[x] < 16
        &&& self.skip_fits(!self.keypad[self.v[x] as int])
    }

    /// `Fx07`: `Vx = delay timer`.
    pub open spec fn get_delay(self, x: int) -> CpuState {
        self.set_reg(x, self.delay_timer)
    }

    /// `Fx0A`: `Vx` = the lowest pressed key; when no key is pressed the
    /// program counter moves back to this instruction, so that it runs again.
    pub open spec fn wait_key(self, x: int) -> CpuState {
        let k = first_pressed(self.keypad, 0);
        if k < 16 {
            self.set_reg(x, k as u8)
        } else {
            CpuState { pc: (self.pc - 2) as u16, ..self }
        }
    }

    /// Waiting does not move the program counter below zero.
    pub open spec fn wait_key_fits(self) -> bool {
        first_pressed(self.keypad, 0) >= 16 ==> self.pc >= 2
    }

    /// `Fx15`: `delay timer = Vx`.
    pub open spec fn set_delay(self, x: int) -> CpuState {
        CpuState { delay_timer: self.v[x], ..self }
    }

    /// `Fx18`: `sound timer = Vx`.
    pub open spec fn set_sound(self, x: int) -> CpuState {
        CpuState { sound_timer: self.v[x], ..self }
    }

    /// `Fx1E`: `I = I + Vx`.
    pub open spec fn add_i(self, x: int) -> CpuState {
        CpuState { i: (self.i + self.v[x]) as u16, ..self }
    }

    /// The sum `I + Vx` fits in the index register.
    pub open spec fn add_i_fits(self, x: int) -> bool {
        self.i + self.v[x] <= u16::MAX
    }

    /// `Fx29`: `I` = the address of the glyph for digit `Vx`.
    pub open spec fn font(self, x: int) -> CpuState {
        CpuState { i: (self.v[x] * 5) as u16, ..self }
    }

    /// `Fx33`: the decimal digits of `Vx` written to `I`, `I+1`, `I+2`.
    pub open spec fn bcd(self, x: int) -> CpuState {
        let val = self.v[x];
        let i = self.i as int;
        CpuState {
            memory: self.memory.update(i, val / 100).update(i + 1, (val % 100) / 10).update(
                i + 2,
                val % 10,
            ),
            ..self
        }
    }

    /// The three digits fit in memory.
    pub open spec fn bcd_fits(self) -> bool {
        self.i + 2 < 4096
    }

    /// `Fx55`: `V0..=Vx` written to memory from `I` on.
    pub open spec fn store(self, x: int) -> CpuState {
        CpuState {
            memory: Seq::new(
                self.memory.len(),
                |k: int|
                    if self.i <= k <= self.i + x {
                        self.v[k - self.i]
                    } else {
                        self.memory[k]
                    },
            ),
            ..self
        }
    }

    /// `Fx65`: `V0..=Vx` read from memory from `I` on.
    pub open spec fn load(self, x: int) -> CpuState {
        CpuState {
            v: Seq::new(
                self.v.len(),
                |k: int|
                    if k <= x {
                        self.memory[self.i + k]
                    } else {
                        self.v[k]
                    },
            ),
            ..self
        }
    }

    /// The registers `V0..=Vx` have room in memory from `I` on.
    pub open spec fn block_fits(self, x: int) -> bool {
        self.i + x < 4096
    }

    /// One tick of the 60 Hz timers: each counts down by one until it is zero.
    pub open spec fn tick_timers(self) -> CpuState {
        CpuState {
            delay_timer: if self.delay_timer > 0 { (self.delay_timer - 1) as u8 } else { 0 },
            sound_timer: if self.sound_timer > 0 { (self.sound_timer - 1) as u8 } else { 0 },
            ..self
        }
    }
}

} // verus!
