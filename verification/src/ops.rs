use vstd::prelude::*;
use crate::cpu::Cpu;
use crate::draw::lemma_draw_pixels_frame;
use crate::semantics::first_pressed;
use crate::random::random_byte;

verus! {

/// The instructions, one method each, in opcode order.
impl Cpu {
    /// `00E0`: clears every pixel and marks the display for redrawing.
    pub fn op_clear_screen(&mut self)
        ensures
            final(self)@ == old(self)@.clear_screen(),
    {
        for k in 0..2048
            invariant
                self.memory == old(self).memory,
                self.v == old(self).v,
                self.stack == old(self).stack,
                self.keypad == old(self).keypad,
                self.i == old(self).i,
                self.pc == old(self).pc,
                self.sp == old(self).sp,
                self.delay_timer == old(self).delay_timer,
                self.sound_timer == old(self).sound_timer,
                self.draw_flag == old(self).draw_flag,
                forall|j: int| 0 <= j < k ==> !self.display[j],
        {
            self.display[k] = false;
        }
        self.draw_flag = true;
        assert(self@ =~= old(self)@.clear_screen());
    }

    /// `00EE`: pops the return address off the stack into the program counter.
    pub fn op_return(&mut self)
        requires
            old(self)@.return_fits(),
        ensures
            final(self)@ == old(self)@.return_from_call(),
    {
        self.sp -= 1;
        self.pc = self.stack[self.sp as usize];
    }

    /// `1nnn`: jumps to `nnn`.
    pub fn op_jump(&mut self, nnn: u16)
        ensures
            final(self)@ == old(self)@.jump(nnn),
    {
        self.pc = nnn;
    }

    /// `2nnn`: pushes the program counter and jumps to `nnn`.
    pub fn op_call(&mut self, nnn: u16)
        requires
            old(self)@.call_fits(),
        ensures
            final(self)@ == old(self)@.call(nnn),
    {
        self.stack[self.sp as usize] = self.pc;
        self.sp += 1;
        self.pc = nnn;
    }

    /// `3xkk`: skips the next instruction when `Vx == kk`.
    pub fn op_skip_eq_byte(&mut self, x: usize, kk: u8)
        requires
            x < 16,
            old(self)@.skip_fits(old(self).v[x as int] == kk),
        ensures
            final(self)@ == old(self)@.skip_eq_byte(x as int, kk),
    {
        if self.v[x] == kk {
            self.pc += 2;
        }
    }

    /// `4xkk`: skips the next instruction when `Vx != kk`.
    pub fn op_skip_neq_byte(&mut self, x: usize, kk: u8)
        requires
            x < 16,
            old(self)@.skip_fits(old(self).v[x as int] != kk),
        ensures
            final(self)@ == old(self)@.skip_neq_byte(x as int, kk),
    {
        if self.v[x] != kk {
            self.pc += 2;
        }
    }

    /// `5xy0`: skips the next instruction when `Vx == Vy`.
    pub fn op_skip_eq_reg(&mut self, x: usize, y: usize)
        requires
            x < 16,
            y < 16,
            old(self)@.skip_fits(old(self).v[x as int] == old(self).v[y as int]),
        ensures
            final(self)@ == old(self)@.skip_eq_reg(x as int, y as int),
    {
        if self.v[x] == self.v[y] {
            self.pc += 2;
        }
    }

    /// `9xy0`: skips the next instruction when `Vx != Vy`.
    pub fn op_skip_neq_reg(&mut self, x: usize, y: usize)
        requires
            x < 16,
            y < 16,
            old(self)@.skip_fits(old(self).v[x as int] != old(self).v[y as int]),
        ensures
            final(self)@ == old(self)@.skip_neq_reg(x as int, y as int),
    {
        if self.v[x] != self.v[y] {
            self.pc += 2;
        }
    }

    /// `6xkk`: `Vx = kk`.
    pub fn op_set(&mut self, x: usize, kk: u8)
        requires
            x < 16,
        ensures
            final(self)@ == old(self)@.set(x as int, kk),
    {
        self.v[x] = kk;
    }

    /// `Vx = Vx + kk`, wrapping around at 256.
    pub fn op_add(&mut self, x: usize, kk: u8)
        requires
            x < 16,
        ensures
            final(self)@ == old(self)@.add(x as int, kk),
    {
        self.v[x] = self.v[x].wrapping_add(kk);
    }

    /// `8xy0`: `Vx = Vy`.
    pub fn op_mov(&mut self, x: usize, y: usize)
        requires
            x < 16,
            y < 16,
        ensures
            final(self)@ == old(self)@.mov(x as int, y as int),
    {
        self.v[x] = self.v[y];
    }

    /// `8xy1`: `Vx = Vx | Vy`.
    pub fn op_or(&mut self, x: usize, y: usize)
        requires
            x < 16,
            y < 16,
        ensures
            final(self)@ == old(self)@.or(x as int, y as int),
    {
        self.v[x] = self.v[x] | self.v[y];
    }

    /// `8xy2`: `Vx = Vx & Vy`.
    pub fn op_and(&mut self, x: usize, y: usize)
        requires
            x < 16,
            y < 16,
        ensures
            final(self)@ == old(self)@.and(x as int, y as int),
    {
        self.v[x] = self.v[x] & self.v[y];
    }

    /// `8xy3`: `Vx = Vx ^ Vy`.
    pub fn op_xor(&mut self, x: usize, y: usize)
        requires
            x < 16,
            y < 16,
        ensures
            final(self)@ == old(self)@.xor(x as int, y as int),
    {
        self.v[x] = self.v[x] ^ self.v[y];
    }

    /// `8xy4`: `Vx = Vx + Vy` modulo 256; `VF` = 1 on carry, else 0.
    pub fn op_add_reg(&mut self, x: usize, y: usize)
        requires
            x < 16,
            y < 16,
        ensures
            final(self)@ == old(self)@.add_reg(x as int, y as int),
    {
        let result = self.v[x].wrapping_add(self.v[y]);
        let overflowed = self.v[x] as u16 + self.v[y] as u16 > 255;
        self.v[x] = result;
        self.v[0xF] = if overflowed {
            1
        } else {
            0
        };
    }

    /// `8xy5`: `Vx = Vx - Vy` modulo 256; `VF` = 0 on borrow, else 1.
    pub fn op_sub(&mut self, x: usize, y: usize)
        requires
            x < 16,
            y < 16,
        ensures
            final(self)@ == old(self)@.sub(x as int, y as int),
    {
        let result = self.v[x].wrapping_sub(self.v[y]);
        let overflowed = self.v[x] < self.v[y];
        self.v[x] = result;
        self.v[0xF] = if overflowed {
            0
        } else {
            1
        };
    }

    /// `8xy7`: `Vx = Vy - Vx` modulo 256; `VF` = 0 on borrow, else 1.
    pub fn op_subn(&mut self, x: usize, y: usize)
        requires
            x < 16,
            y < 16,
        ensures
            final(self)@ == old(self)@.subn(x as int, y as int),
    {
        let result = self.v[y].wrapping_sub(self.v[x]);
        let overflowed = self.v[y] < self.v[x];
        self.v[x] = result;
        self.v[0xF] = if overflowed {
            0
        } else {
            1
        };
    }

    /// `8xy6`: shifts `Vx` right by one; `VF` = the bit shifted out.
    pub fn op_shr(&mut self, x: usize)
        requires
            x < 16,
        ensures
            final(self)@ == old(self)@.shr(x as int),
    {
        let old_vx = self.v[x];
        let vf = old_vx & 0x1;
        assert(old_vx & 1 == old_vx % 2 && old_vx >> 1 == old_vx / 2) by (bit_vector);
        self.v[x] = self.v[x] >> 1;
        self.v[0xF] = vf;
    }

    /// `8xyE`: shifts `Vx` left by one; `VF` = the bit shifted out.
    pub fn op_shl(&mut self, x: usize)
        requires
            x < 16,
        ensures
            final(self)@ == old(self)@.shl(x as int),
    {
        let old_vx = self.v[x];
        let vf = (old_vx & 0x80) >> 7;
        assert((old_vx & 0x80) >> 7 == (if old_vx >= 128 { 1u8 } else { 0u8 })
            && old_vx << 1 == ((2 * old_vx) % 256) as u8) by (bit_vector);
        self.v[x] = self.v[x] << 1;
        self.v[0xF] = vf;
    }

    /// `Annn`: `I = nnn`.
    pub fn op_set_i(&mut self, nnn: u16)
        ensures
            final(self)@ == old(self)@.set_i(nnn),
    {
        self.i = nnn;
    }

    /// `Bnnn`: jumps to `nnn + V0`.
    pub fn op_jump_v0(&mut self, nnn: u16)
        requires
            old(self)@.jump_v0_fits(nnn),
        ensures
            final(self)@ == old(self)@.jump_v0(nnn),
    {
        self.pc = nnn + self.v[0] as u16;
    }

    /// `Cxkk`: `Vx` = a random byte masked with `kk`.
    pub fn op_rand(&mut self, x: usize, kk: u8)
        requires
            x < 16,
        ensures
            exists|rnd: u8| final(self)@ == old(self)@.rand(x as int, kk, rnd),
    {
        let rnd = random_byte();
        self.op_rand_with(x, kk, rnd);
    }

    /// `Cxkk` with the random byte given: `Vx = rnd & kk`.
    pub fn op_rand_with(&mut self, x: usize, kk: u8, rnd: u8)
        requires
            x < 16,
        ensures
            final(self)@ == old(self)@.rand(x as int, kk, rnd),
    {
        self.v[x] = rnd & kk;
    }

    /// `Dxyn`: XORs the `n`-byte sprite stored at `I` onto the display at
    /// (`Vx`, `Vy`), row by row, coordinates wrapping around the screen; `VF`
    /// ends up 1 when a lit pixel was turned off, else 0. Coordinates and the
    /// display index are computed in 8 bits, so a sprite pixel that lands on
    /// screen row 4 or below overflows the index: `draw_fits` leaves such
    /// draws out.
    pub fn op_draw(&mut self, x: usize, y: usize, n: u8)
        requires
            x < 16,
            y < 16,
            old(self)@.draw_fits(x as int, y as int, n),
        ensures
            final(self)@ == old(self)@.draw(x as int, y as int, n),
    {
        let ghost start = old(self)@.draw_start();
        self.draw_flag = true;
        self.v[0xF] = 0;
        assert(self@ =~= start.draw_pixels(x as int, y as int, 0));
        for row in 0..n
            invariant
                x < 16,
                y < 16,
                start == old(self)@.draw_start(),
                start.wf(),
                old(self)@.draw_fits(x as int, y as int, n),
                self@ == start.draw_pixels(x as int, y as int, (8 * row) as nat),
        {
            proof {
                let k = (8 * row) as nat;
                assert(start.draw_pixels(x as int, y as int, k).pixel_fits(
                    x as int,
                    y as int,
                    k as int / 8,
                    k as int % 8,
                ));
                lemma_draw_pixels_frame(start, x as int, y as int, k);
            }
            let sprite = self.memory[(self.i + row as u16) as usize];
            for col in 0..8
                invariant
                    x < 16,
                    y < 16,
                    row < n,
                    start == old(self)@.draw_start(),
                    start.wf(),
                    old(self)@.draw_fits(x as int, y as int, n),
                    self@ == start.draw_pixels(x as int, y as int, (8 * row + col) as nat),
                    sprite == start.memory[start.i + row],
            {
                let ghost k = (8 * row + col) as nat;
                let ghost prev = self@;
                proof {
                    assert(k as int / 8 == row && k as int % 8 == col);
                    assert(start.draw_pixels(x as int, y as int, k).pixel_fits(
                        x as int,
                        y as int,
                        k as int / 8,
                        k as int % 8,
                    ));
                    lemma_draw_pixels_frame(start, x as int, y as int, k);
                }
                self.draw_sprite_pixel(x, y, row, col, sprite);
                assert(start.draw_pixels(x as int, y as int, (k + 1) as nat) == prev.draw_pixel(
                    x as int,
                    y as int,
                    row as int,
                    col as int,
                ));
            }
        }
    }

    /// XORs the sprite pixel at `row`, `col` onto the display; `sprite` is
    /// the sprite byte of that row, read from memory at `I + row`.
    pub(crate) fn draw_sprite_pixel(&mut self, x: usize, y: usize, row: u8, col: u8, sprite: u8)
        requires
            x < 16,
            y < 16,
            col < 8,
            old(self)@.pixel_fits(x as int, y as int, row as int, col as int),
            sprite == old(self)@.memory[old(self)@.i + row],
        ensures
            final(self)@ == old(self)@.draw_pixel(x as int, y as int, row as int, col as int),
    {
        let bit = (sprite >> (7 - col)) & 0x1;
        let sx = (self.v[x] + col) % 64;
        let sy = (self.v[y] + row) % 32;
        let di = sy * 64 + sx;
        if bit == 1 && self.display[di as usize] {
            self.v[0xF] = 1;
        }
        self.display[di as usize] = self.display[di as usize] ^ (bit == 1);
        assert(self@ =~= old(self)@.draw_pixel(x as int, y as int, row as int, col as int));
    }

    /// `Ex9E`: skips the next instruction when the key `Vx` is pressed.
    pub fn op_skip_key(&mut self, x: usize)
        requires
            x < 16,
            old(self)@.skip_key_fits(x as int),
        ensures
            final(self)@ == old(self)@.skip_key(x as int),
    {
        if self.keypad[self.v[x] as usize] {
            self.pc += 2;
        }
    }

    /// `ExA1`: skips the next instruction when the key `Vx` is not pressed.
    pub fn op_skip_nkey(&mut self, x: usize)
        requires
            x < 16,
            old(self)@.skip_nkey_fits(x as int),
        ensures
            final(self)@ == old(self)@.skip_nkey(x as int),
    {
        if !self.keypad[self.v[x] as usize] {
            self.pc += 2;
        }
    }

    /// `Fx07`: `Vx = delay timer`.
    pub fn op_get_delay(&mut self, x: usize)
        requires
            x < 16,
        ensures
            final(self)@ == old(self)@.get_delay(x as int),
    {
        self.v[x] = self.delay_timer;
    }

    /// `Fx0A`: stores the lowest pressed key in `Vx`; with no key pressed,
    /// steps the program counter back so that this instruction runs again.
    pub fn op_wait_key(&mut self, x: usize)
        requires
            x < 16,
            old(self)@.wait_key_fits(),
        ensures
            final(self)@ == old(self)@.wait_key(x as int),
    {
        for i in 0..16
            invariant
                x < 16,
                *self == *old(self),
                first_pressed(self.keypad@, 0) == first_pressed(self.keypad@, i as int),
        {
            if self.keypad[i] {
                self.v[x] = i as u8;
                return;
            }
        }
        self.pc -= 2;
    }

    /// `Fx15`: `delay timer = Vx`.
    pub fn op_set_delay(&mut self, x: usize)
        requires
            x < 16,
        ensures
            final(self)@ == old(self)@.set_delay(x as int),
    {
        self.delay_timer = self.v[x];
    }

    /// `Fx18`: `sound timer = Vx`.
    pub fn op_set_sound(&mut self, x: usize)
        requires
            x < 16,
        ensures
            final(self)@ == old(self)@.set_sound(x as int),
    {
        self.sound_timer = self.v[x];
    }

    /// `Fx1E`: `I = I + Vx`.
    pub fn op_add_i(&mut self, x: usize)
        requires
            x < 16,
            old(self)@.add_i_fits(x as int),
        ensures
            final(self)@ == old(self)@.add_i(x as int),
    {
        self.i += self.v[x] as u16;
    }

    /// `Fx29`: points `I` at the glyph of digit `Vx`.
    pub fn op_font(&mut self, x: usize)
        requires
            x < 16,
        ensures
            final(self)@ == old(self)@.font(x as int),
    {
        self.i = self.v[x] as u16 * 5;
    }

    /// `Fx33`: writes the hundreds, tens and ones digits of `Vx` to `I`,
    /// `I + 1` and `I + 2`.
    pub fn op_bcd(&mut self, x: usize)
        requires
            x < 16,
            old(self)@.bcd_fits(),
        ensures
            final(self)@ == old(self)@.bcd(x as int),
    {
        self.memory[self.i as usize] = self.v[x] / 100;
        self.memory[(self.i + 1) as usize] = (self.v[x] % 100) / 10;
        self.memory[(self.i + 2) as usize] = self.v[x] % 10;
        assert(self@ =~= old(self)@.bcd(x as int));
    }

    /// `Fx55`: writes `V0..=Vx` to memory from `I` on.
    pub fn op_store(&mut self, x: usize)
        requires
            x < 16,
            old(self)@.block_fits(x as int),
        ensures
            final(self)@ == old(self)@.store(x as int),
    {
        for i in 0..x + 1
            invariant
                x < 16,
                old(self)@.block_fits(x as int),
                self.v == old(self).v,
                self.stack == old(self).stack,
                self.display == old(self).display,
                self.keypad == old(self).keypad,
                self.i == old(self).i,
                self.pc == old(self).pc,
                self.sp == old(self).sp,
                self.delay_timer == old(self).delay_timer,
                self.sound_timer == old(self).sound_timer,
                self.draw_flag == old(self).draw_flag,
                forall|k: int|
                    0 <= k < 4096 ==> #[trigger] self.memory[k] == if old(self).i <= k < old(
                        self,
                    ).i + i {
                        old(self).v[k - old(self).i]
                    } else {
                        old(self).memory[k]
                    },
        {
            self.memory[i + self.i as usize] = self.v[i];
        }
        assert(self@ =~= old(self)@.store(x as int));
    }

    /// `Fx65`: reads `V0..=Vx` from memory from `I` on.
    pub fn op_load(&mut self, x: usize)
        requires
            x < 16,
            old(self)@.block_fits(x as int),
        ensures
            final(self)@ == old(self)@.load(x as int),
    {
        for i in 0..x + 1
            invariant
                x < 16,
                old(self)@.block_fits(x as int),
                self.memory == old(self).memory,
                self.stack == old(self).stack,
                self.display == old(self).display,
                self.keypad == old(self).keypad,
                self.i == old(self).i,
                self.pc == old(self).pc,
                self.sp == old(self).sp,
                self.delay_timer == old(self).delay_timer,
                self.sound_timer == old(self).sound_timer,
                self.draw_flag == old(self).draw_flag,
                forall|k: int|
                    0 <= k < 16 ==> #[trigger] self.v[k] == if k < i {
                        old(self).memory[old(self).i + k]
                    } else {
                        old(self).v[k]
                    },
        {
            self.v[i] = self.memory[i + self.i as usize];
        }
        assert(self@ =~= old(self)@.load(x as int));
    }
}

} // verus!
