use vstd::prelude::*;
use crate::state::{CpuState, font_data};
use crate::draw::lemma_draw_pixels_frame;
use crate::semantics::first_pressed;
use crate::instruction::{decode, Instr};
use crate::screen::{frame_of, render};

verus! {

/// The machine: memory, registers, call stack, timers, display and keypad.
pub struct Cpu {
    pub memory: [u8; 4096],
    /// General registers `V0` to `VF`.
    pub v: [u8; 16],
    /// The index register.
    pub i: u16,
    /// The program counter.
    pub pc: u16,
    pub stack: [u16; 16],
    /// The stack pointer: the number of return addresses on the stack.
    pub sp: u8,
    pub delay_timer: u8,
    pub sound_timer: u8,
    /// One flag per pixel, row by row, 64 pixels to a row.
    pub display: [bool; 2048],
    pub keypad: [bool; 16],
    /// Set when the display has changed since it was last shown.
    pub draw_flag: bool,
}

impl View for Cpu {
    type V = CpuState;

    open spec fn view(&self) -> CpuState {
        CpuState {
            memory: self.memory@,
            v: self.v@,
            i: self.i,
            pc: self.pc,
            stack: self.stack@,
            sp: self.sp,
            delay_timer: self.delay_timer,
            sound_timer: self.sound_timer,
            display: self.display@,
            keypad: self.keypad@,
            draw_flag: self.draw_flag,
        }
    }
}

/// The built-in font as an array.
fn font_sprites() -> (r: [u8; 80])
    ensures
        r@ == font_data(),
{
    let r: [u8; 80] = [
        0xF0, 0x90, 0x90, 0x90, 0xF0, // 0
        0x20, 0x60, 0x20, 0x20, 0x70, // 1
        0xF0, 0x10, 0xF0, 0x80, 0xF0, // 2
        0xF0, 0x10, 0xF0, 0x10, 0xF0, // 3
        0x90, 0x90, 0xF0, 0x10, 0x10, // 4
        0xF0, 0x80, 0xF0, 0x10, 0xF0, // 5
        0xF0, 0x80, 0xF0, 0x90, 0xF0, // 6
        0xF0, 0x10, 0x20, 0x40, 0x40, // 7
        0xF0, 0x90, 0xF0, 0x90, 0xF0, // 8
        0xF0, 0x90, 0xF0, 0x10, 0xF0, // 9
        0xF0, 0x90, 0xF0, 0x90, 0x90, // A
        0xE0, 0x90, 0xE0, 0x90, 0xE0, // B
        0xF0, 0x80, 0x80, 0x80, 0xF0, // C
        0xE0, 0x90, 0x90, 0x90, 0xE0, // D
        0xF0, 0x80, 0xF0, 0x80, 0xF0, // E
        0xF0, 0x80, 0xF0, 0x80, 0x80, // F
    ];
    assert(r@ =~= font_data());
    r
}

impl Cpu {
    /// A machine just powered on: the font is in memory, the program counter
    /// at the program start, everything else zero.
    pub fn new() -> (cpu: Self)
        ensures
            cpu@ == CpuState::initial(),
    {
        let mut cpu = Cpu {
            memory: [0; 4096],
            v: [0; 16],
            i: 0,
            pc: 0x200,
            stack: [0; 16],
            sp: 0,
            delay_timer: 0,
            sound_timer: 0,
            display: [false; 2048],
            keypad: [false; 16],
            draw_flag: false,
        };
        cpu.load_fonts();
        assert(cpu@ =~= CpuState::initial());
        cpu
    }

    /// Copies the font to the first bytes of memory.
    fn load_fonts(&mut self)
        ensures
            final(self)@ == (CpuState {
                memory: font_data() + old(self).memory@.subrange(80, 4096),
                ..old(self)@
            }),
    {
        let fonts = font_sprites();
        for k in 0..80
            invariant
                self.memory@ =~= fonts@.subrange(0, k as int) + old(self).memory@.subrange(k as int, 4096),
                fonts@ == font_data(),
                self.v == old(self).v,
                self.stack == old(self).stack,
                self.display == old(self).display,
                self.keypad == old(self).keypad,
                self.i == old(self).i,
                self.pc == old(self).pc,
                self.sp == old(self).sp,
                self.delay_timer == old(self).delay_timer,
                self.sound_timer == old(self).sound_timer,
                self.draw_flag == old(self).draw_flag,
        {
            self.memory[k] = fonts[k];
        }
        assert(self@ =~= (CpuState {
            memory: font_data() + old(self).memory@.subrange(80, 4096),
            ..old(self)@
        }));
    }

    /// Reads the big-endian opcode at the program counter and moves the
    /// program counter past it.
    pub fn fetch(&mut self) -> (opcode: u16)
        requires
            old(self)@.fetch_fits(),
        ensures
            opcode == old(self)@.opcode_at_pc(),
            final(self)@ == old(self)@.advance_pc(),
    {
        let hi = self.memory[self.pc as usize] as u16;
        let lo = self.memory[self.pc as usize + 1] as u16;
        self.pc += 2;
        assert((hi << 8) | lo == hi * 256 + lo) by (bit_vector)
            requires
                hi < 256,
                lo < 256,
        ;
        (hi << 8) | lo
    }

    /// Copies a program into memory from the program start (`0x200`) on.
    pub fn load_rom(&mut self, data: &[u8])
        requires
            0x200 + data@.len() <= 4096,
        ensures
            final(self)@ == old(self)@.load_rom(data@),
    {
        for k in 0..data.len()
            invariant
                0x200 + data@.len() <= 4096,
                self.v == old(self).v,
                self.stack == old(self).stack,
                self.display == old(self).display,
                self.keypad == old(self).keypad,
                self.i == old(self).i,
                self.pc == old(self).pc,
                self.sp == old(self).sp,
                self.delay_timer == old(self).delay_timer,
                self.sound_timer == old(self).sound_timer,
                self.draw_flag == old(self).draw_flag,
                forall|j: int|
                    0 <= j < 4096 ==> #[trigger] self.memory[j] == if 0x200 <= j < 0x200 + k {
                        data@[j - 0x200]
                    } else {
                        old(self).memory[j]
                    },
        {
            self.memory[0x200 + k] = data[k];
        }
        assert(self@ =~= old(self)@.load_rom(data@));
    }

    /// Runs one instruction, given by its opcode.
    pub fn execute(&mut self, opcode: u16)
        requires
            old(self)@.instr_fits(decode(opcode)),
        ensures
            exists|rnd: u8| final(self)@ == old(self)@.run(decode(opcode), rnd),
            !(decode(opcode) is Rand) ==> final(self)@ == old(self)@.run(decode(opcode), 0),
    {
        // The opcode's fields: an address, a byte, a nibble, two registers.
        let nnn = opcode & 0x0FFF;
        let kk = (opcode & 0x00FF) as u8;
        let n = (opcode & 0x000F) as u8;
        let x = ((opcode & 0x0F00) >> 8) as usize;
        let y = ((opcode & 0x00F0) >> 4) as usize;
        assert((opcode & 0x0F00) >> 8 < 16 && (opcode & 0x00F0) >> 4 < 16 && opcode & 0x0FFF
            <= 0x0FFF) by (bit_vector);
        let ghost instr = decode(opcode);
        match (opcode & 0xF000) >> 12 {
            0x0 => match opcode {
                0x00E0 => self.op_clear_screen(),
                0x00EE => self.op_return(),
                _ => {},
            },
            0x1 => self.op_jump(nnn),
            0x2 => self.op_call(nnn),
            0x3 => self.op_skip_eq_byte(x, kk),
            0x4 => self.op_skip_neq_byte(x, kk),
            0x5 => self.op_skip_eq_reg(x, y),
            0x6 => self.op_set(x, kk),
            0x7 => self.op_set(x, kk),
            0x8 => match n {
                0x0 => self.op_mov(x, y),
                0x1 => self.op_or(x, y),
                0x2 => self.op_and(x, y),
                0x3 => self.op_xor(x, y),
                0x4 => self.op_add_reg(x, y),
                0x5 => self.op_sub(x, y),
                0x6 => self.op_shr(x),
                0x7 => self.op_subn(x, y),
                0xE => self.op_shl(x),
                _ => {},
            },
            0x9 => self.op_skip_neq_reg(x, y),
            0xA => self.op_set_i(nnn),
            0xB => self.op_jump_v0(nnn),
            0xC => {
                self.op_rand(x, kk);
                let ghost rnd = choose|rnd: u8| self@ == old(self)@.rand(x as int, kk, rnd);
                assert(self@ == old(self)@.run(instr, rnd));
            },
            0xD => self.op_draw(x, y, n),
            0xE => match kk {
                0x9E => self.op_skip_key(x),
                0xA1 => self.op_skip_nkey(x),
                _ => {},
            },
            0xF => match kk {
                0x07 => self.op_get_delay(x),
                0x0A => self.op_wait_key(x),
                0x15 => self.op_set_delay(x),
                0x18 => self.op_set_sound(x),
                0x1E => self.op_add_i(x),
                0x29 => self.op_font(x),
                0x33 => self.op_bcd(x),
                0x55 => self.op_store(x),
                0x65 => self.op_load(x),
                _ => {},
            },
            _ => {},
        }
        proof {
            if !(instr is Rand) {
                assert(self@ == old(self)@.run(instr, 0));
            }
        }
    }

    /// The lowest pressed key, or 16 when no key is pressed.
    fn first_pressed_key(&self) -> (k: usize)
        ensures
            k == first_pressed(self.keypad@, 0),
    {
        let mut k: usize = 0;
        while k < 16
            invariant
                k <= 16,
                first_pressed(self.keypad@, 0) == first_pressed(self.keypad@, k as int),
            decreases 16 - k,
        {
            if self.keypad[k] {
                return k;
            }
            k = k + 1;
        }
        k
    }

    /// Whether drawing the sprite pixel at `row`, `col` stays within the
    /// machine's limits in the current state.
    fn pixel_fits_now(&self, x: usize, y: usize, row: u8, col: u8) -> (r: bool)
        requires
            x < 16,
            y < 16,
        ensures
            r == self@.pixel_fits(x as int, y as int, row as int, col as int),
    {
        (self.i as usize + row as usize) < 4096 && (self.v[x] as usize + col as usize) <= 255
            && (self.v[y] as usize + row as usize) <= 255 && ((self.v[y] as usize + row as usize)
            % 32) * 64 + (self.v[x] as usize + col as usize) % 64 <= 255
    }

    /// Whether `Dxyn` stays within the machine's limits: the draw is played
    /// on a copy of the machine, pixel by pixel.
    fn draw_fits_now(&self, x: usize, y: usize, n: u8) -> (r: bool)
        requires
            x < 16,
            y < 16,
        ensures
            r == self@.draw_fits(x as int, y as int, n),
    {
        let ghost start = self@.draw_start();
        let mut t = Cpu {
            memory: self.memory,
            v: self.v,
            i: self.i,
            pc: self.pc,
            stack: self.stack,
            sp: self.sp,
            delay_timer: self.delay_timer,
            sound_timer: self.sound_timer,
            display: self.display,
            keypad: self.keypad,
            draw_flag: true,
        };
        t.v[0xF] = 0;
        assert(t@ =~= start.draw_pixels(x as int, y as int, 0));
        for row in 0..n
            invariant
                x < 16,
                y < 16,
                start == self@.draw_start(),
                start.wf(),
                t@ == start.draw_pixels(x as int, y as int, (8 * row) as nat),
                forall|k: nat|
                    k < 8 * row ==> #[trigger] start.draw_pixels(x as int, y as int, k).pixel_fits(
                        x as int,
                        y as int,
                        k as int / 8,
                        k as int % 8,
                    ),
        {
            for col in 0..8
                invariant
                    x < 16,
                    y < 16,
                    row < n,
                    start == self@.draw_start(),
                    start.wf(),
                    t@ == start.draw_pixels(x as int, y as int, (8 * row + col) as nat),
                    forall|k: nat|
                        k < 8 * row + col ==> #[trigger] start.draw_pixels(
                            x as int,
                            y as int,
                            k,
                        ).pixel_fits(x as int, y as int, k as int / 8, k as int % 8),
            {
                let ghost k = (8 * row + col) as nat;
                assert(k as int / 8 == row && k as int % 8 == col);
                proof {
                    lemma_draw_pixels_frame(start, x as int, y as int, k);
                }
                if !t.pixel_fits_now(x, y, row, col) {
                    assert(!start.draw_pixels(x as int, y as int, k).pixel_fits(
                        x as int,
                        y as int,
                        k as int / 8,
                        k as int % 8,
                    ));
                    return false;
                }
                let sprite = t.memory[(t.i + row as u16) as usize];
                t.draw_sprite_pixel(x, y, row, col, sprite);
            }
        }
        true
    }

    /// Whether the instruction of `opcode` can run in the current state
    /// without leaving the machine's limits.
    pub fn can_execute(&self, opcode: u16) -> (r: bool)
        ensures
            r == self@.instr_fits(decode(opcode)),
    {
        let nnn = opcode & 0x0FFF;
        let kk = (opcode & 0x00FF) as u8;
        let n = (opcode & 0x000F) as u8;
        let x = ((opcode & 0x0F00) >> 8) as usize;
        let y = ((opcode & 0x00F0) >> 4) as usize;
        assert((opcode & 0x0F00) >> 8 < 16 && (opcode & 0x00F0) >> 4 < 16) by (bit_vector);
        let skip_room = self.pc <= 0xFFFD;
        match (opcode & 0xF000) >> 12 {
            0x0 => match opcode {
                0x00EE => 1 <= self.sp && self.sp <= 16,
                _ => true,
            },
            0x2 => self.sp < 16,
            0x3 => self.v[x] != kk || skip_room,
            0x4 => self.v[x] == kk || skip_room,
            0x5 => self.v[x] != self.v[y] || skip_room,
            0x9 => self.v[x] == self.v[y] || skip_room,
            0xB => nnn as u32 + self.v[0] as u32 <= 0xFFFF,
            0xD => self.draw_fits_now(x, y, n),
            0xE => match kk {
                0x9E => self.v[x] < 16 && (!self.keypad[self.v[x] as usize] || skip_room),
                0xA1 => self.v[x] < 16 && (self.keypad[self.v[x] as usize] || skip_room),
                _ => true,
            },
            0xF => match kk {
                0x0A => self.first_pressed_key() < 16 || self.pc >= 2,
                0x1E => self.i as u32 + self.v[x] as u32 <= 0xFFFF,
                0x33 => (self.i as u32) + 2 < 4096,
                0x55 => (self.i as usize) + x < 4096,
                0x65 => (self.i as usize) + x < 4096,
                _ => true,
            },
            _ => true,
        }
    }

    /// One machine cycle: fetches the opcode at the program counter and runs
    /// it. When the opcode cannot be read, or its instruction would leave the
    /// machine's limits, nothing changes and the result is `false`.
    pub fn cycle(&mut self) -> (ok: bool)
        ensures
            ok == old(self)@.cycle_fits(),
            ok ==> exists|rnd: u8| final(self)@ == old(self)@.cycle(rnd),
            ok && !(decode(old(self)@.opcode_at_pc()) is Rand) ==> final(self)@ == old(
                self,
            )@.cycle(0),
            !ok ==> final(self)@ == old(self)@,
    {
        if self.pc as usize + 1 >= 4096 {
            return false;
        }
        let saved_pc = self.pc;
        let opcode = self.fetch();
        if !self.can_execute(opcode) {
            self.pc = saved_pc;
            assert(self@ =~= old(self)@);
            return false;
        }
        let ghost fetched = self@;
        self.execute(opcode);
        proof {
            let rnd = choose|rnd: u8| self@ == fetched.run(decode(opcode), rnd);
            assert(self@ == old(self)@.cycle(rnd));
        }
        true
    }

    /// Counts both timers down by one, stopping at zero.
    pub fn tick_timers(&mut self)
        ensures
            final(self)@ == old(self)@.tick_timers(),
    {
        if self.delay_timer > 0 {
            self.delay_timer -= 1;
        }
        if self.sound_timer > 0 {
            self.sound_timer -= 1;
        }
    }

    /// When the display has changed since it was last shown, the scaled
    /// frame to show, and the change is marked as shown; otherwise `None`.
    pub fn take_frame(&mut self) -> (frame: Option<Vec<u32>>)
        ensures
            match frame {
                Some(f) => {
                    &&& old(self).draw_flag
                    &&& f@ == frame_of(old(self).display@)
                    &&& final(self)@ == (CpuState { draw_flag: false, ..old(self)@ })
                },
                None => !old(self).draw_flag && final(self)@ == old(self)@,
            },
    {
        if self.draw_flag {
            let frame = render(&self.display);
            self.draw_flag = false;
            Some(frame)
        } else {
            None
        }
    }
}

} // verus!
