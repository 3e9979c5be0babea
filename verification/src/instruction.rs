use vstd::prelude::*;
use crate::state::CpuState;

verus! {

/// A decoded instruction; register operands are register numbers.
pub enum Instr {
    /// `00E0`
    ClearScreen,
    /// `00EE`
    Return,
    /// `1nnn`
    Jump(u16),
    /// `2nnn`
    Call(u16),
    /// `3xkk`
    SkipEqByte(usize, u8),
    /// `4xkk`
    SkipNeqByte(usize, u8),
    /// `5xy0` (the low nibble is not looked at)
    SkipEqReg(usize, usize),
    /// `6xkk` and `7xkk`
    SetByte(usize, u8),
    /// `8xy0`
    Mov(usize, usize),
    /// `8xy1`
    Or(usize, usize),
    /// `8xy2`
    And(usize, usize),
    /// `8xy3`
    Xor(usize, usize),
    /// `8xy4`
    AddReg(usize, usize),
    /// `8xy5`
    Sub(usize, usize),
    /// `8xy6`
    Shr(usize),
    /// `8xy7`
    Subn(usize, usize),
    /// `8xyE`
    Shl(usize),
    /// `9xy0` (the low nibble is not looked at)
    SkipNeqReg(usize, usize),
    /// `Annn`
    SetI(u16),
    /// `Bnnn`
    JumpV0(u16),
    /// `Cxkk`
    Rand(usize, u8),
    /// `Dxyn`
    Draw(usize, usize, u8),
    /// `Ex9E`
    SkipKey(usize),
    /// `ExA1`
    SkipNotKey(usize),
    /// `Fx07`
    GetDelay(usize),
    /// `Fx0A`
    WaitKey(usize),
    /// `Fx15`
    SetDelay(usize),
    /// `Fx18`
    SetSound(usize),
    /// `Fx1E`
    AddI(usize),
    /// `Fx29`
    Font(usize),
    /// `Fx33`
    Bcd(usize),
    /// `Fx55`
    Store(usize),
    /// `Fx65`
    Load(usize),
    /// Any other opcode: nothing happens.
    Nop,
}

/// The address field `nnn` of an opcode.
pub open spec fn opcode_nnn(opcode: u16) -> u16 {
    opcode & 0x0FFF
}

/// The byte field `kk` of an opcode.
pub open spec fn opcode_kk(opcode: u16) -> u8 {
    (opcode & 0x00FF) as u8
}

/// The low nibble `n` of an opcode.
pub open spec fn opcode_n(opcode: u16) -> u8 {
    (opcode & 0x000F) as u8
}

/// The register field `x` of an opcode.
pub open spec fn opcode_x(opcode: u16) -> usize {
    ((opcode & 0x0F00) >> 8) as usize
}

/// The register field `y` of an opcode.
pub open spec fn opcode_y(opcode: u16) -> usize {
    ((opcode & 0x00F0) >> 4) as usize
}

/// The instruction group: the high nibble of an opcode.
pub open spec fn opcode_group(opcode: u16) -> u16 {
    (opcode & 0xF000) >> 12
}

/// The instruction that an opcode stands for.
pub open spec fn decode(opcode: u16) -> Instr {
    let nnn = opcode_nnn(opcode);
    let kk = opcode_kk(opcode);
    let n = opcode_n(opcode);
    let x = opcode_x(opcode);
    let y = opcode_y(opcode);
    let group = opcode_group(opcode);
    if group == 0x0 {
        if opcode == 0x00E0 {
            Instr::ClearScreen
        } else if opcode == 0x00EE {
            Instr::Return
        } else {
            Instr::Nop
        }
    } else if group == 0x1 {
        Instr::Jump(nnn)
    } else if group == 0x2 {
        Instr::Call(nnn)
    } else if group == 0x3 {
        Instr::SkipEqByte(x, kk)
    } else if group == 0x4 {
        Instr::SkipNeqByte(x, kk)
    } else if group == 0x5 {
        Instr::SkipEqReg(x, y)
    } else if group == 0x6 || group == 0x7 {
        Instr::SetByte(x, kk)
    } else if group == 0x8 {
        if n == 0x0 {
            Instr::Mov(x, y)
        } else if n == 0x1 {
            Instr::Or(x, y)
        } else if n == 0x2 {
            Instr::And(x, y)
        } else if n == 0x3 {
            Instr::Xor(x, y)
        } else if n == 0x4 {
            Instr::AddReg(x, y)
        } else if n == 0x5 {
            Instr::Sub(x, y)
        } else if n == 0x6 {
            Instr::Shr(x)
        } else if n == 0x7 {
            Instr::Subn(x, y)
        } else if n == 0xE {
            Instr::Shl(x)
        } else {
            Instr::Nop
        }
    } else if group == 0x9 {
        Instr::SkipNeqReg(x, y)
    } else if group == 0xA {
        Instr::SetI(nnn)
    } else if group == 0xB {
        Instr::JumpV0(nnn)
    } else if group == 0xC {
        Instr::Rand(x, kk)
    } else if group == 0xD {
        Instr::Draw(x, y, n)
    } else if group == 0xE {
        if kk == 0x9E {
            Instr::SkipKey(x)
        } else if kk == 0xA1 {
            Instr::SkipNotKey(x)
        } else {
            Instr::Nop
        }
    } else if group == 0xF {
        if kk == 0x07 {
            Instr::GetDelay(x)
        } else if kk == 0x0A {
            Instr::WaitKey(x)
        } else if kk == 0x15 {
            Instr::SetDelay(x)
        } else if kk == 0x18 {
            Instr::SetSound(x)
        } else if kk == 0x1E {
            Instr::AddI(x)
        } else if kk == 0x29 {
            Instr::Font(x)
        } else if kk == 0x33 {
            Instr::Bcd(x)
        } else if kk == 0x55 {
            Instr::Store(x)
        } else if kk == 0x65 {
            Instr::Load(x)
        } else {
            Instr::Nop
        }
    } else {
        Instr::Nop
    }
}

impl CpuState {
    /// The two bytes at the program counter, read as a big-endian opcode.
    pub open spec fn opcode_at_pc(self) -> u16 {
        (self.memory[self.pc as int] * 256 + self.memory[self.pc + 1]) as u16
    }

    /// Both bytes of the next opcode are in memory.
    pub open spec fn fetch_fits(self) -> bool {
        self.pc + 1 < 4096
    }

    /// The program counter moved past the opcode just read.
    pub open spec fn advance_pc(self) -> CpuState {
        CpuState { pc: (self.pc + 2) as u16, ..self }
    }

    /// `data` copied to memory from the program start on.
    pub open spec fn load_rom(self, data: Seq<u8>) -> CpuState {
        CpuState {
            memory: Seq::new(
                self.memory.len(),
                |k: int|
                    if 0x200 <= k < 0x200 + data.len() {
                        data[k - 0x200]
                    } else {
                        self.memory[k]
                    },
            ),
            ..self
        }
    }

    /// The effect of running an instruction; `rnd` is the random byte that
    /// `Cxkk` masks, and no other instruction looks at it.
    pub open spec fn run(self, instr: Instr, rnd: u8) -> CpuState {
        match instr {
            Instr::ClearScreen => self.clear_screen(),
            Instr::Return => self.return_from_call(),
            Instr::Jump(nnn) => self.jump(nnn),
            Instr::Call(nnn) => self.call(nnn),
            Instr::SkipEqByte(x, kk) => self.skip_eq_byte(x as int, kk),
            Instr::SkipNeqByte(x, kk) => self.skip_neq_byte(x as int, kk),
            Instr::SkipEqReg(x, y) => self.skip_eq_reg(x as int, y as int),
            Instr::SetByte(x, kk) => self.set(x as int, kk),
            Instr::Mov(x, y) => self.mov(x as int, y as int),
            Instr::Or(x, y) => self.or(x as int, y as int),
            Instr::And(x, y) => self.and(x as int, y as int),
            Instr::Xor(x, y) => self.xor(x as int, y as int),
            Instr::AddReg(x, y) => self.add_reg(x as int, y as int),
            Instr::Sub(x, y) => self.sub(x as int, y as int),
            Instr::Shr(x) => self.shr(x as int),
            Instr::Subn(x, y) => self.subn(x as int, y as int),
            Instr::Shl(x) => self.shl(x as int),
            Instr::SkipNeqReg(x, y) => self.skip_neq_reg(x as int, y as int),
            Instr::SetI(nnn) => self.set_i(nnn),
            Instr::JumpV0(nnn) => self.jump_v0(nnn),
            Instr::Rand(x, kk) => self.rand(x as int, kk, rnd),
            Instr::Draw(x, y, n) => self.draw(x as int, y as int, n),
            Instr::SkipKey(x) => self.skip_key(x as int),
            Instr::SkipNotKey(x) => self.skip_nkey(x as int),
            Instr::GetDelay(x) => self.get_delay(x as int),
            Instr::WaitKey(x) => self.wait_key(x as int),
            Instr::SetDelay(x) => self.set_delay(x as int),
            Instr::SetSound(x) => self.set_sound(x as int),
            Instr::AddI(x) => self.add_i(x as int),
            Instr::Font(x) => self.font(x as int),
            Instr::Bcd(x) => self.bcd(x as int),
            Instr::Store(x) => self.store(x as int),
            Instr::Load(x) => self.load(x as int),
            Instr::Nop => self,
        }
    }

    /// The instruction can run in this state without leaving the machine's
    /// limits: register numbers below 16, addresses in memory, no 8- or
    /// 16-bit overflow where the machine does not wrap around.
    pub open spec fn instr_fits(self, instr: Instr) -> bool {
        match instr {
            Instr::ClearScreen => true,
            Instr::Return => self.return_fits(),
            Instr::Jump(nnn) => true,
            Instr::Call(nnn) => self.call_fits(),
            Instr::SkipEqByte(x, kk) => x < 16 && self.skip_fits(self.v[x as int] == kk),
            Instr::SkipNeqByte(x, kk) => x < 16 && self.skip_fits(self.v[x as int] != kk),
            Instr::SkipEqReg(x, y) => x < 16 && y < 16 && self.skip_fits(
                self.v[x as int] == self.v[y as int],
            ),
            Instr::SetByte(x, kk) => x < 16,
            Instr::Mov(x, y) => x < 16 && y < 16,
            Instr::Or(x, y) => x < 16 && y < 16,
            Instr::And(x, y) => x < 16 && y < 16,
            Instr::Xor(x, y) => x < 16 && y < 16,
            Instr::AddReg(x, y) => x < 16 && y < 16,
            Instr::Sub(x, y) => x < 16 && y < 16,
            Instr::Shr(x) => x < 16,
            Instr::Subn(x, y) => x < 16 && y < 16,
            Instr::Shl(x) => x < 16,
            Instr::SkipNeqReg(x, y) => x < 16 && y < 16 && self.skip_fits(
                self.v[x as int] != self.v[y as int],
            ),
            Instr::SetI(nnn) => true,
            Instr::JumpV0(nnn) => self.jump_v0_fits(nnn),
            Instr::Rand(x, kk) => x < 16,
            Instr::Draw(x, y, n) => x < 16 && y < 16 && self.draw_fits(x as int, y as int, n),
            Instr::SkipKey(x) => x < 16 && self.skip_key_fits(x as int),
            Instr::SkipNotKey(x) => x < 16 && self.skip_nkey_fits(x as int),
            Instr::GetDelay(x) => x < 16,
            Instr::WaitKey(x) => x < 16 && self.wait_key_fits(),
            Instr::SetDelay(x) => x < 16,
            Instr::SetSound(x) => x < 16,
            Instr::AddI(x) => x < 16 && self.add_i_fits(x as int),
            Instr::Font(x) => x < 16,
            Instr::Bcd(x) => x < 16 && self.bcd_fits(),
            Instr::Store(x) => x < 16 && self.block_fits(x as int),
            Instr::Load(x) => x < 16 && self.block_fits(x as int),
            Instr::Nop => true,
        }
    }

    /// One machine cycle: the opcode at the program counter fetched and run.
    pub open spec fn cycle(self, rnd: u8) -> CpuState {
        self.advance_pc().run(decode(self.opcode_at_pc()), rnd)
    }

    /// A cycle can run: the opcode is in memory and its instruction fits the
    /// state after the fetch.
    pub open spec fn cycle_fits(self) -> bool {
        &&& self.fetch_fits()
        &&& self.advance_pc().instr_fits(decode(self.opcode_at_pc()))
    }
}

} // verus!
