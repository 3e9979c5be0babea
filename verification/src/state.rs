use vstd::prelude::*;

verus! {

/// The built-in font: sixteen glyphs, `0` to `F`, five bytes each.
pub open spec fn font_data() -> Seq<u8> {
    seq![
        0xF0u8, 0x90, 0x90, 0x90, 0xF0, // 0
        0x20, 0x60, 0x20, 0x20, 0x70, // 1
        0xF0, 0x10, 0xF0, 0x80, 0xF0, // 2
        0xF0, 0x10, 0xF0, 0x10, 0xF0, // 3
        0x90, 0x90, 0xF0, 0x10, 0x10, // 4
        0xF0, 0x80, 0xF0, 0x10, 0xF0, // 5
        0xF0, 0x80, 0xF0, 0x90, 0xF0, // 6
        0xF0, 0x10, 0x20, 0x40, 0x40, // 7
        0xF0, 0x90, 0xF0, 0x90, 0xF0, // 8
        0xF0, 0x90, 0xF0, 0x10, 0xF0, // 9
        0xF0, 0x90, 0xF0, 0x90, 0x90, // A
        0xE0, 0x90, 0xE0, 0x90, 0xE0, // B
        0xF0, 0x80, 0x80, 0x80, 0xF0, // C
        0xE0, 0x90, 0x90, 0x90, 0xE0, // D
        0xF0, 0x80, 0xF0, 0x80, 0xF0, // E
        0xF0, 0x80, 0xF0, 0x80, 0x80, // F
    ]
}

/// The abstract state of the machine.
#[verifier::ext_equal]
pub ghost struct CpuState {
    pub memory: Seq<u8>,
    pub v: Seq<u8>,
    pub i: u16,
    pub pc: u16,
    pub stack: Seq<u16>,
    pub sp: u8,
    pub delay_timer: u8,
    pub sound_timer: u8,
    pub display: Seq<bool>,
    pub keypad: Seq<bool>,
    pub draw_flag: bool,
}

impl CpuState {
    /// The sizes that every machine state has.
    pub open spec fn wf(self) -> bool {
        &&& self.memory.len() == 4096
        &&& self.v.len() == 16
        &&& self.stack.len() == 16
        &&& self.display.len() == 2048
        &&& self.keypad.len() == 16
    }

    /// The memory of a machine that has just been powered on: the font at
    /// the bottom, zeros elsewhere.
    pub open spec fn initial_memory() -> Seq<u8> {
        Seq::new(4096, |k: int| if k < 80 { font_data()[k] } else { 0u8 })
    }

    /// The machine state right after power-on.
    pub open spec fn initial() -> CpuState {
        CpuState {
            memory: Self::initial_memory(),
            v: Seq::new(16, |k: int| 0u8),
            i: 0,
            pc: 0x200,
            stack: Seq::new(16, |k: int| 0u16),
            sp: 0,
            delay_timer: 0,
            sound_timer: 0,
            display: Seq::new(2048, |k: int| false),
            keypad: Seq::new(16, |k: int| false),
            draw_flag: false,
        }
    }
}

} // verus!
