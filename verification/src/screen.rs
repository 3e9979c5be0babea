use vstd::prelude::*;

verus! {

/// Each display pixel is shown as a square of `SCALE` x `SCALE` screen pixels.
pub const SCALE: usize = 10;

/// Width of the scaled frame in screen pixels.
pub const FRAME_WIDTH: usize = 640;

/// Height of the scaled frame in screen pixels.
pub const FRAME_HEIGHT: usize = 320;

/// The colour of a lit pixel (white) and of a dark one (black), as 0RGB.
pub open spec fn pixel_color(lit: bool) -> u32 {
    if lit {
        0x00FF_FFFF
    } else {
        0
    }
}

/// The scaled frame of a display, row by row: screen pixel (`px`, `py`)
/// shows display pixel (`px / 10`, `py / 10`).
pub open spec fn frame_of(display: Seq<bool>) -> Seq<u32> {
    Seq::new(
        640 * 320,
        |p: int| pixel_color(display[((p / 640) / 10) * 64 + (p % 640) / 10]),
    )
}

/// The colour of one display pixel.
fn color(lit: bool) -> (c: u32)
    ensures
        c == pixel_color(lit),
{
    if lit {
        0x00FF_FFFF
    } else {
        0x0000_0000
    }
}

/// The display scaled up into a 640 x 320 frame of 0RGB pixels, row by row.
pub fn render(display: &[bool; 2048]) -> (frame: Vec<u32>)
    ensures
        frame@ == frame_of(display@),
        forall|x: int, y: int, sx: int, sy: int|
            0 <= x < 64 && 0 <= y < 32 && 0 <= sx < 10 && 0 <= sy < 10 ==> #[trigger] frame@[(y * 10
                + sy) * 640 + (x * 10 + sx)] == #[trigger] pixel_color(display@[y * 64 + x]),
{
    let mut frame: Vec<u32> = Vec::new();
    for py in 0..FRAME_HEIGHT
        invariant
            frame@.len() == 640 * py,
            forall|q: int| 0 <= q < frame@.len() ==> #[trigger] frame@[q] == frame_of(display@)[q],
    {
        for px in 0..FRAME_WIDTH
            invariant
                py < 320,
                frame@.len() == 640 * py + px,
                forall|q: int|
                    0 <= q < frame@.len() ==> #[trigger] frame@[q] == frame_of(display@)[q],
        {
            let q: usize = 640 * py + px;
            assert(q as int / 640 == py && q as int % 640 == px);
            frame.push(color(display[(py / SCALE) * 64 + px / SCALE]));
        }
    }
    assert(frame@ =~= frame_of(display@));
    assert forall|x: int, y: int, sx: int, sy: int|
        0 <= x < 64 && 0 <= y < 32 && 0 <= sx < 10 && 0 <= sy < 10 implies #[trigger] frame@[(y
        * 10 + sy) * 640 + (x * 10 + sx)] == #[trigger] pixel_color(display@[y * 64 + x]) by {
        let p = (y * 10 + sy) * 640 + (x * 10 + sx);
        assert(p / 640 == y * 10 + sy);
        assert(p % 640 == x * 10 + sx);
        assert((y * 10 + sy) / 10 == y);
        assert((x * 10 + sx) / 10 == x);
    }
    frame
}

} // verus!
