//! The placeholder frame of an AppVM window: a buffer filled with the
//! window's trust colour (Catppuccin Mocha).

use vstd::prelude::*;
use crate::wayland::TrustLevel;

verus! {

/// The largest buffer the placeholder frame makes: 256 MiB.
pub const MAX_FRAME_BYTES: usize = 268435456;

/// The trust colour as (red, green, blue).
pub open spec fn trust_color(t: TrustLevel) -> (u8, u8, u8) {
    match t {
        TrustLevel::Red => (0xf3, 0x8b, 0xa8),
        TrustLevel::Orange => (0xfa, 0xb3, 0x87),
        TrustLevel::Yellow => (0xf9, 0xe2, 0xaf),
        TrustLevel::Green => (0xa6, 0xe3, 0xa1),
        TrustLevel::Black => (0x11, 0x11, 0x1b),
    }
}

/// Byte `k` (0 to 3) of a pixel of colour `c` in ARGB8888 little-endian
/// order: blue, green, red, alpha 0xff.
pub open spec fn pixel_byte(c: (u8, u8, u8), k: int) -> u8 {
    if k == 0 {
        c.2
    } else if k == 1 {
        c.1
    } else if k == 2 {
        c.0
    } else {
        0xff
    }
}

/// The byte count of a `width` x `height` frame.
pub open spec fn frame_bytes(width: u32, height: u32) -> int {
    4 * (width as int) * (height as int)
}

fn color_of(t: &TrustLevel) -> (c: (u8, u8, u8))
    ensures
        c == trust_color(*t),
{
    match t {
        TrustLevel::Red => (0xf3, 0x8b, 0xa8),
        TrustLevel::Orange => (0xfa, 0xb3, 0x87),
        TrustLevel::Yellow => (0xf9, 0xe2, 0xaf),
        TrustLevel::Green => (0xa6, 0xe3, 0xa1),
        TrustLevel::Black => (0x11, 0x11, 0x1b),
    }
}

/// A `width` x `height` ARGB8888 little-endian frame in the trust colour:
/// each pixel is the bytes blue, green, red, 0xff.
///
/// Width and height come from untrusted guest metadata: a frame whose byte
/// count overflows or exceeds 256 MiB comes back empty instead of
/// exhausting memory.
pub fn trust_colored_frame(width: u32, height: u32, trust: &TrustLevel) -> (buf: Vec<u8>)
    ensures
        frame_bytes(width, height) > MAX_FRAME_BYTES ==> buf@.len() == 0,
        frame_bytes(width, height) <= MAX_FRAME_BYTES ==> {
            &&& buf@.len() == frame_bytes(width, height)
            &&& forall|i: int|
                0 <= i < buf@.len() ==> #[trigger] buf@[i] == pixel_byte(trust_color(*trust), i % 4)
        },
{
    let (r, g, b) = color_of(trust);
    let ghost c = (r, g, b);
    assert(frame_bytes(width, height) == ((width as int) * (height as int)) * 4) by (nonlinear_arith);
    let count_bytes: usize = match width.checked_mul(height) {
        Some(px) => match px.checked_mul(4) {
            Some(n) => {
                if n as usize > MAX_FRAME_BYTES {
                    return Vec::new();
                }
                n as usize
            },
            None => {
                return Vec::new();
            },
        },
        None => {
            assert((width as int) * (height as int) * 4 > MAX_FRAME_BYTES);
            return Vec::new();
        },
    };
    let pixels = count_bytes / 4;
    let mut buf: Vec<u8> = Vec::with_capacity(count_bytes);
    let mut p: usize = 0;
    while p < pixels
        invariant
            p <= pixels,
            pixels * 4 == count_bytes,
            count_bytes <= MAX_FRAME_BYTES,
            c == trust_color(*trust),
            c == (r, g, b),
            buf@.len() == 4 * p,
            forall|i: int| 0 <= i < buf@.len() ==> #[trigger] buf@[i] == pixel_byte(c, i % 4),
        decreases pixels - p,
    {
        let ghost before = buf@;
        buf.push(b);
        buf.push(g);
        buf.push(r);
        buf.push(0xff);
        assert forall|i: int| 0 <= i < buf@.len() implies #[trigger] buf@[i] == pixel_byte(
            c,
            i % 4,
        ) by {
            if i < before.len() {
                assert(buf@[i] == before[i]);
            } else {
                assert(i - 4 * p < 4);
                assert(i % 4 == i - 4 * p) by (nonlinear_arith)
                    requires
                        4 * p <= i < 4 * p + 4,
                ;
            }
        }
        p = p + 1;
    }
    buf
}

} // verus!
