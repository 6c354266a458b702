//! AppVM windows on the Wayland compositor: the trust level that colours
//! a window's border, the title the compositor's window rules match, and
//! the geometry of the shared-memory pixel buffer behind a window.
//!
//! The Wayland connection itself lives at the edge.

use vstd::prelude::*;
use crate::interop::io_error_text;
use crate::text::{decimal, push_decimal};
use vstd::string::StringExecFns;

verus! {

/// Why a Wayland operation failed.
#[derive(Debug)]
pub enum WaylandError {
    Connect(String),
    MissingGlobal(&'static str),
    Surface(String),
    Buffer(String),
}

impl vstd::std_specs::convert::FromSpecImpl<std::io::Error> for WaylandError {
    open spec fn obeys_from_spec() -> bool {
        false
    }

    open spec fn from_spec(v: std::io::Error) -> Self {
        WaylandError::MissingGlobal("")
    }
}

impl From<std::io::Error> for WaylandError {
    /// A failed buffer operation: the I/O error's text.
    fn from(e: std::io::Error) -> (r: Self) {
        WaylandError::Buffer(io_error_text(&e))
    }
}

/// The trust level of an AppVM window; it picks the border colour.
#[derive(Debug, Clone, Copy, PartialEq, Eq, Structural)]
pub enum TrustLevel {
    Red,
    Orange,
    Yellow,
    Green,
    Black,
}

/// The tag of a trust level in window titles.
pub open spec fn tag(t: TrustLevel) -> Seq<char> {
    match t {
        TrustLevel::Red => "red"@,
        TrustLevel::Orange => "orange"@,
        TrustLevel::Yellow => "yellow"@,
        TrustLevel::Green => "green"@,
        TrustLevel::Black => "black"@,
    }
}

impl TrustLevel {
    /// The tag of the level: `"red"`, `"orange"`, `"yellow"`, `"green"` or
    /// `"black"`.
    pub fn as_tag(&self) -> (r: &'static str)
        ensures
            r@ == tag(*self),
    {
        match self {
            TrustLevel::Red => "red",
            TrustLevel::Orange => "orange",
            TrustLevel::Yellow => "yellow",
            TrustLevel::Green => "green",
            TrustLevel::Black => "black",
        }
    }
}

/// How an AppVM window is set up.
#[derive(Debug, Clone)]
pub struct SurfaceConfig {
    pub vm_name: String,
    pub trust: TrustLevel,
    pub width: u32,
    pub height: u32,
    pub title: String,
}

/// The window title: `[<trust>] <vm-name>: <title>`.
pub open spec fn window_title(c: SurfaceConfig) -> Seq<char> {
    "["@ + tag(c.trust) + "] "@ + c.vm_name@ + ": "@ + c.title@
}

/// The application ID: `krypt.<vm-name>`.
pub open spec fn window_app_id(c: SurfaceConfig) -> Seq<char> {
    "krypt."@ + c.vm_name@
}

impl SurfaceConfig {
    /// `[<trust>] <vm-name>: <title>`, the title the compositor's window
    /// rules match.
    pub fn krypt_title(&self) -> (r: String)
        ensures
            r@ == window_title(*self),
    {
        let mut out = String::from_str("[");
        out.append(self.trust.as_tag());
        out.append("] ");
        out.append(self.vm_name.as_str());
        out.append(": ");
        out.append(self.title.as_str());
        assert(out@ =~= window_title(*self));
        out
    }

    /// `krypt.<vm-name>`, the application ID of the window.
    pub fn app_id(&self) -> (r: String)
        ensures
            r@ == window_app_id(*self),
    {
        let mut out = String::from_str("krypt.");
        out.append(self.vm_name.as_str());
        out
    }
}

/// The layout of a shared-memory pixel buffer (ARGB8888, 4 bytes a pixel).
#[derive(Debug, Clone, Copy, PartialEq, Eq, Structural)]
pub struct ShmGeometry {
    pub width: u32,
    pub height: u32,
    /// Bytes per row.
    pub stride: u32,
    /// Bytes of the whole buffer.
    pub size: u32,
}

/// The largest value of an `i32`, the integer type of the wire protocol.
pub const WIRE_MAX: u32 = 0x7fff_ffff;

/// Why a buffer of `width` x `height` pixels cannot be made, as the message
/// of `WaylandError::Buffer`; `None` when it can.
pub open spec fn shm_fault(width: u32, height: u32) -> Option<Seq<char>> {
    let stride = 4 * (width as int);
    let size = stride * (height as int);
    if stride > u32::MAX {
        Some("stride overflow: width="@ + decimal(width as nat))
    } else if size > u32::MAX {
        Some("size overflow: "@ + decimal(width as nat) + "x"@ + decimal(height as nat))
    } else if size > WIRE_MAX {
        Some("size > i32::MAX: "@ + decimal(size as nat))
    } else if stride > WIRE_MAX {
        Some("stride > i32::MAX: "@ + decimal(stride as nat))
    } else if width > WIRE_MAX {
        Some("width > i32::MAX: "@ + decimal(width as nat))
    } else if height > WIRE_MAX {
        Some("height > i32::MAX: "@ + decimal(height as nat))
    } else {
        None
    }
}

/// The layout of the pixel buffer of a `width` x `height` window.
///
/// Width and height come from an AppVM and are untrusted: every product is
/// checked, and every size must fit the wire protocol's `i32`, so that a
/// huge width can never yield a tiny buffer that later writes overflow.
pub fn shm_geometry(width: u32, height: u32) -> (r: Result<ShmGeometry, WaylandError>)
    ensures
        shm_fault(width, height) is None <==> r is Ok,
        r matches Ok(g) ==> g.width == width && g.height == height && g.stride == 4 * width
            && g.size == 4 * width * height,
        r matches Err(e) ==> (e matches WaylandError::Buffer(m) && shm_fault(width, height)
            == Some(m@)),
{
    assert(4 * (width as int) * (height as int) == (4 * (width as int)) * (height as int))
        by (nonlinear_arith);
    let stride = match width.checked_mul(4) {
        Some(s) => s,
        None => {
            let mut m = String::from_str("stride overflow: width=");
            push_decimal(&mut m, width as u64);
            return Err(WaylandError::Buffer(m));
        },
    };
    let size = match stride.checked_mul(height) {
        Some(s) => s,
        None => {
            let mut m = String::from_str("size overflow: ");
            push_decimal(&mut m, width as u64);
            m.append("x");
            push_decimal(&mut m, height as u64);
            assert(m@ =~= "size overflow: "@ + decimal(width as nat) + "x"@ + decimal(
                height as nat,
            ));
            return Err(WaylandError::Buffer(m));
        },
    };
    if size > WIRE_MAX {
        let mut m = String::from_str("size > i32::MAX: ");
        push_decimal(&mut m, size as u64);
        return Err(WaylandError::Buffer(m));
    }
    if stride > WIRE_MAX {
        let mut m = String::from_str("stride > i32::MAX: ");
        push_decimal(&mut m, stride as u64);
        return Err(WaylandError::Buffer(m));
    }
    if width > WIRE_MAX {
        let mut m = String::from_str("width > i32::MAX: ");
        push_decimal(&mut m, width as u64);
        return Err(WaylandError::Buffer(m));
    }
    if height > WIRE_MAX {
        let mut m = String::from_str("height > i32::MAX: ");
        push_decimal(&mut m, height as u64);
        return Err(WaylandError::Buffer(m));
    }
    Ok(ShmGeometry { width, height, stride, size })
}

/// Which of the globals a window needs the compositor failed to advertise,
/// in the order they are checked.
pub open spec fn missing_global(has_compositor: bool, has_xdg_wm_base: bool, has_shm: bool) -> Option<
    Seq<char>,
> {
    if !has_compositor {
        Some("wl_compositor"@)
    } else if !has_xdg_wm_base {
        Some("xdg_wm_base"@)
    } else if !has_shm {
        Some("wl_shm"@)
    } else {
        None
    }
}

/// Refuses a compositor connection that lacks `wl_compositor`,
/// `xdg_wm_base` or `wl_shm`, naming the first one missing.
pub fn check_globals(has_compositor: bool, has_xdg_wm_base: bool, has_shm: bool) -> (r: Result<
    (),
    WaylandError,
>)
    ensures
        missing_global(has_compositor, has_xdg_wm_base, has_shm) is None <==> r is Ok,
        r matches Err(e) ==> (e matches WaylandError::MissingGlobal(g) && missing_global(
            has_compositor,
            has_xdg_wm_base,
            has_shm,
        ) == Some(g@)),
{
    if !has_compositor {
        return Err(WaylandError::MissingGlobal("wl_compositor"));
    }
    if !has_xdg_wm_base {
        return Err(WaylandError::MissingGlobal("xdg_wm_base"));
    }
    if !has_shm {
        return Err(WaylandError::MissingGlobal("wl_shm"));
    }
    Ok(())
}

} // verus!
