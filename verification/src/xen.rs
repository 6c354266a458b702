//! The Xen side of the GUI: the framebuffer metadata an AppVM publishes and
//! the pacing of frame updates.
//!
//! Grant-table mapping and event channels are not wired up yet: a mapped
//! buffer holds no pixels, and `poll_dirty_regions` reports a full frame
//! at most every 16 ms per domain, so that windows refresh at 60 fps.

use vstd::prelude::*;
use std::collections::HashMap;
use std::time::{Duration, Instant};

verus! {

broadcast use vstd::std_specs::hash::group_hash_axioms;

/// Why a Xen operation failed.
#[derive(Debug)]
pub enum XenError {
    Xenstore(String),
    GrantMap { domid: u32, gref: u32, msg: String },
    EventChannel(String),
    Disconnected(u32),
}

/// The Xen domain ID of an AppVM.
pub type DomId = u32;

/// A grant reference: a shared memory page.
pub type GrantRef = u32;

/// The pixel format of an AppVM framebuffer.
#[derive(Debug, Clone, Copy, PartialEq, Eq, Structural)]
pub enum PixelFormat {
    Argb32,
    Xrgb32,
}

/// A changed region of the screen.
#[derive(Debug, Clone, Copy, PartialEq, Eq, Structural)]
pub struct DirtyRect {
    pub x: u32,
    pub y: u32,
    pub width: u32,
    pub height: u32,
}

impl DirtyRect {
    /// The whole surface.
    pub fn full(width: u32, height: u32) -> (r: Self)
        ensures
            r == (DirtyRect { x: 0, y: 0, width, height }),
    {
        DirtyRect { x: 0, y: 0, width, height }
    }
}

/// What an AppVM publishes about its framebuffer via XenStore.
#[derive(Debug, Clone)]
pub struct GuestMetadata {
    pub domid: DomId,
    pub vm_name: String,
    pub grant_refs: Vec<GrantRef>,
    pub width: u32,
    pub height: u32,
    pub pixel_format: PixelFormat,
}

/// The shared framebuffer of an AppVM.
pub struct SharedBuffer {
    pub meta: GuestMetadata,
}

impl SharedBuffer {
    /// The framebuffer content; empty until grant pages are mapped.
    pub fn pixels(&self) -> (r: &[u8])
        ensures
            r@.len() == 0,
    {
        &[]
    }

    /// The width in pixels.
    pub fn width(&self) -> (r: u32)
        ensures
            r == self.meta.width,
    {
        self.meta.width
    }

    /// The height in pixels.
    pub fn height(&self) -> (r: u32)
        ensures
            r == self.meta.height,
    {
        self.meta.height
    }

    /// The bytes of one row, 4 a pixel.
    pub fn stride(&self) -> (r: u32)
        requires
            4 * self.meta.width <= u32::MAX,
        ensures
            r == 4 * self.meta.width,
    {
        self.meta.width * 4
    }
}

/// The frame interval: 16 ms (about 60 fps), in nanoseconds.
pub const FRAME_INTERVAL_NANOS: u64 = 16_000_000;

/// How long the frame loop sleeps after a frame that took `elapsed`
/// nanoseconds: what is left of the frame interval, and nothing after an
/// overrun.
pub fn frame_sleep_nanos(elapsed: u64) -> (r: u64)
    ensures
        elapsed < FRAME_INTERVAL_NANOS ==> r == FRAME_INTERVAL_NANOS - elapsed,
        elapsed >= FRAME_INTERVAL_NANOS ==> r == 0,
{
    if elapsed < FRAME_INTERVAL_NANOS {
        FRAME_INTERVAL_NANOS - elapsed
    } else {
        0
    }
}

/// `std::time::Instant::now`.
///
/// Nothing is claimed of the instant: it is the clock's reading.
#[verifier::external_body]
fn instant_now() -> Instant {
    Instant::now()
}

/// `std::time::Instant::elapsed`: the time since `origin`.
///
/// Nothing is claimed of the duration: it depends on the clock.
#[verifier::external_body]
fn elapsed_since(origin: &Instant) -> Duration {
    origin.elapsed()
}

/// `std::time::Duration::as_nanos`.
///
/// Nothing is claimed of the count, as the duration is opaque here.
#[verifier::external_body]
fn duration_nanos(d: &Duration) -> u128 {
    d.as_nanos()
}

/// Whether a frame of a domain is due at `now`, given when its last one
/// was (if any): at least one frame interval must have passed.
pub open spec fn frame_due(last: Option<u64>, now: u64) -> bool {
    match last {
        None => true,
        Some(t) => now >= t + FRAME_INTERVAL_NANOS,
    }
}

/// The connection to XenStore and the grant table, with the time of the
/// last frame of each domain.
pub struct XenInterface {
    origin: Instant,
    frame_times: HashMap<DomId, u64>,
}

impl XenInterface {
    /// The time of the last frame of each domain, in nanoseconds since the
    /// interface was opened.
    pub closed spec fn frame_times(&self) -> Map<DomId, u64> {
        self.frame_times@
    }

    /// Opens the interface; no frame has been sent yet.
    pub fn open() -> (r: Result<Self, XenError>)
        ensures
            r matches Ok(x) && x.frame_times() == Map::<DomId, u64>::empty(),
    {
        Ok(XenInterface { origin: instant_now(), frame_times: HashMap::new() })
    }

    /// The last frame time of `domid`, if it had a frame.
    fn last_frame(&self, domid: DomId) -> (r: Option<u64>)
        ensures
            r == (if self.frame_times().contains_key(domid) {
                Some(self.frame_times()[domid])
            } else {
                None
            }),
    {
        match self.frame_times.get(&domid) {
            Some(t) => Some(*t),
            None => None,
        }
    }

    /// The dirty regions of `domid` at the time `now` (nanoseconds since the
    /// interface was opened): the whole surface when a frame is due, which
    /// is then recorded as sent; nothing otherwise. The first poll of a
    /// domain always yields a frame, so that its window appears at once.
    pub fn poll_dirty_regions_at(&mut self, domid: DomId, now: u64) -> (r: Vec<DirtyRect>)
        ensures
            ({
                let last = if old(self).frame_times().contains_key(domid) {
                    Some(old(self).frame_times()[domid])
                } else {
                    None
                };
                if frame_due(last, now) {
                    &&& r@ == seq![DirtyRect { x: 0, y: 0, width: u32::MAX, height: u32::MAX }]
                    &&& final(self).frame_times() == old(self).frame_times().insert(domid, now)
                } else {
                    &&& r@.len() == 0
                    &&& final(self).frame_times() == old(self).frame_times()
                }
            }),
    {
        let due = match self.last_frame(domid) {
            None => true,
            Some(t) => now >= t && now - t >= FRAME_INTERVAL_NANOS,
        };
        if due {
            self.frame_times.insert(domid, now);
            let mut r: Vec<DirtyRect> = Vec::new();
            r.push(DirtyRect::full(u32::MAX, u32::MAX));
            assert(r@ =~= seq![DirtyRect { x: 0, y: 0, width: u32::MAX, height: u32::MAX }]);
            r
        } else {
            Vec::new()
        }
    }

    /// The dirty regions of `domid` now: a full frame at most every 16 ms.
    ///
    /// What holds of every clock reading is stated by
    /// `poll_dirty_regions_at`; here the reading itself is unknown.
    pub fn poll_dirty_regions(&mut self, domid: DomId) -> (r: Vec<DirtyRect>)
        ensures
            r@.len() <= 1,
            r@.len() == 1 ==> r@[0] == (DirtyRect { x: 0, y: 0, width: u32::MAX, height: u32::MAX }),
            !old(self).frame_times().contains_key(domid) ==> r@.len() == 1,
            r@.len() == 0 ==> final(self).frame_times() == old(self).frame_times(),
            r@.len() == 1 ==> final(self).frame_times().dom() == old(self).frame_times().dom().insert(
                domid,
            ),
    {
        let d = elapsed_since(&self.origin);
        let n = duration_nanos(&d);
        let now: u64 = if n > u64::MAX as u128 {
            u64::MAX
        } else {
            n as u64
        };
        let r = self.poll_dirty_regions_at(domid, now);
        assert(final(self).frame_times().dom() =~= old(self).frame_times().dom().insert(domid)
            || r@.len() == 0);
        r
    }

    /// The current pixels of `domid` in the dirty regions; empty until
    /// grant pages are mapped, and the caller draws a placeholder.
    pub fn read_pixels(&self, domid: DomId, dirty: &[DirtyRect]) -> (r: Vec<u8>)
        ensures
            r@.len() == 0,
    {
        Vec::new()
    }
}

} // verus!
