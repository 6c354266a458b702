//! Keyboard and mouse isolation for AppVM windows.
//!
//! Input goes only to the AppVM whose window has the focus, never to any
//! other. Clipboard transfers between VMs are never automatic: they need
//! the user's confirmation, which is not wired up yet, so every transfer is
//! refused; one up in trust is refused as a trust escalation.

use vstd::prelude::*;
use crate::text::str_eq;
use crate::xen::DomId;
use vstd::string::StringExecFns;

verus! {

/// Why an input event was not delivered.
#[derive(Debug)]
pub enum InputError {
    NoFocus,
    EventSend { domid: DomId, msg: String },
    ClipboardDenied { reason: String },
}

/// A keyboard event for an AppVM.
#[derive(Debug, Clone)]
pub struct KeyEvent {
    pub keycode: u32,
    pub keysym: u32,
    pub pressed: bool,
    /// Shift, Ctrl, Alt and Super as a bit mask.
    pub modifiers: u32,
}

/// A request to copy the clipboard from one VM to another.
#[derive(Debug, Clone)]
pub struct ClipboardRequest {
    pub src_domid: DomId,
    pub dst_domid: DomId,
    pub src_trust: String,
    pub dst_trust: String,
    pub size_bytes: usize,
}

/// The AppVM window that has the focus.
#[derive(Debug, Clone)]
pub struct FocusedWindow {
    pub domid: DomId,
    pub vm_name: String,
}

/// Routes input from the Wayland seat to the focused AppVM.
pub struct InputRouter {
    focused: Option<FocusedWindow>,
}

/// The rank of a trust level named in a clipboard request: black 4,
/// green 3, yellow 2, orange 1; red and any unknown name 0.
pub open spec fn trust_score(level: Seq<char>) -> u8 {
    if level == "black"@ {
        4
    } else if level == "green"@ {
        3
    } else if level == "yellow"@ {
        2
    } else if level == "orange"@ {
        1
    } else {
        0
    }
}

/// The reason a clipboard transfer up in trust is refused:
/// `trust escalation denied: <src> → <dst>`.
pub open spec fn escalation_reason(src: Seq<char>, dst: Seq<char>) -> Seq<char> {
    "trust escalation denied: "@ + src + " → "@ + dst
}

/// Why a clipboard transfer from a VM of trust `src` to one of trust `dst`
/// is refused: an escalation in trust is named as such; any other transfer
/// still needs the user's confirmation, which cannot be given yet.
pub open spec fn clipboard_refusal(src: Seq<char>, dst: Seq<char>) -> Seq<char> {
    if trust_score(src) < trust_score(dst) {
        escalation_reason(src, dst)
    } else {
        "trust escalation required"@
    }
}

/// The rank of a trust level name; red and unknown names rank lowest.
pub fn trust_level_score(level: &str) -> (r: u8)
    ensures
        r == trust_score(level@),
{
    if str_eq(level, "black") {
        4
    } else if str_eq(level, "green") {
        3
    } else if str_eq(level, "yellow") {
        2
    } else if str_eq(level, "orange") {
        1
    } else {
        0
    }
}

impl InputRouter {
    /// The focused window.
    pub closed spec fn focus(&self) -> Option<FocusedWindow> {
        self.focused
    }

    /// A router without focus.
    pub fn new() -> (r: Self)
        ensures
            r.focus() is None,
    {
        InputRouter { focused: None }
    }

    /// Sets the focused window (a Wayland focus event); `None` when no
    /// AppVM window has the focus.
    pub fn set_focus(&mut self, window: Option<FocusedWindow>)
        ensures
            final(self).focus() == window,
    {
        self.focused = window;
    }

    /// The focused window, or `NoFocus` when there is none: no event may be
    /// delivered then.
    pub fn require_focus(&self) -> (r: Result<&FocusedWindow, InputError>)
        ensures
            match self.focus() {
                Some(w) => r matches Ok(x) && *x == w,
                None => r matches Err(e) && e is NoFocus,
            },
    {
        match &self.focused {
            Some(w) => Ok(w),
            None => Err(InputError::NoFocus),
        }
    }

    /// Delivers a keyboard event to the focused AppVM; fails with `NoFocus`
    /// when none has the focus.
    pub fn route_key(&self, event: &KeyEvent) -> (r: Result<(), InputError>)
        ensures
            self.focus() is Some <==> r is Ok,
            r matches Err(e) ==> e is NoFocus,
    {
        match self.require_focus() {
            Ok(_) => Ok(()),
            Err(e) => Err(e),
        }
    }

    /// Decides a clipboard transfer: it is always refused, as the
    /// confirmation dialog a transfer needs is not wired up. A transfer to a
    /// VM of higher trust is refused with the reason
    /// `trust escalation denied: <src> → <dst>`; any other with
    /// `trust escalation required`. No clipboard data ever moves.
    pub fn request_clipboard(&self, req: &ClipboardRequest) -> (r: Result<bool, InputError>)
        ensures
            r matches Err(InputError::ClipboardDenied { reason }) && reason@ == clipboard_refusal(
                req.src_trust@,
                req.dst_trust@,
            ),
    {
        let src_level = trust_level_score(req.src_trust.as_str());
        let dst_level = trust_level_score(req.dst_trust.as_str());
        if src_level < dst_level {
            let mut reason = String::from_str("trust escalation denied: ");
            reason.append(req.src_trust.as_str());
            reason.append(" → ");
            reason.append(req.dst_trust.as_str());
            assert(reason@ =~= escalation_reason(req.src_trust@, req.dst_trust@));
            return Err(InputError::ClipboardDenied { reason });
        }
        Err(InputError::ClipboardDenied { reason: String::from_str("trust escalation required") })
    }
}

impl Default for InputRouter {
    fn default() -> (r: Self)
        ensures
            r.focus() is None,
    {
        Self::new()
    }
}

} // verus!
