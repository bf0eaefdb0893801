//! The evergreen-engine path: DPI scaling, UTF-16 window text, the
//! construction state machine for a native window hosting the evergreen
//! controller, the live handle, and the window-procedure dispatch with its
//! trampoline slot.
//!
//! The host performs the native calls (class registration, window creation,
//! the asynchronous environment and controller creation, the controller's
//! setters) and reports each outcome here; these machines decide what
//! follows and make misuse of the handles unrepresentable.

use vstd::prelude::*;

use crate::Content;
use crate::WVError;
use crate::classify_content;
use crate::content_is;

verus! {

// ---------------------------------------------------------------------------
// DPI-scaled dimensions.
// ---------------------------------------------------------------------------

/// Scales a window dimension from the default 96-dots-per-inch space to the
/// monitor's, rounding to the nearest pixel as the platform's scaling
/// arithmetic does.
pub fn scale_for_dpi(dim: i32, dpi: i32) -> (r: i32)
    requires
        0 <= dim,
        0 <= dpi,
        dim * dpi + 48 <= i32::MAX,
    ensures
        r == (dim * dpi + 48) / 96,
{
    (dim * dpi + 48) / 96
}

// ---------------------------------------------------------------------------
// UTF-16 window text.
//
// The native wide-character calls take UTF-16 text with a terminating zero
// unit. A character below 0x10000 is one unit; any other is a surrogate
// pair.
// ---------------------------------------------------------------------------

/// The UTF-16 code units of one character.
pub open spec fn utf16_units(c: char) -> Seq<u16> {
    let v = c as u32;
    if v < 0x10000 {
        seq![v as u16]
    } else {
        seq![
            (0xD800 + (v - 0x10000) / 0x400) as u16,
            (0xDC00 + (v - 0x10000) % 0x400) as u16,
        ]
    }
}

/// The UTF-16 encoding of a character sequence.
pub open spec fn utf16_encode(s: Seq<char>) -> Seq<u16>
    decreases s.len(),
{
    if s.len() == 0 {
        Seq::empty()
    } else {
        utf16_encode(s.drop_last()) + utf16_units(s.last())
    }
}

/// Encodes the text as UTF-16 and appends the terminating zero unit.
pub fn utf_16_null_terminiated(x: &str) -> (r: Vec<u16>)
    ensures
        r@ == utf16_encode(x@).push(0u16),
{
    let n = x.unicode_len();
    let mut v: Vec<u16> = Vec::new();
    let mut i: usize = 0;
    while i < n
        invariant
            n == x@.len(),
            i <= n,
            v@ == utf16_encode(x@.take(i as int)),
        decreases n - i,
    {
        let c = x.get_char(i);
        let code = c as u32;
        if code < 0x10000 {
            v.push(code as u16);
        } else {
            let rest = code - 0x10000;
            v.push((0xD800 + rest / 0x400) as u16);
            v.push((0xDC00 + rest % 0x400) as u16);
        }
        proof {
            let t = x@.take(i + 1 as int);
            assert(t.drop_last() =~= x@.take(i as int));
            assert(t.last() == x@[i as int]);
            assert(v@ =~= utf16_encode(x@.take(i + 1 as int)));
        }
        i += 1;
    }
    proof {
        assert(x@.take(n as int) =~= x@);
    }
    v.push(0);
    v
}

// ---------------------------------------------------------------------------
// Construction of the evergreen window and controller.
// ---------------------------------------------------------------------------

/// The configuration the evergreen path takes from the builder.
pub struct Wv2Config {
    pub title: String,
    pub url: String,
    pub width: i32,
    pub height: i32,
    pub resizable: bool,
}

/// Where the evergreen construction stands. Each phase names the native
/// call whose outcome the host reports next; the order — class, then
/// window, then controller, then navigation — is forced by the
/// preconditions of the transitions.
pub enum Wv2Phase {
    /// Register the window class and report through
    /// [`Wv2Session::on_class_registered`].
    RegisterClass,
    /// Create and show the window, DPI-scaled, and report its handle
    /// through [`Wv2Session::on_window_created`].
    CreateWindow,
    /// The window is up; the asynchronous environment and controller
    /// creation is outstanding. Report through
    /// [`Wv2Session::on_controller`].
    AwaitController { hwnd: u64 },
    /// The controller is populated and the configured content was handed
    /// out for navigation; [`Wv2Session::finish`] yields the handle.
    Ready { hwnd: u64 },
    /// Construction failed; [`Wv2Session::finish`] yields the error.
    Failed { error: WVError },
}

/// One construction of an evergreen window, from class registration to a
/// live [`WebView2`] handle or an error.
pub struct Wv2Session {
    pub config: Wv2Config,
    pub phase: Wv2Phase,
}

impl Wv2Session {
    /// Begins a construction; the first step is registering the class.
    pub fn start(config: Wv2Config) -> (s: Self)
        ensures
            s.config == config,
            s.phase is RegisterClass,
    {
        Wv2Session { config, phase: Wv2Phase::RegisterClass }
    }

    /// Reports whether the window class was registered. Failure here is
    /// fatal for the construction.
    pub fn on_class_registered(&mut self, ok: bool)
        requires
            old(self).phase is RegisterClass,
        ensures
            final(self).config == old(self).config,
            ok ==> final(self).phase is CreateWindow,
            !ok ==> final(self).phase == (Wv2Phase::Failed {
                error: WVError::WindowClassRegistrationFailed,
            }),
    {
        if ok {
            self.phase = Wv2Phase::CreateWindow;
        } else {
            self.phase = Wv2Phase::Failed { error: WVError::WindowClassRegistrationFailed };
        }
    }

    /// Reports the created window's handle, zero for none. Only a created
    /// window moves the construction onward to the controller.
    pub fn on_window_created(&mut self, hwnd: u64)
        requires
            old(self).phase is CreateWindow,
        ensures
            final(self).config == old(self).config,
            hwnd == 0 ==> final(self).phase == (Wv2Phase::Failed {
                error: WVError::WindowCreationFailed,
            }),
            hwnd != 0 ==> final(self).phase == (Wv2Phase::AwaitController { hwnd }),
    {
        if hwnd == 0 {
            self.phase = Wv2Phase::Failed { error: WVError::WindowCreationFailed };
        } else {
            self.phase = Wv2Phase::AwaitController { hwnd };
        }
    }

    /// Reports whether the asynchronous environment and controller creation
    /// succeeded. On success the configured content comes back, classified,
    /// for the host to navigate the fresh controller's webview to; on
    /// failure the construction is over and nothing is navigated.
    pub fn on_controller(&mut self, ok: bool) -> (nav: Option<Content>)
        requires
            old(self).phase is AwaitController,
        ensures
            final(self).config == old(self).config,
            !ok ==> final(self).phase == (Wv2Phase::Failed {
                error: WVError::EnvironmentOrControllerCreationFailed,
            }) && nav is None,
            ok ==> (old(self).phase matches Wv2Phase::AwaitController { hwnd }
                ==> final(self).phase == (Wv2Phase::Ready { hwnd })),
            ok ==> (nav matches Some(c) && content_is(c, old(self).config.url@)),
    {
        if !ok {
            self.phase = Wv2Phase::Failed { error: WVError::EnvironmentOrControllerCreationFailed };
            return None;
        }
        let hwnd = match &self.phase {
            Wv2Phase::AwaitController { hwnd } => *hwnd,
            _ => 0,  // unreachable under the precondition
        };
        self.phase = Wv2Phase::Ready { hwnd };
        Some(classify_content(self.config.url.clone()))
    }

    /// Ends the construction: the live handle of a ready session, the error
    /// of a failed one.
    pub fn finish(self) -> (r: Result<WebView2, WVError>)
        requires
            self.phase is Ready || self.phase is Failed,
        ensures
            self.phase matches Wv2Phase::Ready { hwnd } ==> r matches Ok(w) && w == (WebView2 {
                hwnd: Some(hwnd),
                controller_ready: true,
            }),
            self.phase matches Wv2Phase::Failed { error } ==> r == Err::<WebView2, WVError>(error),
    {
        match self.phase {
            Wv2Phase::Ready { hwnd } => Ok(WebView2 { hwnd: Some(hwnd), controller_ready: true }),
            Wv2Phase::Failed { error } => Err(error),
            _ => Err(WVError::WindowCreationFailed),  // unreachable under the precondition
        }
    }
}

// ---------------------------------------------------------------------------
// The live evergreen handle.
// ---------------------------------------------------------------------------

/// A live evergreen webview: the native window it owns, if not yet
/// destroyed, and whether the asynchronously created controller has been
/// populated.
#[derive(Debug, Clone, Copy, PartialEq, Eq)]
pub struct WebView2 {
    /// The native window, `None` once destroyed.
    pub hwnd: Option<u64>,
    /// Whether the controller cell is populated; operations that reach the
    /// controller demand it.
    pub controller_ready: bool,
}

/// The window [`WebView2::exit`] tells the host to destroy: the one still
/// held, destroyed at most once.
pub open spec fn exit_destroys(w: WebView2) -> Option<u64> {
    w.hwnd
}

/// The handle after [`WebView2::exit`]: the window is gone.
pub open spec fn after_exit(w: WebView2) -> WebView2 {
    WebView2 { hwnd: None, ..w }
}

impl WebView2 {
    /// One tick of the caller's message loop. The evergreen engine pumps
    /// messages externally, so there is nothing to advance here.
    pub fn step(&mut self)
        ensures
            *final(self) == *old(self),
    {
    }

    /// Releases the native window: returns the handle the host must
    /// destroy, `None` when a call already destroyed it. Idempotent — a
    /// second call destroys nothing.
    pub fn exit(&mut self) -> (destroy: Option<u64>)
        ensures
            destroy == exit_destroys(*old(self)),
            *final(self) == after_exit(*old(self)),
    {
        let h = self.hwnd;
        self.hwnd = None;
        h
    }

    /// Classifies a navigation target for the host to forward to the
    /// controller's webview. Must not be called before the controller is
    /// populated: that is this layer's documented precondition.
    pub fn navigate(&self, url: String) -> (c: Content)
        requires
            self.controller_ready,
        ensures
            content_is(c, url@),
    {
        classify_content(url)
    }
}

/// Law: destruction happens exactly once. The first exit hands out the held
/// window; after it the handle holds none, and a second exit hands out
/// nothing and changes nothing.
pub proof fn lemma_exit_idempotent(w: WebView2)
    ensures
        exit_destroys(after_exit(w)) is None,
        after_exit(after_exit(w)) == after_exit(w),
{
}

// ---------------------------------------------------------------------------
// Window-procedure dispatch.
//
// The native window procedure cannot carry a closure, so the closure sits
// boxed in a process-wide trampoline slot. The dispatch below is what that
// closure decides per message; the slot model makes running it after the
// destroy message freed it structurally impossible.
// ---------------------------------------------------------------------------

/// The rectangle the platform suggests on a DPI change.
#[derive(Debug, Clone, Copy, PartialEq, Eq)]
pub struct SuggestedRect {
    pub left: i32,
    pub top: i32,
    pub right: i32,
    pub bottom: i32,
}

/// A rectangle whose edges are ordered and whose extents fit the native
/// signed 32-bit coordinates.
pub open spec fn rect_wf(r: SuggestedRect) -> bool {
    &&& r.left <= r.right
    &&& r.top <= r.bottom
    &&& r.right - r.left <= i32::MAX
    &&& r.bottom - r.top <= i32::MAX
}

/// Exec decision of [`rect_wf`], for a host to test a rectangle before
/// handing it to the dispatcher.
pub fn rect_is_wf(r: &SuggestedRect) -> (b: bool)
    ensures
        b == rect_wf(*r),
{
    r.left <= r.right && r.top <= r.bottom && (r.right as i64) - (r.left as i64) <= i32::MAX as i64
        && (r.bottom as i64) - (r.top as i64) <= i32::MAX as i64
}

/// The window messages this layer reacts to; everything else is `Other`.
#[derive(Debug, Clone, Copy, PartialEq, Eq)]
pub enum WindowMessage {
    /// The window was resized.
    Size,
    /// The window was moved.
    Move,
    /// The minimize system command.
    Minimize,
    /// The restore system command.
    Restore,
    /// The monitor's scale changed; the platform suggests new bounds.
    DpiChanged(SuggestedRect),
    /// The window is being destroyed.
    Destroy,
    /// Any other message.
    Other,
}

/// What the host must do to the controller for one message.
#[derive(Debug, Clone, Copy, PartialEq, Eq)]
pub enum ControllerAction {
    /// Set the controller's bounds to the window's client rectangle.
    PutBounds,
    /// Tell the controller the window moved.
    NotifyMoved,
    /// Show or hide the controller's rendering.
    SetVisible(bool),
    /// Move the window itself to the suggested position and size.
    Reposition { x: i32, y: i32, width: i32, height: i32 },
}

/// One message's decision: the controller action, if any, and whether the
/// message still goes to the platform's default handler.
#[derive(Debug, Clone, Copy, PartialEq, Eq)]
pub struct MessageOutcome {
    pub action: Option<ControllerAction>,
    pub pass_default: bool,
}

/// The decision for one message. `ready` is whether the controller cell is
/// populated: until then every controller action is a safe no-op, which is
/// deliberate policy, not error suppression.
pub open spec fn message_outcome_spec(ready: bool, m: WindowMessage) -> MessageOutcome {
    match m {
        WindowMessage::Size => MessageOutcome {
            action: if ready {
                Some(ControllerAction::PutBounds)
            } else {
                None
            },
            pass_default: false,
        },
        WindowMessage::Move => MessageOutcome {
            action: if ready {
                Some(ControllerAction::NotifyMoved)
            } else {
                None
            },
            pass_default: false,
        },
        WindowMessage::Minimize => MessageOutcome {
            action: if ready {
                Some(ControllerAction::SetVisible(false))
            } else {
                None
            },
            pass_default: true,
        },
        WindowMessage::Restore => MessageOutcome {
            action: if ready {
                Some(ControllerAction::SetVisible(true))
            } else {
                None
            },
            pass_default: true,
        },
        WindowMessage::DpiChanged(r) => MessageOutcome {
            action: Some(
                ControllerAction::Reposition {
                    x: r.left,
                    y: r.top,
                    width: (r.right - r.left) as i32,
                    height: (r.bottom - r.top) as i32,
                },
            ),
            pass_default: false,
        },
        WindowMessage::Destroy => MessageOutcome { action: None, pass_default: true },
        WindowMessage::Other => MessageOutcome { action: None, pass_default: true },
    }
}

/// Exec decision of [`message_outcome_spec`].
pub fn handle_message(ready: bool, m: &WindowMessage) -> (r: MessageOutcome)
    requires
        *m matches WindowMessage::DpiChanged(rect) ==> rect_wf(rect),
    ensures
        r == message_outcome_spec(ready, *m),
{
    match m {
        WindowMessage::Size => MessageOutcome {
            action: if ready {
                Some(ControllerAction::PutBounds)
            } else {
                None
            },
            pass_default: false,
        },
        WindowMessage::Move => MessageOutcome {
            action: if ready {
                Some(ControllerAction::NotifyMoved)
            } else {
                None
            },
            pass_default: false,
        },
        WindowMessage::Minimize => MessageOutcome {
            action: if ready {
                Some(ControllerAction::SetVisible(false))
            } else {
                None
            },
            pass_default: true,
        },
        WindowMessage::Restore => MessageOutcome {
            action: if ready {
                Some(ControllerAction::SetVisible(true))
            } else {
                None
            },
            pass_default: true,
        },
        WindowMessage::DpiChanged(r) => MessageOutcome {
            action: Some(
                ControllerAction::Reposition {
                    x: r.left,
                    y: r.top,
                    width: r.right - r.left,
                    height: r.bottom - r.top,
                },
            ),
            pass_default: false,
        },
        WindowMessage::Destroy => MessageOutcome { action: None, pass_default: true },
        WindowMessage::Other => MessageOutcome { action: None, pass_default: true },
    }
}

/// Law: before the controller is populated no message reaches it. The only
/// action ever asked for is the DPI reposition, which moves the window
/// itself; toward the controller every decision is a safe no-op.
pub proof fn lemma_not_ready_no_ops(m: WindowMessage)
    ensures
        message_outcome_spec(false, m).action matches Some(a) ==> a is Reposition,
        !(m is DpiChanged) ==> message_outcome_spec(false, m).action is None,
{
}

// ---------------------------------------------------------------------------
// The trampoline slot.
// ---------------------------------------------------------------------------

/// Whether the process-wide slot still holds the boxed closure.
#[derive(Debug, Clone, Copy, PartialEq, Eq)]
pub enum SlotState {
    /// The boxed closure is installed and runs per message.
    Occupied,
    /// The closure was deallocated by the destroy message; only the
    /// default handler remains.
    Freed,
}

/// The process-wide trampoline slot: the one place the boxed
/// window-procedure closure lives between installation and the destroy
/// message. At most one is active in the process.
pub struct TrampolineSlot {
    pub state: SlotState,
}

/// What one trampoline invocation did.
#[derive(Debug, Clone, Copy, PartialEq, Eq)]
pub struct DispatchOutcome {
    /// The closure ran for this message.
    pub invoked: bool,
    /// The boxed closure was deallocated by this invocation.
    pub freed: bool,
    /// Process exit must be signalled after this invocation.
    pub signal_quit: bool,
    /// The decision handed back to the window procedure.
    pub outcome: MessageOutcome,
}

/// Whether an invocation in state `s` runs the closure.
pub open spec fn dispatch_invokes(s: SlotState, m: WindowMessage) -> bool {
    s is Occupied
}

/// Whether an invocation in state `s` deallocates the closure: only the
/// destroy message does, and only while the closure is still there.
pub open spec fn dispatch_frees(s: SlotState, m: WindowMessage) -> bool {
    s is Occupied && m is Destroy
}

/// The slot's state after one invocation.
pub open spec fn slot_after_dispatch(s: SlotState, m: WindowMessage) -> SlotState {
    if dispatch_frees(s, m) {
        SlotState::Freed
    } else {
        s
    }
}

/// The decision one invocation hands back: the closure's while it is
/// installed, the bare default handler after it was freed.
pub open spec fn dispatch_outcome_spec(s: SlotState, ready: bool, m: WindowMessage) -> MessageOutcome {
    if s is Occupied {
        message_outcome_spec(ready, m)
    } else {
        MessageOutcome { action: None, pass_default: true }
    }
}

impl TrampolineSlot {
    /// Installs the boxed closure in the slot.
    pub fn install() -> (t: Self)
        ensures
            t.state is Occupied,
    {
        TrampolineSlot { state: SlotState::Occupied }
    }

    /// One invocation of the trampoline for one message. While the slot is
    /// occupied the closure decides; the destroy message additionally
    /// deallocates the closure and signals process exit. Once freed, the
    /// slot never runs nor frees the closure again.
    pub fn dispatch(&mut self, controller_ready: bool, m: &WindowMessage) -> (r: DispatchOutcome)
        requires
            *m matches WindowMessage::DpiChanged(rect) ==> rect_wf(rect),
        ensures
            final(self).state == slot_after_dispatch(old(self).state, *m),
            r.invoked == dispatch_invokes(old(self).state, *m),
            r.freed == dispatch_frees(old(self).state, *m),
            r.signal_quit == r.freed,
            r.outcome == dispatch_outcome_spec(old(self).state, controller_ready, *m),
    {
        match self.state {
            SlotState::Occupied => {
                let outcome = handle_message(controller_ready, m);
                let freeing = matches!(m, WindowMessage::Destroy);
                if freeing {
                    self.state = SlotState::Freed;
                }
                DispatchOutcome { invoked: true, freed: freeing, signal_quit: freeing, outcome }
            },
            SlotState::Freed => DispatchOutcome {
                invoked: false,
                freed: false,
                signal_quit: false,
                outcome: MessageOutcome { action: None, pass_default: true },
            },
        }
    }
}

/// Law: after the destroy message the slot stands freed, and no later
/// invocation — whatever its message — runs the closure or frees it again.
/// Use after free is unrepresentable, not merely untested.
pub proof fn lemma_no_use_after_free(s: SlotState, later: WindowMessage)
    ensures
        slot_after_dispatch(s, WindowMessage::Destroy) is Freed,
        !dispatch_invokes(slot_after_dispatch(s, WindowMessage::Destroy), later),
        !dispatch_frees(slot_after_dispatch(s, WindowMessage::Destroy), later),
{
}

} // verus!
