//! Window state and event dispatch.
//!
//! The event source hands over a queue of window events each frame. Dispatch
//! is a pure mapping: a framebuffer resize updates the stored size and asks
//! for a viewport call, pressing Escape marks the window for closing, and
//! every other event does nothing.

use vstd::prelude::*;

verus! {

/// The keys the demo tells apart. Every key but Escape is `OtherKey`.
#[derive(PartialEq, Eq, Structural, Clone, Copy, Debug)]
pub enum KeyCode {
    /// The Escape key, which closes the window.
    Escape,
    /// Any other key.
    OtherKey,
}

/// What happened to a key.
#[derive(PartialEq, Eq, Structural, Clone, Copy, Debug)]
pub enum KeyAction {
    /// The key went down.
    Press,
    /// The key came up.
    Release,
    /// The key is held down and repeating.
    Repeat,
}

/// One event from the window's queue.
#[derive(PartialEq, Eq, Structural, Clone, Copy, Debug)]
pub enum WindowEvent {
    /// The framebuffer was resized to this many pixels.
    FramebufferSize { width: i32, height: i32 },
    /// A key changed state.
    Key { key: KeyCode, action: KeyAction },
    /// Any event the demo does not react to.
    OtherEvent,
}

/// What the shell must do for one dispatched event.
#[derive(PartialEq, Eq, Structural, Clone, Copy, Debug)]
pub enum EventEffect {
    /// Map the output to the pixel rectangle at (x, y) of the given size.
    SetViewport { x: i32, y: i32, width: i32, height: i32 },
    /// Nothing to do.
    NoEffect,
}

/// The window's stored size and its close flag.
#[derive(PartialEq, Eq, Structural, Clone, Copy, Debug)]
pub struct WindowState {
    /// Stored width in pixels.
    pub width: u32,
    /// Stored height in pixels.
    pub height: u32,
    /// True once the window should close; the main loop stops on it.
    pub should_close: bool,
}

/// The state after dispatching one event: a resize stores the new size (cast
/// to unsigned as the event carries signed pixels), Escape pressed sets the
/// close flag, and everything else leaves the state alone.
pub open spec fn spec_dispatch_state(s: WindowState, e: WindowEvent) -> WindowState {
    match e {
        WindowEvent::FramebufferSize { width, height } => WindowState {
            width: width as u32,
            height: height as u32,
            should_close: s.should_close,
        },
        WindowEvent::Key { key: KeyCode::Escape, action: KeyAction::Press } => WindowState {
            should_close: true,
            ..s
        },
        _ => s,
    }
}

/// The effect of one event: only a resize asks the shell for anything, a
/// viewport call with the event's exact bounds.
pub open spec fn spec_dispatch_effect(s: WindowState, e: WindowEvent) -> EventEffect {
    match e {
        WindowEvent::FramebufferSize { width, height } => EventEffect::SetViewport {
            x: 0,
            y: 0,
            width: width,
            height: height,
        },
        _ => EventEffect::NoEffect,
    }
}

/// The state after dispatching a whole queue in arrival order.
pub open spec fn spec_dispatch_all(s: WindowState, evs: Seq<WindowEvent>) -> WindowState
    decreases evs.len(),
{
    if evs.len() == 0 {
        s
    } else {
        spec_dispatch_state(spec_dispatch_all(s, evs.drop_last()), evs.last())
    }
}

impl WindowState {
    /// A fresh window state: the given size, not closing.
    pub fn new(width: u32, height: u32) -> (s: WindowState)
        ensures
            s == (WindowState { width, height, should_close: false }),
    {
        WindowState { width, height, should_close: false }
    }

    /// Dispatch one event, returning what the shell must do for it.
    pub fn dispatch(&mut self, e: WindowEvent) -> (eff: EventEffect)
        ensures
            *final(self) == spec_dispatch_state(*old(self), e),
            eff == spec_dispatch_effect(*old(self), e),
    {
        match e {
            WindowEvent::FramebufferSize { width, height } => {
                self.width = width as u32;
                self.height = height as u32;
                EventEffect::SetViewport { x: 0, y: 0, width, height }
            },
            WindowEvent::Key { key: KeyCode::Escape, action: KeyAction::Press } => {
                self.should_close = true;
                EventEffect::NoEffect
            },
            _ => EventEffect::NoEffect,
        }
    }

    /// Dispatch a queue of events in arrival order, returning the shell's
    /// work for each event, in the same order.
    pub fn dispatch_all(&mut self, evs: &Vec<WindowEvent>) -> (effs: Vec<EventEffect>)
        ensures
            *final(self) == spec_dispatch_all(*old(self), evs@),
            effs@.len() == evs@.len(),
            forall|i: int| 0 <= i < evs@.len() ==> effs@[i] == spec_dispatch_effect(
                spec_dispatch_all(*old(self), evs@.take(i)),
                evs@[i],
            ),
    {
        let ghost s0 = *self;
        let mut effs: Vec<EventEffect> = Vec::new();
        let mut i: usize = 0;
        while i < evs.len()
            invariant
                0 <= i <= evs@.len(),
                *self == spec_dispatch_all(s0, evs@.take(i as int)),
                effs@.len() == i,
                forall|j: int| 0 <= j < i ==> effs@[j] == spec_dispatch_effect(
                    spec_dispatch_all(s0, evs@.take(j)),
                    evs@[j],
                ),
            decreases evs@.len() - i,
        {
            let e = evs[i];
            let eff = self.dispatch(e);
            effs.push(eff);
            proof {
                assert(evs@.take(i + 1).drop_last() =~= evs@.take(i as int));
                assert(evs@.take(i + 1).last() == evs@[i as int]);
            }
            i = i + 1;
        }
        proof {
            assert(evs@.take(evs@.len() as int) =~= evs@);
        }
        effs
    }
}

/// Pressing Escape always marks the window for closing, whatever the state
/// was before.
pub proof fn lemma_escape_press_closes(s: WindowState)
    ensures
        spec_dispatch_state(
            s,
            WindowEvent::Key { key: KeyCode::Escape, action: KeyAction::Press },
        ).should_close,
{
}

/// No event other than an Escape press ever raises the close flag: after
/// dispatching any other event, the flag is exactly what it was before.
pub proof fn lemma_only_escape_press_closes(s: WindowState, e: WindowEvent)
    requires
        e != (WindowEvent::Key { key: KeyCode::Escape, action: KeyAction::Press }),
    ensures
        spec_dispatch_state(s, e).should_close == s.should_close,
{
}

/// A framebuffer resize to (w, h) stores exactly that size, and its effect
/// is exactly one viewport call with bounds (0, 0, w, h).
pub proof fn lemma_resize_stores_size(s: WindowState, w: i32, h: i32)
    requires
        0 <= w,
        0 <= h,
    ensures
        spec_dispatch_state(s, WindowEvent::FramebufferSize { width: w, height: h }).width == w,
        spec_dispatch_state(s, WindowEvent::FramebufferSize { width: w, height: h }).height == h,
        spec_dispatch_effect(s, WindowEvent::FramebufferSize { width: w, height: h })
            == (EventEffect::SetViewport { x: 0, y: 0, width: w, height: h }),
{
}

} // verus!
