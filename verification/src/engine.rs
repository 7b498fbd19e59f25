//! The adapter: the state it keeps and its reaction to each callback of the
//! host event loop.
//!
//! The adapter has two states. It starts without a window and, once a window
//! was created for it, holds one for the rest of the run. Every reaction is
//! first written down as a function on `EngineState`, the adapter's value
//! in contracts; the methods of `Engine` compute exactly those functions.

use vstd::prelude::*;
use crate::event::{PhysicalKey, WindowEvent};
use crate::platform::{Platform, StartupStep, WindowAttributes};

verus! {

/// A width or height as the adapter records it: at least one.
pub open spec fn clamped(dimension: u32) -> u32 {
    if dimension < 1 {
        1
    } else {
        dimension
    }
}

/// Raises a width or height of zero to one and leaves every other value alone.
pub fn clamp_dimension(dimension: u32) -> (effective: u32)
    ensures
        effective == clamped(dimension),
        effective == vstd::math::max(dimension as int, 1),
{
    dimension.max(1)
}

/// A window that the host event loop created on request.
pub struct CreatedWindow<W> {
    /// The handle through which the caller reaches the window.
    pub handle: W,
    /// The width the platform reported for it: that of its drawable area on a
    /// native build, that of the canvas on the web.
    pub width: u32,
    /// The height the platform reported for it.
    pub height: u32,
}

/// What an event gives the caller to write to its log.
#[derive(Clone, Copy, Debug, PartialEq, Eq)]
pub enum Notice {
    /// The window was resized; the size is the one now recorded.
    Resized { width: u32, height: u32 },
    /// The user asked to close the window and the event loop is to stop.
    CloseRequested,
}

/// What the caller hands to the host event loop after one window event.
///
/// A reaction carries each request at most once. The caller writes the
/// notice to its log, then asks the event loop to stop if `exit` is set, then
/// asks the window for a redraw if `redraw` is set.
#[derive(Clone, Copy, Debug, PartialEq, Eq)]
pub struct Reaction {
    /// Ask the event loop, once, to stop dispatching events.
    pub exit: bool,
    /// Ask the window, once, to be redrawn.
    pub redraw: bool,
    /// The line to log, if the event has one.
    pub notice: Option<Notice>,
}

impl Reaction {
    /// The reaction that requests nothing and logs nothing.
    pub open spec fn nothing() -> Reaction {
        Reaction { exit: false, redraw: false, notice: None }
    }
}

/// The adapter's state as contracts see it.
pub struct EngineState<W> {
    /// The window the adapter holds, if it holds one.
    pub window: Option<W>,
    /// The width and height last recorded for the window.
    pub last_size: (u32, u32),
}

impl<W> EngineState<W> {
    /// The state of a new adapter: no window, and a size of zero by zero.
    pub open spec fn initial() -> Self {
        EngineState { window: None, last_size: (0, 0) }
    }

    /// What holds of every state the adapter can be in: until a window is
    /// held, the recorded size is still zero by zero, and from then on both
    /// of its dimensions are at least one.
    pub open spec fn well_formed(self) -> bool {
        &&& self.window is None ==> self.last_size == (0u32, 0u32)
        &&& self.window is Some ==> self.has_positive_size()
    }

    /// Both recorded dimensions are at least one.
    pub open spec fn has_positive_size(self) -> bool {
        self.last_size.0 >= 1 && self.last_size.1 >= 1
    }

    /// The line to log for `event` when a window is held.
    pub open spec fn notice_for(event: WindowEvent) -> Option<Notice> {
        match event {
            WindowEvent::Resized { width, height } => Some(
                Notice::Resized { width: clamped(width), height: clamped(height) },
            ),
            WindowEvent::CloseRequested => Some(Notice::CloseRequested),
            _ => None,
        }
    }

    /// The state after `event` was dispatched. Without a window nothing
    /// changes; with one, a resize records the new size, each dimension raised
    /// to at least one, and every other event leaves the state as it is.
    pub open spec fn after_event(self, event: WindowEvent) -> Self {
        match event {
            WindowEvent::Resized { width, height } if self.window is Some => EngineState {
                window: self.window,
                last_size: (clamped(width), clamped(height)),
            },
            _ => self,
        }
    }

    /// The requests that dispatching `event` in this state hands back.
    /// Without a window there are none; with one, a redraw is always
    /// requested, and an exit on the escape key and on a close request.
    pub open spec fn reaction_to(self, event: WindowEvent) -> Reaction {
        if self.window is Some {
            Reaction { exit: event.asks_exit(), redraw: true, notice: Self::notice_for(event) }
        } else {
            Reaction::nothing()
        }
    }

    /// The state after the host answered a request for a window. A failure
    /// changes nothing. A new window is held from now on; the size it reported
    /// is recorded, each dimension raised to at least one, only if no window
    /// was held before.
    pub open spec fn after_creation(self, outcome: Option<CreatedWindow<W>>) -> Self {
        match outcome {
            Some(created) => EngineState {
                window: Some(created.handle),
                last_size: if self.window is None {
                    (clamped(created.width), clamped(created.height))
                } else {
                    self.last_size
                },
            },
            None => self,
        }
    }

    /// The startup work that falls due when the host answered a request for a
    /// window: the platform's, if this is the first window, and none otherwise.
    /// The steps carry the size as the platform reported it.
    pub open spec fn startup_after(
        self,
        platform: Platform,
        outcome: Option<CreatedWindow<W>>,
    ) -> Seq<StartupStep> {
        match outcome {
            Some(created) if self.window is None => platform.startup_steps(
                created.width,
                created.height,
            ),
            _ => Seq::empty(),
        }
    }
}

/// The adapter between a host event loop and the application: it holds at
/// most one window handle and the size last recorded for that window.
///
/// `W` is the caller's handle to a platform window. The adapter stores it and
/// hands out references to it, and never looks inside.
pub struct Engine<W> {
    window: Option<W>,
    last_size: (u32, u32),
}

impl<W> View for Engine<W> {
    type V = EngineState<W>;

    closed spec fn view(&self) -> EngineState<W> {
        EngineState { window: self.window, last_size: self.last_size }
    }
}

impl<W> Default for Engine<W> {
    /// An adapter without a window, with a recorded size of zero by zero.
    fn default() -> (engine: Self)
        ensures
            engine@ == EngineState::<W>::initial(),
    {
        Engine { window: None, last_size: (0, 0) }
    }
}

impl<W> Engine<W> {
    #[verifier::type_invariant]
    spec fn size_follows_window(self) -> bool {
        &&& self.window is None ==> self.last_size == (0u32, 0u32)
        &&& self.window is Some ==> self.last_size.0 >= 1 && self.last_size.1 >= 1
    }

    /// An adapter without a window, with a recorded size of zero by zero.
    pub fn new() -> (engine: Self)
        ensures
            engine@ == EngineState::<W>::initial(),
    {
        Engine { window: None, last_size: (0, 0) }
    }

    /// The window handle, if one is held.
    pub fn window(&self) -> (window: Option<&W>)
        ensures
            match window {
                Some(handle) => self@.window == Some(*handle),
                None => self@.window is None,
            },
    {
        self.window.as_ref()
    }

    /// Whether a window handle is held.
    pub fn has_window(&self) -> (held: bool)
        ensures
            held == (self@.window is Some),
            self@.well_formed(),
    {
        proof {
            use_type_invariant(self);
        }
        self.window.is_some()
    }

    /// The width and height last recorded for the window: zero by zero until
    /// a window is held, and at least one by one from then on.
    pub fn last_size(&self) -> (size: (u32, u32))
        ensures
            size == self@.last_size,
            self@.well_formed(),
            self@.window is None ==> size == (0u32, 0u32),
            self@.window is Some ==> size.0 >= 1 && size.1 >= 1,
    {
        proof {
            use_type_invariant(self);
        }
        self.last_size
    }

    /// Called when the application may create its window. Returns the window
    /// to ask the host event loop for if none is held yet, and `None` if one
    /// is held already. The caller reports the host's answer to
    /// `creation_finished`.
    pub fn resumed(&self, platform: Platform) -> (request: Option<WindowAttributes>)
        ensures
            match request {
                Some(attributes) => self@.window is None && attributes.is_for(platform),
                None => self@.window is Some,
            },
    {
        if self.window.is_some() {
            None
        } else {
            Some(platform.window_attributes())
        }
    }

    /// Takes the host's answer to a request for a window: the new window, or
    /// `None` if the host could not create one, which is passed over in
    /// silence. A first window has its reported size recorded, each dimension
    /// raised to at least one. Returns the one-time startup work for the
    /// caller to do now, in order; it is empty unless this is the first window.
    pub fn creation_finished(
        &mut self,
        platform: Platform,
        outcome: Option<CreatedWindow<W>>,
    ) -> (steps: Vec<StartupStep>)
        ensures
            final(self)@ == old(self)@.after_creation(outcome),
            steps@ == old(self)@.startup_after(platform, outcome),
            final(self)@.well_formed(),
            match outcome {
                Some(created) => {
                    let size = (clamped(created.width), clamped(created.height));
                    &&& final(self)@.window == Some(created.handle)
                    &&& old(self)@.window is None ==> final(self)@.last_size == size
                    &&& old(self)@.window is Some ==> steps@.len() == 0
                    &&& old(self)@.window is Some ==> final(self)@.last_size == old(self)@.last_size
                },
                None => final(self)@ == old(self)@ && steps@.len() == 0,
            },
    {
        proof {
            use_type_invariant(&*self);
        }
        match outcome {
            Some(created) => {
                let CreatedWindow { handle, width, height } = created;
                if self.window.is_none() {
                    let last_size = (clamp_dimension(width), clamp_dimension(height));
                    *self = Engine { window: Some(handle), last_size };
                    platform.on_first_window_created(width, height)
                } else {
                    self.window = Some(handle);
                    Vec::new()
                }
            },
            None => Vec::new(),
        }
    }

    /// Dispatches one window event. Without a window the event is dropped:
    /// the state stays as it is and nothing is requested. With a window, a
    /// resize records the new size with each dimension raised to at least one,
    /// the escape key and a close request ask the event loop to stop, and
    /// every event, whatever its kind, asks for a redraw.
    pub fn window_event(&mut self, event: WindowEvent) -> (reaction: Reaction)
        ensures
            final(self)@ == old(self)@.after_event(event),
            reaction == old(self)@.reaction_to(event),
            final(self)@.well_formed(),
            final(self)@.window == old(self)@.window,
            old(self)@.window is None ==> final(self)@ == old(self)@ && !reaction.exit
                && !reaction.redraw && reaction.notice is None,
            old(self)@.window is Some ==> reaction.redraw && reaction.exit == event.asks_exit(),
            old(self)@.window is Some ==> (event matches WindowEvent::Resized { width, height }
                ==> final(self)@.last_size.0 == vstd::math::max(width as int, 1)
                && final(self)@.last_size.1 == vstd::math::max(height as int, 1)),
            !(event is Resized) ==> final(self)@ == old(self)@,
    {
        proof {
            use_type_invariant(&*self);
        }
        if self.window.is_none() {
            return Reaction { exit: false, redraw: false, notice: None };
        }
        let mut exit = false;
        let mut notice: Option<Notice> = None;
        match event {
            WindowEvent::KeyboardInput { physical_key, .. } => {
                if let PhysicalKey::Escape = physical_key {
                    exit = true;
                }
            },
            WindowEvent::Resized { width, height } => {
                let width = clamp_dimension(width);
                let height = clamp_dimension(height);
                notice = Some(Notice::Resized { width, height });
                self.last_size = (width, height);
            },
            WindowEvent::CloseRequested => {
                notice = Some(Notice::CloseRequested);
                exit = true;
            },
            WindowEvent::Other => {},
        }
        Reaction { exit, redraw: true, notice }
    }
}

} // verus!
