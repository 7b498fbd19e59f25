//! What holds of the adapter's reactions in every state and for every event.
//!
//! Each law is stated over `EngineState`, in the terms of the contracts of
//! `Engine`'s methods, so that it holds of every call of those methods.

use vstd::prelude::*;
use crate::engine::{clamped, CreatedWindow, EngineState, Reaction};
use crate::event::{KeyState, PhysicalKey, WindowEvent};
use crate::platform::{Platform, StartupStep};

verus! {

/// A resize that reports a width or a height of zero records the size with
/// that dimension raised to one: each recorded dimension is the larger of the
/// reported one and one.
pub proof fn lemma_degenerate_resize_is_clamped<W>(state: EngineState<W>, width: u32, height: u32)
    requires
        state.window is Some,
        width == 0 || height == 0,
    ensures
        state.after_event(WindowEvent::Resized { width, height }).last_size.0 == vstd::math::max(
            width as int,
            1,
        ),
        state.after_event(WindowEvent::Resized { width, height }).last_size.1 == vstd::math::max(
            height as int,
            1,
        ),
{
}

/// A resize that reports a width and a height of at least one records exactly
/// that size.
pub proof fn lemma_positive_resize_is_recorded<W>(state: EngineState<W>, width: u32, height: u32)
    requires
        state.window is Some,
        width >= 1,
        height >= 1,
    ensures
        state.after_event(WindowEvent::Resized { width, height }).last_size == (width, height),
{
}

/// Without a window every event is dropped: the state stays as it is, and
/// neither an exit nor a redraw is requested.
pub proof fn lemma_event_without_window_is_dropped<W>(state: EngineState<W>, event: WindowEvent)
    requires
        state.window is None,
    ensures
        state.after_event(event) == state,
        state.reaction_to(event) == Reaction::nothing(),
        !state.reaction_to(event).exit,
        !state.reaction_to(event).redraw,
{
}

/// With a window, a keyboard event for the escape key asks the event loop to
/// stop, once, whether the key was pressed or released and whether or not it
/// repeats.
pub proof fn lemma_escape_asks_exit<W>(state: EngineState<W>, key_state: KeyState, repeat: bool)
    requires
        state.window is Some,
    ensures
        state.reaction_to(
            WindowEvent::KeyboardInput {
                physical_key: PhysicalKey::Escape,
                state: key_state,
                repeat,
            },
        ).exit,
{
}

/// With a window, a close request asks the event loop to stop, once.
pub proof fn lemma_close_request_asks_exit<W>(state: EngineState<W>)
    requires
        state.window is Some,
    ensures
        state.reaction_to(WindowEvent::CloseRequested).exit,
{
}

/// With a window, an exit is requested for the escape key and for a close
/// request and for no other event.
pub proof fn lemma_exit_only_on_escape_or_close<W>(state: EngineState<W>, event: WindowEvent)
    requires
        state.window is Some,
    ensures
        state.reaction_to(event).exit <==> event.is_escape() || event is CloseRequested,
{
}

/// With a window, every event asks for a redraw, once, whatever its kind.
pub proof fn lemma_every_event_asks_redraw<W>(state: EngineState<W>, event: WindowEvent)
    requires
        state.window is Some,
    ensures
        state.reaction_to(event).redraw,
{
}

/// The first window created for a new adapter is held from then on, and the
/// size it reported is recorded with each dimension raised to at least one:
/// a size of at least one by one is recorded exactly. The startup work is the
/// platform's, for the size as it was reported.
pub proof fn lemma_first_window_is_held<W>(platform: Platform, created: CreatedWindow<W>)
    ensures
        EngineState::<W>::initial().after_creation(Some(created)).window == Some(created.handle),
        EngineState::<W>::initial().after_creation(Some(created)).last_size == (
            clamped(created.width),
            clamped(created.height),
        ),
        created.width >= 1 && created.height >= 1 ==> EngineState::<W>::initial().after_creation(
            Some(created),
        ).last_size == (created.width, created.height),
        EngineState::<W>::initial().startup_after(platform, Some(created))
            == platform.startup_steps(created.width, created.height),
{
}

/// Whatever size the host reports for a new window, zero included, the
/// adapter holds a window afterwards and both recorded dimensions are at least
/// one.
pub proof fn lemma_created_window_has_positive_size<W>(
    state: EngineState<W>,
    created: CreatedWindow<W>,
)
    requires
        state.well_formed(),
    ensures
        state.after_creation(Some(created)).window is Some,
        state.after_creation(Some(created)).has_positive_size(),
{
}

/// A window, once held, stays held: no event lets go of it, and no answer of
/// the host to a request for a window leaves the adapter without one.
pub proof fn lemma_window_stays_held<W>(
    state: EngineState<W>,
    event: WindowEvent,
    outcome: Option<CreatedWindow<W>>,
)
    requires
        state.window is Some,
    ensures
        state.after_event(event).window == state.window,
        state.after_creation(outcome).window is Some,
{
}

/// The one-time startup work falls due at most once: with a window held, no
/// answer of the host brings any.
pub proof fn lemma_startup_only_for_first_window<W>(
    state: EngineState<W>,
    platform: Platform,
    outcome: Option<CreatedWindow<W>>,
)
    requires
        state.window is Some,
    ensures
        state.startup_after(platform, outcome) == Seq::<StartupStep>::empty(),
        state.after_creation(outcome).last_size == state.last_size,
{
}

/// Until a window is held the recorded size is not touched by any event, and a
/// failed creation leaves the whole state as it is.
pub proof fn lemma_state_rests_without_window<W>(state: EngineState<W>, event: WindowEvent)
    requires
        state.window is None,
    ensures
        state.after_event(event) == state,
        state.after_creation(None) == state,
{
}

/// A new adapter is well formed, and neither an event nor an answer of the
/// host to a request for a window leads from a well-formed state to one that
/// is not: the recorded size stays zero by zero until a window is held, and
/// is at least one by one from then on.
pub proof fn lemma_well_formed_is_kept<W>(
    state: EngineState<W>,
    event: WindowEvent,
    outcome: Option<CreatedWindow<W>>,
)
    requires
        state.well_formed(),
    ensures
        EngineState::<W>::initial().well_formed(),
        state.after_event(event).well_formed(),
        state.after_creation(outcome).well_formed(),
{
}

/// While a window is held both recorded dimensions are at least one, and
/// they stay so after every event and every answer of the host to a request
/// for a window.
pub proof fn lemma_positive_size_is_kept<W>(
    state: EngineState<W>,
    event: WindowEvent,
    outcome: Option<CreatedWindow<W>>,
)
    requires
        state.well_formed(),
        state.window is Some,
    ensures
        state.has_positive_size(),
        state.after_event(event).has_positive_size(),
        state.after_creation(outcome).has_positive_size(),
{
}

/// A dimension of zero is raised to one, and every other dimension is kept:
/// the result is the larger of the dimension and one.
pub proof fn lemma_clamped_is_max_with_one(dimension: u32)
    ensures
        clamped(dimension) == vstd::math::max(dimension as int, 1),
        clamped(dimension) >= 1,
        dimension >= 1 ==> clamped(dimension) == dimension,
{
}

} // verus!
