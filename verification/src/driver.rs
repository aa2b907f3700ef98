//! The event loop as a state machine.
//!
//! The loop itself (waiting for the window system, creating a surface,
//! presenting a frame, raising the on-screen keyboard) is not done here. The
//! [`Driver`] holds what the loop has to remember, takes one [`Event`] at a
//! time, and answers with the one [`Action`] that the loop has to perform.
//!
//! While the application is suspended it has no surface to draw on, and every
//! event but a change of lifecycle is ignored. While it is resumed, an idle
//! tick advances the scene and asks for a redraw, a redraw request has the
//! scene painted and presented, a close request ends the loop, and a touch
//! that starts toggles the on-screen keyboard. A frame that could not be
//! presented is fatal in either state: the loop ends at once, and the program
//! with a failure status.

use vstd::prelude::*;
use crate::world::World;

verus! {

/// Whether the application currently owns a surface to draw on.
#[derive(Clone, Copy, Debug, PartialEq, Eq, Structural)]
pub enum Lifecycle {
    /// No surface: the application is in the background.
    Suspended,
    /// A surface exists: the application is in the foreground.
    Resumed,
}

/// The stage of a touch gesture.
#[derive(Clone, Copy, Debug, PartialEq, Eq, Structural)]
pub enum TouchPhase {
    Started,
    Moved,
    Ended,
    Cancelled,
}

/// What the loop reports to the driver.
#[derive(Clone, Copy, Debug, PartialEq, Eq, Structural)]
pub enum Event {
    /// The application came to the foreground.
    Resumed,
    /// The application went to the background.
    Suspended,
    /// The window asks for its content to be drawn.
    RedrawRequested,
    /// All pending events have been handled: an idle tick.
    MainEventsCleared,
    /// The user asks for the window to be closed.
    CloseRequested,
    /// A finger touched, moved on or left the screen.
    Touch { phase: TouchPhase },
    /// A key was pressed or released.
    KeyboardInput,
    /// The frame painted for the last [`Action::Redraw`] could not be presented.
    PresentFailed,
    /// Any other event of the window system.
    Other,
}

/// What the driver asks the loop to do in answer to an event.
#[derive(Clone, Copy, Debug, PartialEq, Eq, Structural)]
pub enum Action {
    /// Nothing.
    Idle,
    /// Create the surface, replacing the one that exists, if any.
    CreateSurface,
    /// Drop the surface, if one exists.
    DestroySurface,
    /// Paint the scene into the frame buffer and present it.
    Redraw,
    /// The scene has moved on: ask the window for a redraw.
    RequestRedraw,
    /// Show the on-screen keyboard, or hide it.
    SoftInput { show: bool },
    /// Put the key event into the log.
    LogKeyboardInput,
    /// Leave the loop: the program ends normally.
    Exit,
    /// Leave the loop at once: the program ends with a failure status.
    Fail,
}

/// What a [`Driver`] remembers between two events.
pub struct DriverState {
    pub lifecycle: Lifecycle,
    pub soft_keyboard: bool,
    pub world: World,
}

/// The state in which every driver starts: suspended, the on-screen keyboard
/// hidden, the box at its starting position.
pub open spec fn initial_state() -> DriverState {
    DriverState {
        lifecycle: Lifecycle::Suspended,
        soft_keyboard: false,
        world: World { box_x: 24, box_y: 16, velocity_x: 1, velocity_y: 1 },
    }
}

/// The state that follows `state` once `event` has been handled.
pub open spec fn next_state(state: DriverState, event: Event) -> DriverState {
    match (event, state.lifecycle) {
        (Event::Resumed, _) => DriverState { lifecycle: Lifecycle::Resumed, ..state },
        (Event::Suspended, _) => DriverState { lifecycle: Lifecycle::Suspended, ..state },
        (Event::MainEventsCleared, Lifecycle::Resumed) => DriverState {
            world: state.world.updated(),
            ..state
        },
        (Event::Touch { phase: TouchPhase::Started }, Lifecycle::Resumed) => DriverState {
            soft_keyboard: !state.soft_keyboard,
            ..state
        },
        _ => state,
    }
}

/// The action with which a driver in `state` answers `event`.
pub open spec fn response(state: DriverState, event: Event) -> Action {
    match (event, state.lifecycle) {
        (Event::Resumed, _) => Action::CreateSurface,
        (Event::Suspended, _) => Action::DestroySurface,
        (Event::PresentFailed, _) => Action::Fail,
        (Event::RedrawRequested, Lifecycle::Resumed) => Action::Redraw,
        (Event::MainEventsCleared, Lifecycle::Resumed) => Action::RequestRedraw,
        (Event::CloseRequested, Lifecycle::Resumed) => Action::Exit,
        (Event::Touch { phase: TouchPhase::Started }, Lifecycle::Resumed) => Action::SoftInput {
            show: !state.soft_keyboard,
        },
        (Event::KeyboardInput, Lifecycle::Resumed) => Action::LogKeyboardInput,
        _ => Action::Idle,
    }
}

/// The state that a driver started in `state` reaches by handling `events` in
/// order.
pub open spec fn state_after(state: DriverState, events: Seq<Event>) -> DriverState
    decreases events.len(),
{
    if events.len() == 0 {
        state
    } else {
        next_state(state_after(state, events.drop_last()), events.last())
    }
}

/// Whether a surface exists once the loop has performed `action`, given
/// whether one existed before.
pub open spec fn surface_after(surface: bool, action: Action) -> bool {
    match action {
        Action::CreateSurface => true,
        Action::DestroySurface => false,
        _ => surface,
    }
}

/// The state of the event loop: the scene, whether a surface exists, and
/// whether the on-screen keyboard was last asked to show.
///
/// The scene of a driver is always in play (see
/// [`World::in_play`]), and so inside the frame: it starts so, and only idle
/// ticks change it.
pub struct Driver {
    world: World,
    lifecycle: Lifecycle,
    soft_keyboard: bool,
}

impl View for Driver {
    type V = DriverState;

    closed spec fn view(&self) -> DriverState {
        DriverState {
            lifecycle: self.lifecycle,
            soft_keyboard: self.soft_keyboard,
            world: self.world,
        }
    }
}

impl Driver {
    /// What holds of every driver: its scene is in play.
    #[verifier::type_invariant]
    pub open spec fn scene_in_play(&self) -> bool {
        self@.world.in_play()
    }

    /// A driver in the initial state.
    pub fn new() -> (driver: Driver)
        ensures
            driver@ == initial_state(),
    {
        Driver { world: World::new(), lifecycle: Lifecycle::Suspended, soft_keyboard: false }
    }

    /// Whether a surface exists.
    pub fn lifecycle(&self) -> (lifecycle: Lifecycle)
        ensures
            lifecycle == self@.lifecycle,
    {
        self.lifecycle
    }

    /// Whether the on-screen keyboard was last asked to show.
    pub fn soft_keyboard(&self) -> (shown: bool)
        ensures
            shown == self@.soft_keyboard,
    {
        self.soft_keyboard
    }

    /// The scene, for painting.
    pub fn world(&self) -> (world: &World)
        ensures
            *world == self@.world,
            world.in_play(),
            world.in_frame(),
    {
        proof {
            use_type_invariant(self);
        }
        &self.world
    }

    /// Handles one event: moves to the next state and says what the loop has
    /// to do.
    pub fn handle(&mut self, event: Event) -> (action: Action)
        ensures
            final(self)@ == next_state(old(self)@, event),
            action == response(old(self)@, event),
            final(self)@.world.in_play(),
            final(self)@.world.in_frame(),
    {
        proof {
            use_type_invariant(&*self);
        }
        match event {
            Event::Resumed => {
                self.lifecycle = Lifecycle::Resumed;
                Action::CreateSurface
            },
            Event::Suspended => {
                self.lifecycle = Lifecycle::Suspended;
                Action::DestroySurface
            },
            Event::PresentFailed => Action::Fail,
            _ => match self.lifecycle {
                Lifecycle::Suspended => Action::Idle,
                Lifecycle::Resumed => match event {
                    Event::RedrawRequested => Action::Redraw,
                    Event::MainEventsCleared => {
                        // Updated on a copy: the field holds a scene in play
                        // at every moment.
                        let mut world = self.world;
                        world.update();
                        self.world = world;
                        Action::RequestRedraw
                    },
                    Event::CloseRequested => Action::Exit,
                    Event::Touch { phase: TouchPhase::Started } => {
                        self.soft_keyboard = !self.soft_keyboard;
                        Action::SoftInput { show: self.soft_keyboard }
                    },
                    Event::KeyboardInput => Action::LogKeyboardInput,
                    _ => Action::Idle,
                },
            },
        }
    }
}

/// A loop that performs the driver's actions has a surface exactly while the
/// driver is resumed, and is asked to redraw only while it has one.
pub proof fn lemma_surface_follows_lifecycle(state: DriverState, event: Event)
    ensures
        surface_after(state.lifecycle == Lifecycle::Resumed, response(state, event)) == (next_state(
            state,
            event,
        ).lifecycle == Lifecycle::Resumed),
        response(state, event) == Action::Redraw ==> state.lifecycle == Lifecycle::Resumed,
{
}

/// A suspended driver ignores every event but a change of lifecycle and a
/// failed presentation.
pub proof fn lemma_suspended_ignores_events(state: DriverState, event: Event)
    requires
        state.lifecycle == Lifecycle::Suspended,
        event != Event::Resumed,
        event != Event::Suspended,
        event != Event::PresentFailed,
    ensures
        next_state(state, event) == state,
        response(state, event) == Action::Idle,
{
}

/// Only an idle tick of a resumed driver changes the scene, and it changes it
/// by one update; whatever the event, a scene in play stays in play, and so
/// inside the frame.
pub proof fn lemma_scene_moves_on_ticks_only(state: DriverState, event: Event)
    requires
        state.world.in_play(),
    ensures
        next_state(state, event).world == if event == Event::MainEventsCleared && state.lifecycle
            == Lifecycle::Resumed {
            state.world.updated()
        } else {
            state.world
        },
        next_state(state, event).world.in_play(),
        next_state(state, event).world.in_frame(),
{
}

/// Whatever events arrive, in whatever order, the scene of a driver that
/// started in the initial state is in play, and so inside the frame.
pub proof fn lemma_scene_always_in_frame(events: Seq<Event>)
    ensures
        state_after(initial_state(), events).world.in_play(),
        state_after(initial_state(), events).world.in_frame(),
    decreases events.len(),
{
    if events.len() > 0 {
        lemma_scene_always_in_frame(events.drop_last());
        lemma_scene_moves_on_ticks_only(
            state_after(initial_state(), events.drop_last()),
            events.last(),
        );
    }
}

} // verus!
