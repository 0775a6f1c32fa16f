//! The engine's error type and the decisions of its main loop.

use vstd::prelude::*;

verus! {

/// Everything that can stop the engine from starting or running.
#[derive(Debug)]
pub enum VkEngineError {
    SdlInit(String),
    SdlVideoInit(String),
    WindowCreation(String),
    /// SDL could not create a Vulkan surface for the window.
    SdlCreateWindow(String),
    VulkanExtension(String),
    VulkanEntry(ash::LoadingError),
    /// A Vulkan call failed; the raw `VkResult` code.
    VulkanInstance(i32),
    ValidationLayerNotFound(),
}

impl VkEngineError {
    /// Turns the outcome of a Vulkan call into the engine's result: a failure
    /// becomes `VulkanInstance` with the same code, a success passes through.
    pub fn from_vk_result<T>(outcome: Result<T, i32>) -> (r: Result<T, VkEngineError>)
        ensures
            match outcome {
                Ok(v) => r == Ok::<T, VkEngineError>(v),
                Err(code) => r == Err::<T, VkEngineError>(VkEngineError::VulkanInstance(code)),
            },
    {
        match outcome {
            Ok(v) => Ok(v),
            Err(code) => Err(VkEngineError::VulkanInstance(code)),
        }
    }
}

/// The size of the window's drawable area, in pixels.
pub struct WindowExtent {
    pub width: u32,
    pub height: u32,
}

/// What the main loop learns from the window system, reduced to what it acts on.
pub enum EngineEvent {
    /// The user asked to close the application.
    Quit,
    /// The window was minimized.
    Minimized,
    /// The window was restored from being minimized.
    Restored,
    /// Anything else.
    Other,
}

/// What the main loop does once the pending events are handled.
pub enum FrameAction {
    /// Render nothing and wait this long before looking at events again.
    Sleep { millis: u64 },
    /// Render a frame.
    Draw,
}

/// How long the loop waits while rendering is stopped.
pub open spec fn idle_wait_millis() -> u64 {
    100
}

/// The engine's own state, apart from the window-system and driver objects.
pub struct VkEngineState {
    pub frame_number: u32,
    pub stop_rendering: bool,
    pub window_extent: WindowExtent,
}

/// One event applied to the pair (rendering stopped, quit requested).
pub open spec fn event_step(stop_rendering: bool, quit: bool, event: EngineEvent) -> (bool, bool) {
    match event {
        EngineEvent::Quit => (stop_rendering, true),
        EngineEvent::Minimized => (true, quit),
        EngineEvent::Restored => (false, quit),
        EngineEvent::Other => (stop_rendering, quit),
    }
}

/// A sequence of events applied in order.
pub open spec fn events_outcome(stop_rendering: bool, quit: bool, events: Seq<EngineEvent>) -> (
    bool,
    bool,
)
    decreases events.len(),
{
    if events.len() == 0 {
        (stop_rendering, quit)
    } else {
        let before = events_outcome(stop_rendering, quit, events.drop_last());
        event_step(before.0, before.1, events.last())
    }
}

/// The last minimize or restore among `events`, if any.
pub open spec fn last_window_change(events: Seq<EngineEvent>) -> Option<bool>
    decreases events.len(),
{
    if events.len() == 0 {
        None
    } else {
        match events.last() {
            EngineEvent::Minimized => Some(true),
            EngineEvent::Restored => Some(false),
            _ => last_window_change(events.drop_last()),
        }
    }
}

/// Once quitting is requested it stays requested: after any run of events, quitting
/// is requested exactly when it was before or one of the events was a quit request.
pub proof fn law_quit_is_final(stop_rendering: bool, quit: bool, events: Seq<EngineEvent>)
    ensures
        events_outcome(stop_rendering, quit, events).1 == (quit || exists|i: int|
            0 <= i < events.len() && #[trigger] events[i] is Quit),
    decreases events.len(),
{
    if events.len() > 0 {
        let rest = events.drop_last();
        law_quit_is_final(stop_rendering, quit, rest);
        if exists|i: int| 0 <= i < rest.len() && #[trigger] rest[i] is Quit {
            let i = choose|i: int| 0 <= i < rest.len() && #[trigger] rest[i] is Quit;
            assert(events[i] is Quit);
        }
        if exists|i: int| 0 <= i < events.len() && #[trigger] events[i] is Quit {
            let i = choose|i: int| 0 <= i < events.len() && #[trigger] events[i] is Quit;
            if i < events.len() - 1 {
                assert(rest[i] is Quit);
            }
        }
    }
}

/// Whether rendering is stopped depends only on the last minimize or restore: stopped
/// after a minimize, running after a restore, unchanged when neither happened.
pub proof fn law_rendering_follows_last_window_change(
    stop_rendering: bool,
    quit: bool,
    events: Seq<EngineEvent>,
)
    ensures
        events_outcome(stop_rendering, quit, events).0 == match last_window_change(events) {
            Some(stopped) => stopped,
            None => stop_rendering,
        },
    decreases events.len(),
{
    if events.len() > 0 {
        law_rendering_follows_last_window_change(stop_rendering, quit, events.drop_last());
    }
}

impl VkEngineState {
    /// A fresh engine: frame 0, rendering on, an 800 by 600 window.
    pub fn new() -> (s: VkEngineState)
        ensures
            s.frame_number == 0,
            !s.stop_rendering,
            s.window_extent.width == 800,
            s.window_extent.height == 600,
    {
        VkEngineState {
            frame_number: 0,
            stop_rendering: false,
            window_extent: WindowExtent { width: 800, height: 600 },
        }
    }

    /// Handles one event: a quit request is remembered for good, minimizing stops
    /// rendering and restoring resumes it; everything else changes nothing. Returns
    /// whether quitting has been requested.
    pub fn handle_event(&mut self, quit: bool, event: EngineEvent) -> (quit_after: bool)
        ensures
            (final(self).stop_rendering, quit_after) == event_step(
                old(self).stop_rendering,
                quit,
                event,
            ),
            final(self).frame_number == old(self).frame_number,
            final(self).window_extent == old(self).window_extent,
    {
        match event {
            EngineEvent::Quit => true,
            EngineEvent::Minimized => {
                self.stop_rendering = true;
                quit
            },
            EngineEvent::Restored => {
                self.stop_rendering = false;
                quit
            },
            EngineEvent::Other => quit,
        }
    }

    /// After the events: wait while rendering is stopped, draw otherwise.
    pub fn frame_action(&self) -> (action: FrameAction)
        ensures
            action == if self.stop_rendering {
                FrameAction::Sleep { millis: idle_wait_millis() }
            } else {
                FrameAction::Draw
            },
    {
        if self.stop_rendering {
            FrameAction::Sleep { millis: 100 }
        } else {
            FrameAction::Draw
        }
    }
}

} // verus!
