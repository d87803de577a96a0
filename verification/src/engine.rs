use crate::window::LogicalSize;
use vstd::prelude::*;

verus! {

/// How the window of the engine is opened.
#[derive(Debug)]
pub struct WindowSettings {
    pub title: String,
    pub width: u32,
    pub height: u32,
}

impl WindowSettings {
    pub fn new(title: &str, width: u32, height: u32) -> (settings: Self)
        ensures
            settings.title@ == title@,
            settings.width == width,
            settings.height == height,
    {
        WindowSettings { title: title.to_owned(), width, height }
    }
}

/// The keys that the engine tells apart.
#[derive(Clone, Copy, Debug, PartialEq, Eq, Structural)]
pub enum Key {
    Escape,
    W,
    Other,
}

/// What the window reports to the engine.
#[derive(Clone, Copy, Debug, PartialEq, Eq, Structural)]
pub enum WindowEvent {
    CloseRequested,
    RedrawRequested,
    Resized(LogicalSize),
    KeyReleased(Key),
    Other,
}

/// What the engine does about an event of its window.
#[derive(Clone, Copy, Debug, PartialEq, Eq, Structural)]
pub enum EngineAction {
    /// Leave the event loop, then wait until the device has retired all
    /// work.
    Exit,
    /// Draw a frame.
    Draw,
    /// Queue a resize of the swapchain.
    Resize(LogicalSize),
    Nothing,
}

/// The action that an event calls for. Before window and renderer are set
/// up, no event calls for anything. Closing the window and releasing the
/// escape key end the program.
pub open spec fn action_for(ready: bool, event: WindowEvent) -> EngineAction {
    if !ready {
        EngineAction::Nothing
    } else {
        match event {
            WindowEvent::CloseRequested => EngineAction::Exit,
            WindowEvent::RedrawRequested => EngineAction::Draw,
            WindowEvent::Resized(logical_size) => EngineAction::Resize(logical_size),
            WindowEvent::KeyReleased(Key::Escape) => EngineAction::Exit,
            WindowEvent::KeyReleased(_) => EngineAction::Nothing,
            WindowEvent::Other => EngineAction::Nothing,
        }
    }
}

pub fn window_event(ready: bool, event: WindowEvent) -> (action: EngineAction)
    ensures
        action == action_for(ready, event),
{
    if !ready {
        return EngineAction::Nothing;
    }
    match event {
        WindowEvent::CloseRequested => EngineAction::Exit,
        WindowEvent::RedrawRequested => EngineAction::Draw,
        WindowEvent::Resized(logical_size) => EngineAction::Resize(logical_size),
        WindowEvent::KeyReleased(key) => match key {
            Key::Escape => EngineAction::Exit,
            _ => EngineAction::Nothing,
        },
        WindowEvent::Other => EngineAction::Nothing,
    }
}

/// Whether a redraw is asked for when the event loop wakes up: when it
/// polls and there is a window.
pub fn new_events(polled: bool, has_window: bool) -> (redraw: bool)
    ensures
        redraw == (polled && has_window),
{
    polled && has_window
}

} // verus!
