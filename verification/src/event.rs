//! The events the driver is told of, and what the event loop does about
//! them.

use vstd::prelude::*;
use crate::controller::{CameraKey, ScrollDelta};
use crate::viewport::ResizePlan;

verus! {

/// A key of the keyboard, as far as the driver tells keys apart.
#[derive(Clone, Copy, Debug, PartialEq, Eq)]
pub enum Key {
    W,
    A,
    S,
    D,
    Up,
    Down,
    Left,
    Right,
    Space,
    LShift,
    Escape,
    Other,
}

impl Key {
    /// The direction in which the key moves the camera, if it moves it:
    /// W, A, S, D and the arrows move it over the ground, the space bar
    /// lifts it and the left shift key lowers it.
    pub open spec fn binding(self) -> Option<CameraKey> {
        match self {
            Key::W | Key::Up => Some(CameraKey::Forward),
            Key::S | Key::Down => Some(CameraKey::Backward),
            Key::A | Key::Left => Some(CameraKey::Left),
            Key::D | Key::Right => Some(CameraKey::Right),
            Key::Space => Some(CameraKey::Up),
            Key::LShift => Some(CameraKey::Down),
            Key::Escape | Key::Other => None,
        }
    }

    /// The direction in which the key moves the camera, if it moves it.
    pub fn camera_key(&self) -> (key: Option<CameraKey>)
        ensures
            key == self.binding(),
    {
        match self {
            Key::W | Key::Up => Some(CameraKey::Forward),
            Key::S | Key::Down => Some(CameraKey::Backward),
            Key::A | Key::Left => Some(CameraKey::Left),
            Key::D | Key::Right => Some(CameraKey::Right),
            Key::Space => Some(CameraKey::Up),
            Key::LShift => Some(CameraKey::Down),
            Key::Escape | Key::Other => None,
        }
    }
}

/// An event of the window.
#[derive(Clone, Copy, Debug, PartialEq, Eq)]
pub enum WindowEvent {
    /// The pointer moved to (`x`, `y`), both double-precision values given
    /// by their bits.
    CursorMoved { x: u64, y: u64 },
    /// A key went down or up; `key` is `None` for a key without a name.
    KeyboardInput { key: Option<Key>, pressed: bool },
    MouseWheel { delta: ScrollDelta },
    /// A mouse button went down or up.
    MouseInput { left: bool, pressed: bool },
    CloseRequested,
    Resized { width: u32, height: u32 },
    ScaleFactorChanged { width: u32, height: u32 },
    Other,
}

/// What to do about a window event that nobody used up.
#[derive(Clone, Copy, Debug, PartialEq, Eq)]
pub enum WindowAction {
    /// Leave the event loop.
    Exit,
    /// Resize to the given size.
    Resize { width: u32, height: u32 },
    Nothing,
}

/// What a window event leads to when nobody used it up: a request to close
/// and a press of the escape key end the loop, a new size or scale factor
/// resizes.
pub open spec fn unused_event_action(event: WindowEvent) -> WindowAction {
    match event {
        WindowEvent::CloseRequested => WindowAction::Exit,
        WindowEvent::KeyboardInput { key: Some(Key::Escape), pressed: true } => WindowAction::Exit,
        WindowEvent::Resized { width, height } => WindowAction::Resize { width, height },
        WindowEvent::ScaleFactorChanged { width, height } => WindowAction::Resize { width, height },
        _ => WindowAction::Nothing,
    }
}

/// Decides what to do about a window event that nobody used up.
pub fn window_action(event: &WindowEvent) -> (action: WindowAction)
    ensures
        action == unused_event_action(*event),
{
    match event {
        WindowEvent::CloseRequested => WindowAction::Exit,
        WindowEvent::KeyboardInput { key: Some(Key::Escape), pressed: true } => WindowAction::Exit,
        WindowEvent::Resized { width, height } => WindowAction::Resize {
            width: *width,
            height: *height,
        },
        WindowEvent::ScaleFactorChanged { width, height } => WindowAction::Resize {
            width: *width,
            height: *height,
        },
        _ => WindowAction::Nothing,
    }
}

/// An event of the event loop.
#[derive(Clone, Copy, Debug, PartialEq, Eq)]
pub enum Event {
    /// The mouse moved by (`dx`, `dy`), wherever the pointer is; both are
    /// double-precision values given by their bits.
    MouseMotion { dx: u64, dy: u64 },
    /// A window event; `own_window` says whether it is for the driver's
    /// window.
    Window { own_window: bool, event: WindowEvent },
    RedrawRequested { own_window: bool },
    MainEventsCleared,
    Other,
}

/// What the event loop is to do after an event.
#[derive(Clone, Copy, Debug, PartialEq, Eq)]
pub enum LoopAction<F> {
    Nothing,
    /// Leave the event loop.
    Exit,
    /// The driver resized; the plan is to be carried out.
    Resize(ResizePlan<F>),
    /// A frame is due: update, then render.
    Redraw,
    /// Ask the window for the next redraw.
    RequestRedraw,
}

} // verus!
