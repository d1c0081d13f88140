//! Input events as the router reads them.
//!
//! Coordinates are carried through untouched, so every event type is generic
//! in the vector type `V` that holds them.

use vstd::prelude::*;
use crate::button::ButtonArgs;

verus! {

/// A movement reported by a pointing device.
#[derive(Debug)]
pub enum Motion<V> {
    /// The cursor's position in window coordinates.
    MouseCursor(V),
    /// The cursor's movement since the last report.
    MouseRelative(V),
    /// A scroll, in ticks.
    MouseScroll(V),
    /// A controller axis moved.
    ControllerAxis,
    /// A touch on a touch surface.
    Touch,
}

/// The new size of a resized window.
#[derive(Debug)]
pub struct ResizeArgs<V> {
    /// The window's size in points.
    pub window_size: V,
    /// The drawable area in pixels.
    pub draw_size: [u32; 2],
}

/// A request to close the window.
#[derive(Clone, Copy, Debug)]
pub struct CloseArgs;

/// One input event.
#[derive(Debug)]
pub enum Input<V> {
    /// A button changed state.
    Button(ButtonArgs),
    /// A pointing device moved.
    Move(Motion<V>),
    /// Text was entered.
    Text(String),
    /// The window was resized.
    Resize(ResizeArgs<V>),
    /// The window gained (`true`) or lost focus.
    Focus(bool),
    /// The cursor entered (`true`) or left the window.
    Cursor(bool),
    /// A file is dragged over or dropped on the window.
    FileDrag,
    /// The window is closing.
    Close(CloseArgs),
}

impl<V: Copy> Clone for Motion<V> {
    fn clone(&self) -> (copy: Self)
        ensures
            copy == *self,
    {
        *self
    }
}

impl<V: Copy> Copy for Motion<V> {
}

impl<V: Copy> Clone for ResizeArgs<V> {
    fn clone(&self) -> (copy: Self)
        ensures
            copy == *self,
    {
        *self
    }
}

impl<V: Copy> Copy for ResizeArgs<V> {
}

impl<V> Input<V> {
    /// Whether the router forwards events of this kind at all.
    pub open spec fn routed(self) -> bool {
        match self {
            Input::Button(_) => true,
            Input::Move(Motion::MouseCursor(_)) => true,
            Input::Move(Motion::MouseRelative(_)) => true,
            Input::Move(Motion::MouseScroll(_)) => true,
            Input::Move(_) => false,
            Input::Text(_) => false,
            Input::Resize(_) => true,
            Input::Focus(_) => true,
            Input::Cursor(_) => true,
            Input::FileDrag => false,
            Input::Close(_) => true,
        }
    }
}

} // verus!
