//! The capabilities of an input consumer, one trait each.
//!
//! Every capability has the same shape: `accepts` says whether the consumer
//! takes events of that kind at the moment, and `consume` takes one. The
//! router asks `accepts` before every call of `consume`, and `consume` may
//! rely on that. Beside `accepts` stands a specification function of the
//! capability's own, which says in contracts what `accepts` answers; it is
//! `false` for a consumer that does not state otherwise.

use vstd::prelude::*;
use crate::button::{Button, ButtonSet, ButtonState};
use crate::event::{CloseArgs, ResizeArgs};

verus! {

/// Receives every button event.
pub trait AnyButtonConsumer {
    /// Whether this consumer currently takes button events of any button.
    open spec fn wants_any_button(&self) -> bool {
        false
    }

    /// Whether the consumer takes events of this kind now.
    fn accepts(&self) -> (yes: bool)
        ensures
            yes == self.wants_any_button(),
    ;

    /// Takes one event. Called only on a consumer that accepts.
    fn consume(&mut self, button: Button, state: ButtonState)
        requires
            old(self).wants_any_button(),
    ;
}

/// Receives the events of one button.
pub trait ButtonConsumer {
    /// Whether this consumer currently takes the events of its button.
    open spec fn wants_button(&self) -> bool {
        false
    }

    /// The button this consumer watches, if it has chosen one.
    open spec fn watched_button(&self) -> Option<Button> {
        None
    }

    /// Whether the consumer takes events of this kind now.
    fn accepts(&self) -> (yes: bool)
        ensures
            yes == self.wants_button(),
    ;

    /// Takes one event. Called only on a consumer that accepts.
    fn consume(&mut self, state: ButtonState)
        requires
            old(self).wants_button(),
    ;

    /// The button whose events the consumer takes, if it has chosen one.
    fn get_button(&self) -> (button: Option<Button>)
        ensures
            button == self.watched_button(),
    ;
}

/// Is notified when exactly its set of buttons is held.
pub trait HotkeyConsumer {
    /// Whether this consumer currently takes hotkey notifications.
    open spec fn wants_hotkey(&self) -> bool {
        false
    }

    /// The buttons that make up this consumer's hotkey.
    open spec fn hotkeys(&self) -> Set<Button> {
        Set::empty()
    }

    /// Whether the consumer takes events of this kind now.
    fn accepts(&self) -> (yes: bool)
        ensures
            yes == self.wants_hotkey(),
    ;

    /// Takes one event. Called only on a consumer that accepts.
    fn consume(&mut self)
        requires
            old(self).wants_hotkey(),
    ;

    /// The consumer's hotkey. Asked only of a consumer that accepts.
    fn get_hotkeys(&self) -> (keys: &ButtonSet)
        requires
            self.wants_hotkey(),
        ensures
            keys@ == self.hotkeys(),
    ;
}

/// Receives the cursor's position.
pub trait CursorPositionConsumer<V> {
    /// Whether this consumer currently takes cursor positions.
    open spec fn wants_cursor_position(&self) -> bool {
        false
    }

    /// Whether the consumer takes events of this kind now.
    fn accepts(&self) -> (yes: bool)
        ensures
            yes == self.wants_cursor_position(),
    ;

    /// Takes one event. Called only on a consumer that accepts.
    fn consume(&mut self, pos: V)
        requires
            old(self).wants_cursor_position(),
    ;
}

/// Receives the cursor's relative movement.
pub trait CursorMotionConsumer<V> {
    /// Whether this consumer currently takes cursor movements.
    open spec fn wants_cursor_motion(&self) -> bool {
        false
    }

    /// Whether the consumer takes events of this kind now.
    fn accepts(&self) -> (yes: bool)
        ensures
            yes == self.wants_cursor_motion(),
    ;

    /// Takes one event. Called only on a consumer that accepts.
    fn consume(&mut self, change: V)
        requires
            old(self).wants_cursor_motion(),
    ;
}

/// Receives scroll movements.
pub trait ScrollConsumer<V> {
    /// Whether this consumer currently takes scroll movements.
    open spec fn wants_scroll(&self) -> bool {
        false
    }

    /// Whether the consumer takes events of this kind now.
    fn accepts(&self) -> (yes: bool)
        ensures
            yes == self.wants_scroll(),
    ;

    /// Takes one event. Called only on a consumer that accepts.
    fn consume(&mut self, change: V)
        requires
            old(self).wants_scroll(),
    ;
}

/// Receives the window's new size.
pub trait ResizeConsumer<V> {
    /// Whether this consumer currently takes resize events.
    open spec fn wants_resize(&self) -> bool {
        false
    }

    /// Whether the consumer takes events of this kind now.
    fn accepts(&self) -> (yes: bool)
        ensures
            yes == self.wants_resize(),
    ;

    /// Takes one event. Called only on a consumer that accepts.
    fn consume(&mut self, args: ResizeArgs<V>)
        requires
            old(self).wants_resize(),
    ;
}

/// Is told when the window gains or loses focus.
pub trait FocusConsumer {
    /// Whether this consumer currently takes focus changes.
    open spec fn wants_focus(&self) -> bool {
        false
    }

    /// Whether the consumer takes events of this kind now.
    fn accepts(&self) -> (yes: bool)
        ensures
            yes == self.wants_focus(),
    ;

    /// Takes one event. Called only on a consumer that accepts.
    fn consume(&mut self, focus: bool)
        requires
            old(self).wants_focus(),
    ;
}

/// Is told when the cursor enters or leaves the window.
pub trait CursorInWindowConsumer {
    /// Whether this consumer currently takes cursor enter and leave events.
    open spec fn wants_cursor_in_window(&self) -> bool {
        false
    }

    /// Whether the consumer takes events of this kind now.
    fn accepts(&self) -> (yes: bool)
        ensures
            yes == self.wants_cursor_in_window(),
    ;

    /// Takes one event. Called only on a consumer that accepts.
    fn consume(&mut self, cursor_in_window: bool)
        requires
            old(self).wants_cursor_in_window(),
    ;
}

/// Is told when the window closes.
pub trait CloseConsumer {
    /// Whether this consumer currently takes close requests.
    open spec fn wants_close(&self) -> bool {
        false
    }

    /// Whether the consumer takes events of this kind now.
    fn accepts(&self) -> (yes: bool)
        ensures
            yes == self.wants_close(),
    ;

    /// Takes one event. Called only on a consumer that accepts.
    fn consume(&mut self, args: CloseArgs)
        requires
            old(self).wants_close(),
    ;
}

/// A consumer of input: one value that answers for every capability.
pub trait InputConsumer<V>:
    AnyButtonConsumer
    + ButtonConsumer
    + HotkeyConsumer
    + CursorPositionConsumer<V>
    + CursorMotionConsumer<V>
    + ScrollConsumer<V>
    + ResizeConsumer<V>
    + FocusConsumer
    + CursorInWindowConsumer
    + CloseConsumer
{
}

} // verus!
