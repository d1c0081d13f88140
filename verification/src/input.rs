//! The input router: the handler that forwards each event to the consumers
//! that accept it, and keeps track of the buttons that are held.

use vstd::prelude::*;
use crate::button::{Button, ButtonArgs, ButtonSet, ButtonState};
use crate::event::{Input, Motion};
pub use crate::consumer::{
    AnyButtonConsumer, ButtonConsumer, CloseConsumer, CursorInWindowConsumer,
    CursorMotionConsumer, CursorPositionConsumer, FocusConsumer, HotkeyConsumer, InputConsumer,
    ResizeConsumer, ScrollConsumer,
};

verus! {

/// The held buttons after one button changed state: a press adds the button,
/// a release takes it out.
pub open spec fn held_after(held: Set<Button>, change: ButtonArgs) -> Set<Button> {
    match change.state {
        ButtonState::Press => held.insert(change.button),
        ButtonState::Release => held.remove(change.button),
    }
}

/// The held buttons after `event`: only a button event changes them.
pub open spec fn held_after_event<V>(held: Set<Button>, event: Input<V>) -> Set<Button> {
    match event {
        Input::Button(change) => held_after(held, change),
        _ => held,
    }
}

/// Whether a consumer that watches `watched` is meant by a change of `changed`.
pub open spec fn button_watched(watched: Option<Button>, changed: Button) -> bool {
    watched == Some(changed)
}

/// Whether the change of `changed` completes the hotkey `keys`: the held
/// buttons are exactly `keys`, and `changed` is one of them.
pub open spec fn hotkey_completed(keys: Set<Button>, held: Set<Button>, changed: Button) -> bool {
    keys == held && keys.contains(changed)
}

/// Whether `call` is a call on a consumer in the state `before` that leaves
/// it in the state `after`, where `done` is what `call` refers to once the
/// call is over.
#[verifier::inline]
pub open spec fn spans<C: ?Sized>(call: &mut C, done: &C, before: &C, after: &C) -> bool {
    &*call == before && done == after
}

/// Whether `call` is a call of the any-button capability with `change`.
#[verifier::inline]
pub open spec fn any_button_call<C: AnyButtonConsumer + ?Sized>(
    call: &mut C,
    change: ButtonArgs,
) -> bool {
    call_ensures(<C as AnyButtonConsumer>::consume, (call, change.button, change.state), ())
}

/// Whether `call` is a call of the button capability with `change`.
#[verifier::inline]
pub open spec fn button_call<C: ButtonConsumer + ?Sized>(call: &mut C, change: ButtonArgs) -> bool {
    call_ensures(<C as ButtonConsumer>::consume, (call, change.state), ())
}

/// Whether `call` is a call of the hotkey capability.
#[verifier::inline]
pub open spec fn hotkey_call<C: HotkeyConsumer + ?Sized>(call: &mut C) -> bool {
    call_ensures(<C as HotkeyConsumer>::consume, (call,), ())
}

/// Whether `consumer` accepts what `event` brings, for an event that goes to
/// one capability: what that capability's `accepts` answers. It is `false`
/// for an event that is not forwarded at all.
pub open spec fn wanted<V, C: InputConsumer<V> + ?Sized>(consumer: &C, event: Input<V>) -> bool {
    match event {
        Input::Move(Motion::MouseCursor(_)) => consumer.wants_cursor_position(),
        Input::Move(Motion::MouseRelative(_)) => consumer.wants_cursor_motion(),
        Input::Move(Motion::MouseScroll(_)) => consumer.wants_scroll(),
        Input::Resize(_) => consumer.wants_resize(),
        Input::Focus(_) => consumer.wants_focus(),
        Input::Cursor(_) => consumer.wants_cursor_in_window(),
        Input::Close(_) => consumer.wants_close(),
        _ => false,
    }
}

/// Whether `call` is the call that forwards `event`, for an event that goes
/// to one capability: a call of that capability's `consume` with the event's
/// payload.
#[verifier::inline]
pub open spec fn delivers<V, C: InputConsumer<V> + ?Sized>(call: &mut C, event: Input<V>) -> bool {
    match event {
        Input::Move(Motion::MouseCursor(pos)) => call_ensures(
            <C as CursorPositionConsumer<V>>::consume,
            (call, pos),
            (),
        ),
        Input::Move(Motion::MouseRelative(change)) => call_ensures(
            <C as CursorMotionConsumer<V>>::consume,
            (call, change),
            (),
        ),
        Input::Move(Motion::MouseScroll(change)) => call_ensures(
            <C as ScrollConsumer<V>>::consume,
            (call, change),
            (),
        ),
        Input::Resize(args) => call_ensures(<C as ResizeConsumer<V>>::consume, (call, args), ()),
        Input::Focus(focus) => call_ensures(<C as FocusConsumer>::consume, (call, focus), ()),
        Input::Cursor(inside) => call_ensures(
            <C as CursorInWindowConsumer>::consume,
            (call, inside),
            (),
        ),
        Input::Close(args) => call_ensures(<C as CloseConsumer>::consume, (call, args), ()),
        _ => false,
    }
}

/// The held buttons follow the button events exactly.
///
/// After a press the pressed button is held, and nothing else has changed;
/// after the release that matches it the button is no longer held; and the
/// release of a button that is not held leaves the held buttons as they were.
pub proof fn lemma_held_buttons_follow_events<V>(
    held: Set<Button>,
    press: ButtonArgs,
    release: ButtonArgs,
)
    requires
        press.state == ButtonState::Press,
        release.state == ButtonState::Release,
        release.button == press.button,
    ensures
        held_after_event(held, Input::<V>::Button(press)) == held.insert(press.button),
        held_after_event(held, Input::<V>::Button(press)).contains(press.button),
        !held_after_event(
            held_after_event(held, Input::<V>::Button(press)),
            Input::<V>::Button(release),
        ).contains(press.button),
        held_after_event(held, Input::<V>::Button(release)) == held.remove(release.button),
        !held.contains(release.button) ==> held_after_event(held, Input::<V>::Button(release))
            == held,
{
    if !held.contains(release.button) {
        assert(held.remove(release.button) =~= held);
    }
}

/// Only button events touch the held buttons.
pub proof fn lemma_other_events_keep_held_buttons<V>(held: Set<Button>, event: Input<V>)
    requires
        !(event is Button),
    ensures
        held_after_event(held, event) == held,
{
}

/// A hotkey fires on an exact match only, and only on the event that
/// completes it.
///
/// If the change of a button completes the hotkey, the held buttons are
/// exactly the hotkey and the changed button is one of its buttons. So the
/// hotkey stays silent while a button beyond its own is held, and while one
/// of its own is missing.
pub proof fn lemma_hotkey_needs_exact_match(keys: Set<Button>, held: Set<Button>, changed: Button)
    ensures
        hotkey_completed(keys, held, changed) ==> held == keys && keys.contains(changed),
        (exists|extra: Button| held.contains(extra) && !keys.contains(extra))
            ==> !hotkey_completed(keys, held, changed),
        (exists|missing: Button| keys.contains(missing) && !held.contains(missing))
            ==> !hotkey_completed(keys, held, changed),
{
}

/// The press of the last missing button of a hotkey completes it.
pub proof fn lemma_hotkey_fires_when_completed(
    keys: Set<Button>,
    held: Set<Button>,
    press: ButtonArgs,
)
    requires
        press.state == ButtonState::Press,
        held.insert(press.button) == keys,
    ensures
        hotkey_completed(keys, held_after(held, press), press.button),
{
}

/// A hotkey does not fire again on events of buttons that are not part of it,
/// whatever is held: neither on their press nor on their release.
pub proof fn lemma_hotkey_ignores_other_buttons(
    keys: Set<Button>,
    held: Set<Button>,
    change: ButtonArgs,
)
    requires
        !keys.contains(change.button),
    ensures
        !hotkey_completed(keys, held_after(held, change), change.button),
{
}

/// Routes input events to consumers and keeps track of the held buttons.
pub struct InputHandler {
    /// The buttons that are held down.
    pub pressed_buttons: ButtonSet,
}

impl InputHandler {
    /// A handler with no button held.
    pub fn new() -> (handler: Self)
        ensures
            handler.pressed_buttons@ == Set::<Button>::empty(),
    {
        InputHandler { pressed_buttons: ButtonSet::new() }
    }

    /// Records one change of a button's state in the held buttons.
    pub fn record(&mut self, change: &ButtonArgs)
        ensures
            final(self).pressed_buttons@ == held_after(old(self).pressed_buttons@, *change),
    {
        match change.state {
            ButtonState::Press => {
                self.pressed_buttons.insert(change.button);
            },
            ButtonState::Release => {
                self.pressed_buttons.remove(&change.button);
            },
        }
    }

    /// Whether the change of `changed` completes the hotkey `keys`, given the
    /// buttons that are held now.
    pub fn completes(&self, keys: &ButtonSet, changed: &Button) -> (fires: bool)
        ensures
            fires == hotkey_completed(keys@, self.pressed_buttons@, *changed),
    {
        *keys == self.pressed_buttons && keys.contains(changed)
    }

    /// Offers `event` to one consumer, with the held buttons as they stand.
    ///
    /// The event goes to each capability that it concerns and that the
    /// consumer accepts, with the event's own payload:
    /// - a button event first to the any-button capability; then to the
    ///   button capability, if the consumer watches the changed button; then
    ///   to the hotkey capability, if the held buttons are exactly the
    ///   consumer's hotkey and the changed button is one of them. Each of the
    ///   three is asked whether it accepts when its turn comes;
    /// - a cursor position, a cursor movement, a scroll, a resize, a focus
    ///   change, a cursor enter or leave and a close request each to the
    ///   capability of that name;
    /// - any other event to nobody.
    ///
    /// Where nothing is forwarded the consumer is left as it was. Where
    /// something is, the consumer has gone through that call of `consume`,
    /// so whatever the consumer's own contract promises of the call holds.
    pub fn forward<V: Copy, C: InputConsumer<V> + ?Sized>(
        &self,
        event: &Input<V>,
        consumer: &mut C,
    )
        ensures
            match *event {
                Input::Button(change) => (exists|first: &C, second: &C|
                    {
                        &&& if old(consumer).wants_any_button() {
                            exists|call: &mut C|
                                spans(call, &*final(call), &*old(consumer), first)
                                    && any_button_call(call, change)
                        } else {
                            first == &*old(consumer)
                        }
                        &&& if first.wants_button() && button_watched(
                            first.watched_button(),
                            change.button,
                        ) {
                            exists|call: &mut C|
                                spans(call, &*final(call), first, second) && button_call(
                                    call,
                                    change,
                                )
                        } else {
                            second == first
                        }
                        &&& if second.wants_hotkey() && hotkey_completed(
                            second.hotkeys(),
                            self.pressed_buttons@,
                            change.button,
                        ) {
                            exists|call: &mut C|
                                spans(call, &*final(call), second, &*final(consumer))
                                    && hotkey_call(call)
                        } else {
                            &*final(consumer) == second
                        }
                    }),
                _ => (if wanted(&*old(consumer), *event) {
                    exists|call: &mut C|
                        spans(call, &*final(call), &*old(consumer), &*final(consumer))
                            && delivers(call, *event)
                } else {
                    &*final(consumer) == &*old(consumer)
                }),
            },
    {
        match event {
            Input::Button(change) => {
                if AnyButtonConsumer::accepts(consumer) {
                    AnyButtonConsumer::consume(consumer, change.button, change.state);
                }
                if ButtonConsumer::accepts(consumer) {
                    if watches(ButtonConsumer::get_button(consumer), &change.button) {
                        ButtonConsumer::consume(consumer, change.state);
                    }
                }
                if HotkeyConsumer::accepts(consumer) {
                    if self.completes(HotkeyConsumer::get_hotkeys(consumer), &change.button) {
                        HotkeyConsumer::consume(consumer);
                    }
                }
            },
            Input::Move(motion) => match motion {
                Motion::MouseCursor(pos) => {
                    if CursorPositionConsumer::accepts(consumer) {
                        CursorPositionConsumer::consume(consumer, *pos);
                    }
                },
                Motion::MouseRelative(change) => {
                    if CursorMotionConsumer::accepts(consumer) {
                        CursorMotionConsumer::consume(consumer, *change);
                    }
                },
                Motion::MouseScroll(change) => {
                    if ScrollConsumer::accepts(consumer) {
                        ScrollConsumer::consume(consumer, *change);
                    }
                },
                _ => {},
            },
            Input::Resize(args) => {
                if ResizeConsumer::accepts(consumer) {
                    ResizeConsumer::consume(consumer, *args);
                }
            },
            Input::Focus(focus) => {
                if FocusConsumer::accepts(consumer) {
                    FocusConsumer::consume(consumer, *focus);
                }
            },
            Input::Cursor(inside) => {
                if CursorInWindowConsumer::accepts(consumer) {
                    CursorInWindowConsumer::consume(consumer, *inside);
                }
            },
            Input::Close(args) => {
                if CloseConsumer::accepts(consumer) {
                    CloseConsumer::consume(consumer, *args);
                }
            },
            _ => {},
        }
    }

    /// Hands `event` to each consumer in turn, in the order of the list.
    ///
    /// A button event is first recorded in the held buttons, before any
    /// consumer runs. Every slot of the list still borrows the consumer it
    /// borrowed before, and each consumer has gone through one call of
    /// [`InputHandler::forward`] by the handler as it stands after the event.
    /// An event that is not routed leaves every consumer as it was.
    pub fn consume<V: Copy, C: InputConsumer<V> + ?Sized>(
        &mut self,
        event: Input<V>,
        consumers: &mut [&mut C],
    )
        ensures
            final(self).pressed_buttons@ == held_after_event(old(self).pressed_buttons@, event),
            final(consumers)@.len() == old(consumers)@.len(),
            // Every slot ends up borrowing what it borrowed at first.
            forall|i: int|
                #![trigger old(consumers)@[i]]
                #![trigger final(consumers)@[i]]
                0 <= i < old(consumers)@.len()
                    ==> &*final(final(consumers)@[i]) == &*final(old(consumers)@[i]),
            // The consumer in each such slot, that is in every slot, has gone
            // through one call of `forward`.
            forall|i: int|
                #![trigger old(consumers)@[i]]
                #![trigger final(consumers)@[i]]
                0 <= i < old(consumers)@.len()
                    && &*final(final(consumers)@[i]) == &*final(old(consumers)@[i])
                    ==> exists|call: &mut C|
                    spans(call, &*final(call), &*old(consumers)@[i], &*final(consumers)@[i])
                        && offers(&*final(self), &event, call),
            !event.routed() ==> forall|i: int|
                #![trigger old(consumers)@[i]]
                #![trigger final(consumers)@[i]]
                0 <= i < old(consumers)@.len() ==> &*final(consumers)@[i] == &*old(consumers)@[i],
    {
        if let Input::Button(change) = &event {
            self.record(change);
        }
        let n: usize = consumers.len();
        let mut i: usize = 0;
        while i < n
            invariant
                i <= n,
                n == consumers@.len(),
                n == old(consumers)@.len(),
                forall|j: int|
                    #![trigger old(consumers)@[j]]
                    #![trigger consumers@[j]]
                    0 <= j < n ==> &*final(consumers@[j]) == &*final(old(consumers)@[j]),
                forall|j: int|
                    #![trigger old(consumers)@[j]]
                    #![trigger consumers@[j]]
                    0 <= j < i && &*final(consumers@[j]) == &*final(old(consumers)@[j])
                        ==> exists|call: &mut C|
                        spans(call, &*final(call), &*old(consumers)@[j], &*consumers@[j])
                            && offers(&*self, &event, call),
                forall|j: int|
                    #![trigger old(consumers)@[j]]
                    #![trigger consumers@[j]]
                    i <= j < n ==> consumers@[j] == old(consumers)@[j],
                !event.routed() ==> forall|j: int|
                    #![trigger old(consumers)@[j]]
                    #![trigger consumers@[j]]
                    0 <= j < n ==> &*consumers@[j] == &*old(consumers)@[j],
            decreases n - i,
        {
            let con = &mut consumers[i];
            self.forward(&event, &mut **con);
            i += 1;
        }
    }
}

/// Whether `call` is a call of [`InputHandler::forward`] by `handler` that
/// offers `event`.
#[verifier::inline]
pub open spec fn offers<V: Copy, C: InputConsumer<V> + ?Sized>(
    handler: &InputHandler,
    event: &Input<V>,
    call: &mut C,
) -> bool {
    call_ensures(InputHandler::forward::<V, C>, (handler, event, call), ())
}

/// Whether a consumer that declared `watched` takes a change of `changed`.
pub fn watches(watched: Option<Button>, changed: &Button) -> (meant: bool)
    ensures
        meant == button_watched(watched, *changed),
{
    match watched {
        Some(button) => button == *changed,
        None => false,
    }
}

} // verus!
