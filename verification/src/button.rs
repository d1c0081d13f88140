//! Buttons, button events and the set of buttons that are held down.

use vstd::prelude::*;

verus! {

/// The position of a controller hat.
#[derive(Clone, Copy, Debug, PartialEq, Eq, Hash, Structural)]
pub enum HatState {
    Centered,
    Up,
    Right,
    Down,
    Left,
    RightUp,
    RightDown,
    LeftUp,
    LeftDown,
}

/// A button on any input device, identified by plain numbers.
#[derive(Clone, Copy, Debug, PartialEq, Eq, Hash, Structural)]
pub enum Button {
    /// A keyboard key, by its key code.
    Keyboard(u32),
    /// A mouse button, by its number.
    Mouse(u32),
    /// A button of the controller `id`.
    Controller { id: u32, button: u8 },
    /// The hat `which` of the controller `id`, in a given position.
    Hat { id: u32, state: HatState, which: u8 },
}

/// Whether a button went down or came up.
#[derive(Clone, Copy, Debug, PartialEq, Eq, Hash, Structural)]
pub enum ButtonState {
    Press,
    Release,
}

/// A change of one button's state.
#[derive(Clone, Copy, Debug, PartialEq, Eq, Hash, Structural)]
pub struct ButtonArgs {
    /// The new state of the button.
    pub state: ButtonState,
    /// The button that changed.
    pub button: Button,
    /// The physical key position, where the device reports one.
    pub scancode: Option<i32>,
}

/// A finite set of buttons.
///
/// The buttons are kept in a vector in which none occurs twice; the view is
/// the mathematical set of its entries.
#[derive(Debug)]
pub struct ButtonSet {
    buttons: Vec<Button>,
}

impl View for ButtonSet {
    type V = Set<Button>;

    closed spec fn view(&self) -> Set<Button> {
        self.buttons@.to_set()
    }
}

impl ButtonSet {
    #[verifier::type_invariant]
    spec fn distinct(self) -> bool {
        self.buttons@.no_duplicates()
    }

    /// Every button set is finite.
    pub proof fn lemma_finite(&self)
        ensures
            self@.finite(),
    {
        vstd::seq_lib::seq_to_set_is_finite(self.buttons@);
    }

    /// The empty set.
    pub fn new() -> (set: Self)
        ensures
            set@ == Set::<Button>::empty(),
    {
        let set = ButtonSet { buttons: Vec::new() };
        assert(set.buttons@.to_set() =~= Set::<Button>::empty());
        set
    }

    /// The set of the buttons in `buttons`.
    pub fn from_slice(buttons: &[Button]) -> (set: Self)
        ensures
            set@ == buttons@.to_set(),
    {
        let mut set = ButtonSet::new();
        let n: usize = buttons.len();
        let mut i: usize = 0;
        while i < n
            invariant
                n == buttons@.len(),
                i <= n,
                set@ == buttons@.take(i as int).to_set(),
            decreases n - i,
        {
            set.insert(buttons[i]);
            proof {
                assert(buttons@.take(i + 1) == buttons@.take(i as int).push(buttons@[i as int]));
                buttons@.take(i as int).lemma_push_to_set_commute(buttons@[i as int]);
            }
            i += 1;
        }
        assert(buttons@.take(n as int) == buttons@);
        set
    }

    /// The number of buttons in the set.
    pub fn len(&self) -> (n: usize)
        ensures
            n == self@.len(),
    {
        proof {
            use_type_invariant(self);
            self.buttons@.unique_seq_to_set();
        }
        self.buttons.len()
    }

    /// Whether the set holds no button.
    pub fn is_empty(&self) -> (empty: bool)
        ensures
            empty == (self@ == Set::<Button>::empty()),
    {
        proof {
            use_type_invariant(self);
            self.buttons@.unique_seq_to_set();
            if self.buttons@.len() > 0 {
                assert(self.buttons@.contains(self.buttons@[0]));
            } else {
                assert(self.buttons@.to_set() =~= Set::<Button>::empty());
            }
        }
        self.buttons.len() == 0
    }

    /// Where `button` stands in the vector, if it is in the set.
    fn position(&self, button: &Button) -> (at: Option<usize>)
        ensures
            match at {
                Some(i) => i < self.buttons@.len() && self.buttons@[i as int] == *button,
                None => !self@.contains(*button),
            },
    {
        let n: usize = self.buttons.len();
        let mut i: usize = 0;
        while i < n
            invariant
                n == self.buttons@.len(),
                i <= n,
                forall|j: int| 0 <= j < i ==> self.buttons@[j] != *button,
            decreases n - i,
        {
            if self.buttons[i] == *button {
                return Some(i);
            }
            i += 1;
        }
        None
    }

    /// Whether `button` is in the set.
    pub fn contains(&self, button: &Button) -> (found: bool)
        ensures
            found == self@.contains(*button),
    {
        let at = self.position(button);
        proof {
            if let Some(i) = at {
                assert(self.buttons@.contains(*button));
            }
        }
        at.is_some()
    }

    /// Adds `button` to the set; returns whether it was new.
    pub fn insert(&mut self, button: Button) -> (added: bool)
        ensures
            final(self)@ == old(self)@.insert(button),
            added == !old(self)@.contains(button),
    {
        proof {
            use_type_invariant(&*self);
        }
        if self.contains(&button) {
            assert(self@ =~= self@.insert(button));
            false
        } else {
            let ghost before = self.buttons@;
            let mut buttons: Vec<Button> = Vec::new();
            std::mem::swap(&mut buttons, &mut self.buttons);
            buttons.push(button);
            assert(buttons@.no_duplicates());
            self.buttons = buttons;
            proof {
                before.lemma_push_to_set_commute(button);
            }
            true
        }
    }

    /// Takes `button` out of the set; returns whether it was there.
    pub fn remove(&mut self, button: &Button) -> (removed: bool)
        ensures
            final(self)@ == old(self)@.remove(*button),
            removed == old(self)@.contains(*button),
    {
        proof {
            use_type_invariant(&*self);
        }
        match self.position(button) {
            Some(i) => {
                let ghost before = self.buttons@;
                assert(before.contains(*button));
                let mut buttons: Vec<Button> = Vec::new();
                std::mem::swap(&mut buttons, &mut self.buttons);
                buttons.remove(i);
                proof {
                    let after = buttons@;
                    assert(after == before.remove(i as int));
                    assert forall|j: int, k: int|
                        0 <= j < after.len() && 0 <= k < after.len() && j != k implies after[j]
                        != after[k] by {
                        let jj = if j < i { j } else { j + 1 };
                        let kk = if k < i { k } else { k + 1 };
                        assert(after[j] == before[jj] && after[k] == before[kk]);
                    }
                }
                self.buttons = buttons;
                proof {
                    let after = self.buttons@;
                    assert(after.to_set() =~= before.to_set().remove(*button)) by {
                        assert forall|b: Button|
                            after.contains(b) implies before.contains(b) && b != *button by {
                            let k = choose|k: int| 0 <= k < after.len() && after[k] == b;
                            let kk = if k < i { k } else { k + 1 };
                            assert(before[kk] == b);
                        }
                        assert forall|b: Button|
                            before.contains(b) && b != *button implies after.contains(b) by {
                            let k = choose|k: int| 0 <= k < before.len() && before[k] == b;
                            let kk = if k < i { k } else { k - 1 };
                            assert(after[kk] == b);
                        }
                    }
                }
                true
            },
            None => {
                assert(self@ =~= self@.remove(*button));
                false
            },
        }
    }

    /// Whether every button of `self` is in `other`.
    pub fn is_subset(&self, other: &ButtonSet) -> (within: bool)
        ensures
            within == self@.subset_of(other@),
    {
        let n: usize = self.buttons.len();
        let mut i: usize = 0;
        while i < n
            invariant
                n == self.buttons@.len(),
                i <= n,
                forall|j: int| 0 <= j < i ==> other@.contains(self.buttons@[j]),
            decreases n - i,
        {
            if !other.contains(&self.buttons[i]) {
                assert(self.buttons@.contains(self.buttons@[i as int]));
                return false;
            }
            i += 1;
        }
        assert forall|b: Button| self@.contains(b) implies other@.contains(b) by {
            let k = choose|k: int| 0 <= k < self.buttons@.len() && self.buttons@[k] == b;
        }
        true
    }

    /// The buttons of the set, each once, in no particular order.
    pub fn to_vec(&self) -> (list: Vec<Button>)
        ensures
            list@.to_set() == self@,
            list@.no_duplicates(),
    {
        proof {
            use_type_invariant(self);
        }
        self.buttons.clone()
    }
}

impl PartialEq for ButtonSet {
    /// Two button sets are equal when they hold the same buttons.
    fn eq(&self, other: &ButtonSet) -> (same: bool) {
        if self.len() != other.len() {
            return false;
        }
        let within = self.is_subset(other);
        proof {
            self.lemma_finite();
            other.lemma_finite();
            if within {
                vstd::set_lib::lemma_subset_equality(self@, other@);
            }
        }
        within
    }
}

impl vstd::std_specs::cmp::PartialEqSpecImpl for ButtonSet {
    open spec fn obeys_eq_spec() -> bool {
        true
    }

    open spec fn eq_spec(&self, other: &ButtonSet) -> bool {
        self@ == other@
    }
}

impl Clone for ButtonSet {
    fn clone(&self) -> (copy: Self)
        ensures
            copy@ == self@,
    {
        proof {
            use_type_invariant(self);
        }
        ButtonSet { buttons: self.buttons.clone() }
    }
}

} // verus!
