use vstd::prelude::*;
use std::collections::VecDeque;

verus! {

/// What a keyboard holds, as plain values.
pub struct KeyboardState {
    /// The keys pressed and not yet taken, oldest first.
    pub pending: Seq<u8>,
    /// Whether the last attempt to take a key found none and no key has been
    /// pressed since.
    pub starved: bool,
}

impl KeyboardState {
    /// A keyboard on which nothing was pressed and nothing was asked for.
    pub open spec fn idle() -> KeyboardState {
        KeyboardState { pending: Seq::empty(), starved: false }
    }

    /// The keyboard after one more key was pressed.
    pub open spec fn press(self, key: u8) -> KeyboardState {
        KeyboardState { pending: self.pending.push(key), starved: false }
    }

    /// The keyboard after the host said that it has no key to offer: the
    /// keys that wait stay, and nothing is asked for any more.
    pub open spec fn dismiss(self) -> KeyboardState {
        KeyboardState { pending: self.pending, starved: false }
    }

    /// The key that an attempt to take one yields.
    pub open spec fn front(self) -> Option<u8> {
        if self.pending.len() > 0 {
            Some(self.pending[0])
        } else {
            None
        }
    }

    /// The keyboard after an attempt to take a key.
    pub open spec fn take(self) -> KeyboardState {
        if self.pending.len() > 0 {
            KeyboardState { pending: self.pending.drop_first(), starved: false }
        } else {
            KeyboardState { pending: self.pending, starved: true }
        }
    }
}

/// The input stream of the machine: the host presses keys, the machine takes
/// them in the order in which they were pressed.
pub struct Keyboard {
    pending: VecDeque<u8>,
    starved: bool,
}

impl View for Keyboard {
    type V = KeyboardState;

    closed spec fn view(&self) -> KeyboardState {
        KeyboardState { pending: self.pending@, starved: self.starved }
    }
}

impl Keyboard {
    /// A keyboard on which nothing was pressed yet.
    pub fn new() -> (keyboard: Keyboard)
        ensures
            keyboard@ == KeyboardState::idle(),
    {
        Keyboard { pending: VecDeque::new(), starved: false }
    }

    /// Records one key press.
    pub fn press(&mut self, key: u8)
        ensures
            final(self)@ == old(self)@.press(key),
    {
        self.pending.push_back(key);
        self.starved = false;
    }

    /// Records that the host has no key to offer. The keyboard is starved
    /// again when the machine next looks for a key and finds none.
    pub fn dismiss(&mut self)
        ensures
            final(self)@ == old(self)@.dismiss(),
    {
        self.starved = false;
    }

    /// Takes the oldest key that was pressed and not taken, if there is one.
    pub fn take(&mut self) -> (key: Option<u8>)
        ensures
            key == old(self)@.front(),
            final(self)@ == old(self)@.take(),
    {
        let key = self.pending.pop_front();
        self.starved = key.is_none();
        proof {
            if old(self)@.pending.len() > 0 {
                assert(self.pending@ =~= old(self)@.pending.drop_first());
            } else {
                assert(self.pending@ =~= old(self)@.pending);
            }
        }
        key
    }

    /// How many keys wait to be taken.
    pub fn pending(&self) -> (n: usize)
        ensures
            n == self@.pending.len(),
    {
        self.pending.len()
    }

    /// Whether the machine looked for a key, found none, and none was pressed
    /// since.
    pub fn is_starved(&self) -> (starved: bool)
        ensures
            starved == self@.starved,
    {
        self.starved
    }
}

} // verus!
