use vstd::prelude::*;
use crate::input::button::{Button, BUTTON_COUNT};
use crate::vecs::vec2::Vec2;

verus! {

/// Which buttons are held down and where the mouse pointer was last seen.
///
/// A snapshot starts with every button up and the pointer at the origin. It
/// then follows the presses, releases and moves that it is told of, in the
/// order in which they come, and is never rolled back.
#[derive(Clone, Copy, Debug)]
pub struct InputSnapshot {
    down: [bool; BUTTON_COUNT],
    mouse_position: Vec2,
}

impl InputSnapshot {
    /// The buttons that are held down. `Button::Unknown` is never among them.
    pub closed spec fn held(&self) -> Set<Button> {
        Set::new(
            |button: Button|
                match button.slot() {
                    Some(i) => self.down@[i as int],
                    None => false,
                },
        )
    }

    /// Where the mouse pointer was last seen.
    pub closed spec fn pointer(&self) -> Vec2 {
        self.mouse_position
    }

    /// The snapshot of a process that has seen no input yet.
    pub fn new() -> (snapshot: InputSnapshot)
        ensures
            snapshot.held() == Set::<Button>::empty(),
            snapshot.pointer() == Vec2::of_bits(0, 0),
    {
        let snapshot = InputSnapshot { down: [false; BUTTON_COUNT], mouse_position: Vec2::zero() };
        assert(snapshot.held() =~= Set::<Button>::empty()) by {
            assert forall|button: Button| !snapshot.held().contains(button) by {
                Button::lemma_slots_distinct(button, button);
            }
        }
        snapshot
    }

    /// Whether `button` is held down.
    pub fn is_down(&self, button: Button) -> (down: bool)
        ensures
            down == self.held().contains(button),
    {
        proof {
            Button::lemma_slots_distinct(button, button);
        }
        match button.slot_of() {
            Some(i) => self.down[i],
            None => false,
        }
    }

    /// Where the mouse pointer was last seen.
    pub fn mouse_position(&self) -> (position: Vec2)
        ensures
            position == self.pointer(),
    {
        self.mouse_position
    }

    /// Records that `button` went down. `Button::Unknown` has no flag, and
    /// pressing it changes nothing.
    pub fn press(&mut self, button: Button)
        ensures
            final(self).held() == if button == Button::Unknown {
                old(self).held()
            } else {
                old(self).held().insert(button)
            },
            final(self).pointer() == old(self).pointer(),
    {
        self.set(button, true);
    }

    /// Records that `button` went up. `Button::Unknown` has no flag, and
    /// releasing it changes nothing.
    pub fn release(&mut self, button: Button)
        ensures
            final(self).held() == old(self).held().remove(button),
            final(self).pointer() == old(self).pointer(),
    {
        self.set(button, false);
        proof {
            Button::lemma_slots_distinct(button, button);
            assert(old(self).held().remove(Button::Unknown) =~= old(self).held());
        }
    }

    /// Records that the mouse pointer is now at `position`.
    pub fn move_mouse(&mut self, position: Vec2)
        ensures
            final(self).held() == old(self).held(),
            final(self).pointer() == position,
    {
        self.mouse_position = position;
        assert(self.held() =~= old(self).held());
    }

    fn set(&mut self, button: Button, down: bool)
        ensures
            final(self).pointer() == old(self).pointer(),
            final(self).held() == if button == Button::Unknown {
                old(self).held()
            } else if down {
                old(self).held().insert(button)
            } else {
                old(self).held().remove(button)
            },
    {
        proof {
            Button::lemma_slots_distinct(button, button);
        }
        match button.slot_of() {
            Some(i) => {
                self.down[i] = down;
                proof {
                    let expected = if down {
                        old(self).held().insert(button)
                    } else {
                        old(self).held().remove(button)
                    };
                    assert forall|other: Button|
                        self.held().contains(other) == expected.contains(other) by {
                        Button::lemma_slots_distinct(other, button);
                    }
                    assert(self.held() =~= expected);
                }
            },
            None => {
                assert(self.held() =~= old(self).held());
            },
        }
    }
}

} // verus!
