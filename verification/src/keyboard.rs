//! A keyboard of many buttons, one per key. Keys are created lazily: the
//! first event for an unknown key adds a fresh button for it; queries on keys
//! never seen report the idle state.

use vstd::prelude::*;

use vstd::std_specs::cmp::PartialEqSpec;

use crate::button::{
    spec_is_pressed, spec_is_released, spec_update_button, Button, ButtonEvent, ButtonModel,
    ButtonState,
};

verus! {

/// Whether some entry's key compares equal to `key`.
pub open spec fn spec_has_button<T: PartialEq>(s: Seq<(T, ButtonModel)>, key: T) -> bool {
    exists|i: int| 0 <= i < s.len() && (#[trigger] s[i]).0.eq_spec(&key)
}

/// The first index whose key compares equal to `key`.
pub open spec fn spec_button_index<T: PartialEq>(s: Seq<(T, ButtonModel)>, key: T) -> int
    decreases s.len(),
{
    if s.len() == 0 {
        0
    } else if s[0].0.eq_spec(&key) {
        0
    } else {
        1 + spec_button_index(s.skip(1), key)
    }
}

/// Registering an event: the first entry matching `key` gets the event
/// pending; a key never seen gets a fresh released button with the event
/// pending.
pub open spec fn spec_register<T: PartialEq>(
    s: Seq<(T, ButtonModel)>,
    key: T,
    event: ButtonEvent,
) -> Seq<(T, ButtonModel)> {
    if spec_has_button(s, key) {
        s.update(
            spec_button_index(s, key),
            (
                s[spec_button_index(s, key)].0,
                ButtonModel { event: Some(event), ..s[spec_button_index(s, key)].1 },
            ),
        )
    } else {
        s.push((key, ButtonModel { state: ButtonState::Released, event: Some(event) }))
    }
}

pub struct Keyboard<T> {
    buttons: Vec<(T, Button)>,
}

impl<T: PartialEq> View for Keyboard<T> {
    type V = Seq<(T, ButtonModel)>;

    closed spec fn view(&self) -> Seq<(T, ButtonModel)> {
        self.buttons@.map_values(|p: (T, Button)| (p.0, p.1@))
    }
}

impl<T: PartialEq> Keyboard<T> {
    pub fn new() -> (r: Keyboard<T>)
        ensures
            r@ == Seq::<(T, ButtonModel)>::empty(),
    {
        let r = Keyboard { buttons: Vec::new() };
        proof {
            assert(r@ =~= Seq::<(T, ButtonModel)>::empty());
        }
        r
    }

    /// Records a raw event for `key`: the key's button gets the event, a key
    /// never seen before gets a fresh button with the event pending.
    #[verifier::loop_isolation(false)]
    pub fn register_event(&mut self, key: T, event: ButtonEvent)
        requires
            T::obeys_eq_spec(),
        ensures
            final(self)@ == spec_register(old(self)@, key, event),
    {
        proof {
            assert(self@.skip(0) =~= self@);
        }
        let n = self.buttons.len();
        let mut j: usize = 0;
        while j < n
            invariant
                self@ == old(self)@,
                n == self@.len(),
                self.buttons@.len() == self@.len(),
                j <= n,
                forall|k: int| 0 <= k < j ==> !(#[trigger] self@[k]).0.eq_spec(&key),
                spec_button_index(self@, key) == j + spec_button_index(
                    self@.skip(j as int),
                    key,
                ),
            decreases n - j,
        {
            proof {
                let tail = self@.skip(j as int);
                assert(tail[0] == self@[j as int]);
                assert(tail.skip(1) =~= self@.skip(j as int + 1));
            }
            if self.buttons[j].0.eq(&key) {
                proof {
                    assert(self@[j as int].0.eq_spec(&key));
                    assert(spec_button_index(self@, key) == j);
                    assert(spec_has_button(self@, key));
                }
                let slot = &mut self.buttons[j];
                slot.1.register_event(event);
                proof {
                    assert(self@ =~~= old(self)@.update(
                        j as int,
                        (
                            old(self)@[j as int].0,
                            ButtonModel { event: Some(event), ..old(self)@[j as int].1 },
                        ),
                    ));
                }
                return ;
            }
            j += 1;
        }
        proof {
            assert(!spec_has_button(self@, key));
        }
        let mut button = Button::default();
        button.register_event(event);
        self.buttons.push((key, button));
        proof {
            assert(self@ =~~= old(self)@.push(
                (key, ButtonModel { state: ButtonState::Released, event: Some(event) }),
            ));
        }
    }

    /// One update for every key's button.
    pub fn update(&mut self)
        ensures
            final(self)@.len() == old(self)@.len(),
            forall|k: int|
                0 <= k < old(self)@.len() ==> (#[trigger] final(self)@[k]).0 == old(self)@[k].0
                    && final(self)@[k].1 == spec_update_button(old(self)@[k].1),
    {
        let ghost orig = self@;
        let mut k: usize = 0;
        while k < self.buttons.len()
            invariant
                self.buttons@.len() == orig.len(),
                orig == old(self)@,
                k <= orig.len(),
                forall|q: int|
                    0 <= q < k ==> (#[trigger] self@[q]).0 == orig[q].0 && self@[q].1
                        == spec_update_button(orig[q].1),
                forall|q: int| k <= q < orig.len() ==> #[trigger] self@[q] == orig[q],
            decreases orig.len() - k,
        {
            let ghost before = self@;
            let slot = &mut self.buttons[k];
            slot.1.update();
            proof {
                assert(before[k as int] == orig[k as int]);
                assert(self@[k as int].0 == before[k as int].0);
                assert(self@[k as int].1 == spec_update_button(before[k as int].1));
                assert forall|q: int| 0 <= q < orig.len() && q != k as int implies self@[q]
                    == before[q] by {}
                assert forall|q: int|
                    0 <= q < k + 1 implies (#[trigger] self@[q]).0 == orig[q].0 && self@[q].1
                    == spec_update_button(orig[q].1) by {
                    if q != k as int {
                        assert(self@[q] == before[q]);
                    }
                }
                assert forall|q: int|
                    k + 1 <= q < orig.len() implies #[trigger] self@[q] == orig[q] by {
                    assert(self@[q] == before[q]);
                }
            }
            k += 1;
        }
    }

    /// Whether `key` reads as pressed; a key never seen reads as released.
    pub fn is_pressed(&self, key: T) -> (r: bool)
        requires
            T::obeys_eq_spec(),
        ensures
            r == (spec_has_button(self@, key) && spec_is_pressed(
                self@[spec_button_index(self@, key)].1.state,
            )),
    {
        match self.find_button(&key) {
            Some(button) => button.is_pressed(),
            None => false,
        }
    }

    pub fn is_pressed_now(&self, key: T) -> (r: bool)
        requires
            T::obeys_eq_spec(),
        ensures
            r == (spec_has_button(self@, key) && self@[spec_button_index(self@, key)].1.state
                == ButtonState::PressedNow),
    {
        match self.find_button(&key) {
            Some(button) => button.is_pressed_now(),
            None => false,
        }
    }

    pub fn is_released(&self, key: T) -> (r: bool)
        requires
            T::obeys_eq_spec(),
        ensures
            r == (!spec_has_button(self@, key) || spec_is_released(
                self@[spec_button_index(self@, key)].1.state,
            )),
    {
        match self.find_button(&key) {
            Some(button) => button.is_released(),
            None => true,
        }
    }

    pub fn is_released_now(&self, key: T) -> (r: bool)
        requires
            T::obeys_eq_spec(),
        ensures
            r == (spec_has_button(self@, key) && self@[spec_button_index(self@, key)].1.state
                == ButtonState::ReleasedNow),
    {
        match self.find_button(&key) {
            Some(button) => button.is_released_now(),
            None => false,
        }
    }

    /// The button of the first entry matching `key`, if any.
    #[verifier::loop_isolation(false)]
    fn find_button(&self, key: &T) -> (r: Option<&Button>)
        requires
            T::obeys_eq_spec(),
        ensures
            match r {
                Some(button) => spec_has_button(self@, *key) && button@ == self@[spec_button_index(
                    self@,
                    *key,
                )].1,
                None => !spec_has_button(self@, *key),
            },
    {
        proof {
            assert(self@.skip(0) =~= self@);
        }
        let n = self.buttons.len();
        let mut j: usize = 0;
        while j < n
            invariant
                n == self@.len(),
                self.buttons@.len() == self@.len(),
                j <= n,
                forall|k: int| 0 <= k < j ==> !(#[trigger] self@[k]).0.eq_spec(key),
                spec_button_index(self@, *key) == j + spec_button_index(
                    self@.skip(j as int),
                    *key,
                ),
            decreases n - j,
        {
            proof {
                let tail = self@.skip(j as int);
                assert(tail[0] == self@[j as int]);
                assert(tail.skip(1) =~= self@.skip(j as int + 1));
            }
            if self.buttons[j].0.eq(key) {
                proof {
                    assert(self@[j as int].0.eq_spec(key));
                    assert(spec_button_index(self@, *key) == j);
                    assert(spec_has_button(self@, *key));
                }
                return Some(&self.buttons[j].1);
            }
            j += 1;
        }
        proof {
            assert(!spec_has_button(self@, *key));
        }
        None
    }
}

} // verus!
