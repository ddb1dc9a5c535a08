//! Which keys and buttons are held, and which changed since the last frame.

use vstd::prelude::*;
use vstd::std_specs::hash::obeys_key_model;
use std::collections::HashSet;
use std::hash::Hash;

verus! {

/// The buttons that are held, those that went down and those that went up
/// since the last call of `update`.
pub struct ButtonInputs<T> where T: Copy + Eq + Hash {
    pressed: HashSet<T>,
    just_pressed: HashSet<T>,
    just_released: HashSet<T>,
}

impl<T> ButtonInputs<T> where T: Copy + Eq + Hash {
    /// The buttons that are held.
    pub closed spec fn held(&self) -> Set<T> {
        self.pressed@
    }

    /// The buttons that went down since the last update.
    pub closed spec fn went_down(&self) -> Set<T> {
        self.just_pressed@
    }

    /// The buttons that went up since the last update.
    pub closed spec fn went_up(&self) -> Set<T> {
        self.just_released@
    }

    /// No button is held, none has changed.
    pub fn new() -> (inputs: Self)
        ensures
            inputs.held() == Set::<T>::empty(),
            inputs.went_down() == Set::<T>::empty(),
            inputs.went_up() == Set::<T>::empty(),
    {
        ButtonInputs {
            pressed: HashSet::new(),
            just_pressed: HashSet::new(),
            just_released: HashSet::new(),
        }
    }

    /// `input` is down. It counts as having gone down only if it was not held.
    pub fn press(&mut self, input: T)
        requires
            obeys_key_model::<T>(),
        ensures
            final(self).held() == old(self).held().insert(input),
            final(self).went_down() == (if old(self).held().contains(input) {
                old(self).went_down()
            } else {
                old(self).went_down().insert(input)
            }),
            final(self).went_up() == old(self).went_up(),
    {
        if self.pressed.insert(input) {
            self.just_pressed.insert(input);
        }
    }

    /// `input` is up. It counts as having gone up only if it was held.
    pub fn release(&mut self, input: T)
        requires
            obeys_key_model::<T>(),
        ensures
            final(self).held() == old(self).held().remove(input),
            final(self).went_up() == (if old(self).held().contains(input) {
                old(self).went_up().insert(input)
            } else {
                old(self).went_up()
            }),
            final(self).went_down() == old(self).went_down(),
    {
        if self.pressed.remove(&input) {
            self.just_released.insert(input);
        }
    }

    /// Ends the frame: what is held stays held, and nothing has changed yet.
    pub fn update(&mut self)
        ensures
            final(self).held() == old(self).held(),
            final(self).went_down() == Set::<T>::empty(),
            final(self).went_up() == Set::<T>::empty(),
    {
        self.just_pressed.clear();
        self.just_released.clear();
    }

    /// Whether `input` is held.
    pub fn pressed(&self, input: T) -> (yes: bool)
        requires
            obeys_key_model::<T>(),
        ensures
            yes == self.held().contains(input),
    {
        self.pressed.contains(&input)
    }

    /// Whether `input` went down since the last update.
    pub fn just_pressed(&self, input: T) -> (yes: bool)
        requires
            obeys_key_model::<T>(),
        ensures
            yes == self.went_down().contains(input),
    {
        self.just_pressed.contains(&input)
    }

    /// Whether `input` went up since the last update.
    pub fn just_released(&self, input: T) -> (yes: bool)
        requires
            obeys_key_model::<T>(),
        ensures
            yes == self.went_up().contains(input),
    {
        self.just_released.contains(&input)
    }
}


/// Whether a key or button went down or up.
#[derive(Debug, Clone, Copy, PartialEq, Eq, Structural)]
pub enum ElementState {
    Pressed,
    Released,
}

/// The keys and the mouse buttons.
pub struct Input<K, B> where K: Copy + Eq + Hash, B: Copy + Eq + Hash {
    pub keys: ButtonInputs<K>,
    pub mouse_buttons: ButtonInputs<B>,
}

impl<K, B> Input<K, B> where K: Copy + Eq + Hash, B: Copy + Eq + Hash {
    /// Nothing is held.
    pub fn new() -> (input: Self)
        ensures
            input.keys.held() == Set::<K>::empty(),
            input.keys.went_down() == Set::<K>::empty(),
            input.keys.went_up() == Set::<K>::empty(),
            input.mouse_buttons.held() == Set::<B>::empty(),
            input.mouse_buttons.went_down() == Set::<B>::empty(),
            input.mouse_buttons.went_up() == Set::<B>::empty(),
    {
        Input { keys: ButtonInputs::new(), mouse_buttons: ButtonInputs::new() }
    }

    /// Ends the frame for keys and buttons.
    pub fn update(&mut self)
        ensures
            final(self).keys.held() == old(self).keys.held(),
            final(self).keys.went_down() == Set::<K>::empty(),
            final(self).keys.went_up() == Set::<K>::empty(),
            final(self).mouse_buttons.held() == old(self).mouse_buttons.held(),
            final(self).mouse_buttons.went_down() == Set::<B>::empty(),
            final(self).mouse_buttons.went_up() == Set::<B>::empty(),
    {
        self.keys.update();
        self.mouse_buttons.update();
    }
}

/// Takes a key event. An event of a key that could not be identified
/// (`None`) changes nothing.
pub fn handle_keyboard_input_event<K, B>(input: &mut Input<K, B>, key: Option<K>, state: ElementState) where
    K: Copy + Eq + Hash,
    B: Copy + Eq + Hash,

    requires
        obeys_key_model::<K>(),
    ensures
        final(input).mouse_buttons == old(input).mouse_buttons,
        match (key, state) {
            (None, _) => final(input).keys == old(input).keys,
            (Some(k), ElementState::Pressed) => {
                &&& final(input).keys.held() == old(input).keys.held().insert(k)
                &&& final(input).keys.went_down() == (if old(input).keys.held().contains(k) {
                    old(input).keys.went_down()
                } else {
                    old(input).keys.went_down().insert(k)
                })
                &&& final(input).keys.went_up() == old(input).keys.went_up()
            },
            (Some(k), ElementState::Released) => {
                &&& final(input).keys.held() == old(input).keys.held().remove(k)
                &&& final(input).keys.went_up() == (if old(input).keys.held().contains(k) {
                    old(input).keys.went_up().insert(k)
                } else {
                    old(input).keys.went_up()
                })
                &&& final(input).keys.went_down() == old(input).keys.went_down()
            },
        },
{
    match key {
        None => {},
        Some(k) => match state {
            ElementState::Pressed => input.keys.press(k),
            ElementState::Released => input.keys.release(k),
        },
    }
}

/// Takes a mouse button event.
pub fn handle_mouse_input_event<K, B>(input: &mut Input<K, B>, state: ElementState, button: B) where
    K: Copy + Eq + Hash,
    B: Copy + Eq + Hash,

    requires
        obeys_key_model::<B>(),
    ensures
        final(input).keys == old(input).keys,
        match state {
            ElementState::Pressed => {
                &&& final(input).mouse_buttons.held() == old(input).mouse_buttons.held().insert(
                    button,
                )
                &&& final(input).mouse_buttons.went_down()
                    == (if old(input).mouse_buttons.held().contains(button) {
                    old(input).mouse_buttons.went_down()
                } else {
                    old(input).mouse_buttons.went_down().insert(button)
                })
                &&& final(input).mouse_buttons.went_up() == old(input).mouse_buttons.went_up()
            },
            ElementState::Released => {
                &&& final(input).mouse_buttons.held() == old(input).mouse_buttons.held().remove(
                    button,
                )
                &&& final(input).mouse_buttons.went_up()
                    == (if old(input).mouse_buttons.held().contains(button) {
                    old(input).mouse_buttons.went_up().insert(button)
                } else {
                    old(input).mouse_buttons.went_up()
                })
                &&& final(input).mouse_buttons.went_down() == old(input).mouse_buttons.went_down()
            },
        },
{
    match state {
        ElementState::Pressed => input.mouse_buttons.press(button),
        ElementState::Released => input.mouse_buttons.release(button),
    }
}

} // verus!
