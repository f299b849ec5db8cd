//! Keyboard and mouse input of the first-generation game loop.
use vstd::prelude::*;
use crate::camera::camera::MovementDirection;

verus! {

/// The keys that the game reacts to; every other key is `Other`.
#[derive(Debug, PartialEq, Eq, Clone, Copy)]
pub enum Scancode {
    W,
    S,
    A,
    D,
    Escape,
    Other,
}

/// A window event, as far as input handling looks at it.
#[derive(Debug, PartialEq, Eq, Clone, Copy)]
pub enum InputEvent {
    KeyDown { scancode: Option<Scancode> },
    KeyUp { scancode: Option<Scancode> },
    MouseMotion { xrel: i32, yrel: i32 },
    Other,
}

/// Which movement keys are held: forward (W), backward (S), left (A), right (D).
#[derive(Debug, PartialEq, Eq, Clone, Copy)]
pub struct HeldKeys {
    pub forward: bool,
    pub backward: bool,
    pub left: bool,
    pub right: bool,
}

/// The held keys after `event`: pressing a movement key marks it held, releasing it marks
/// it released; every other event leaves the keys as they were.
pub open spec fn keys_after(keys: HeldKeys, event: InputEvent) -> HeldKeys {
    match event {
        InputEvent::KeyDown { scancode: Some(Scancode::W) } => HeldKeys { forward: true, ..keys },
        InputEvent::KeyDown { scancode: Some(Scancode::S) } => HeldKeys { backward: true, ..keys },
        InputEvent::KeyDown { scancode: Some(Scancode::A) } => HeldKeys { left: true, ..keys },
        InputEvent::KeyDown { scancode: Some(Scancode::D) } => HeldKeys { right: true, ..keys },
        InputEvent::KeyUp { scancode: Some(Scancode::W) } => HeldKeys { forward: false, ..keys },
        InputEvent::KeyUp { scancode: Some(Scancode::S) } => HeldKeys { backward: false, ..keys },
        InputEvent::KeyUp { scancode: Some(Scancode::A) } => HeldKeys { left: false, ..keys },
        InputEvent::KeyUp { scancode: Some(Scancode::D) } => HeldKeys { right: false, ..keys },
        _ => keys,
    }
}

/// Releasing Escape toggles the menu.
pub open spec fn toggles_menu(event: InputEvent) -> bool {
    event == (InputEvent::KeyUp { scancode: Some(Scancode::Escape) })
}

/// Whether the menu is open after `event`.
pub open spec fn menu_after(in_menu: bool, event: InputEvent) -> bool {
    if toggles_menu(event) { !in_menu } else { in_menu }
}

/// The directions that the held keys move the camera in, in the order forward, backward,
/// left, right.
pub open spec fn held_directions(keys: HeldKeys) -> Seq<MovementDirection> {
    (if keys.forward { seq![MovementDirection::FORWARD] } else { seq![] })
        + (if keys.backward { seq![MovementDirection::BACKWARD] } else { seq![] })
        + (if keys.left { seq![MovementDirection::LEFT] } else { seq![] })
        + (if keys.right { seq![MovementDirection::RIGHT] } else { seq![] })
}

/// The state of the movement keys.
pub struct KeyboardInput {
    forward: bool,
    backward: bool,
    left: bool,
    right: bool,
}

impl View for KeyboardInput {
    type V = HeldKeys;

    closed spec fn view(&self) -> HeldKeys {
        HeldKeys { forward: self.forward, backward: self.backward, left: self.left, right: self.right }
    }
}

impl KeyboardInput {
    /// No key held.
    pub fn new() -> (k: KeyboardInput)
        ensures
            k@ == (HeldKeys { forward: false, backward: false, left: false, right: false }),
    {
        KeyboardInput { forward: false, backward: false, right: false, left: false }
    }

    /// Updates the held keys from `event`, and toggles `in_menu` when Escape is released.
    pub fn handle_input(&mut self, event: &InputEvent, in_menu: &mut bool)
        ensures
            final(self)@ == keys_after(old(self)@, *event),
            *final(in_menu) == menu_after(*old(in_menu), *event),
    {
        match *event {
            InputEvent::KeyDown { scancode: Some(scancode) } => match scancode {
                Scancode::W => self.forward = true,
                Scancode::S => self.backward = true,
                Scancode::A => self.left = true,
                Scancode::D => self.right = true,
                _ => (),
            },
            InputEvent::KeyUp { scancode: Some(scancode) } => match scancode {
                Scancode::W => self.forward = false,
                Scancode::S => self.backward = false,
                Scancode::A => self.left = false,
                Scancode::D => self.right = false,
                Scancode::Escape => *in_menu = !*in_menu,
                _ => (),
            },
            _ => (),
        }
    }

    /// The directions to move the camera in this frame: one per held key, in the order
    /// forward, backward, left, right.
    pub fn movement_directions(&self) -> (dirs: Vec<MovementDirection>)
        ensures
            dirs@ == held_directions(self@),
    {
        let mut dirs = Vec::new();
        if self.forward {
            dirs.push(MovementDirection::FORWARD);
        }
        if self.backward {
            dirs.push(MovementDirection::BACKWARD);
        }
        if self.left {
            dirs.push(MovementDirection::LEFT);
        }
        if self.right {
            dirs.push(MovementDirection::RIGHT);
        }
        assert(dirs@ =~= held_directions(self@));
        dirs
    }
}

/// Mouse input; it keeps no state.
pub struct MouseInput;

impl MouseInput {
    pub fn new() -> (m: MouseInput) {
        MouseInput {}
    }

    /// The relative motion to rotate the camera by: the event's motion when the mouse moved,
    /// nothing otherwise.
    pub fn handle_input(&mut self, event: &InputEvent) -> (r: Option<(i32, i32)>)
        ensures
            match *event {
                InputEvent::MouseMotion { xrel, yrel } => r == Some((xrel, yrel)),
                _ => r is None,
            },
    {
        match *event {
            InputEvent::MouseMotion { xrel, yrel } => Some((xrel, yrel)),
            _ => None,
        }
    }
}

/// Pressing a movement key and releasing it again leaves every key as it was, except that
/// key, which is released.
pub proof fn lemma_press_release(keys: HeldKeys, key: Scancode)
    ensures
        ({
            let after = keys_after(
                keys_after(keys, InputEvent::KeyDown { scancode: Some(key) }),
                InputEvent::KeyUp { scancode: Some(key) },
            );
            &&& key == Scancode::W ==> after == HeldKeys { forward: false, ..keys }
            &&& key == Scancode::S ==> after == HeldKeys { backward: false, ..keys }
            &&& key == Scancode::A ==> after == HeldKeys { left: false, ..keys }
            &&& key == Scancode::D ==> after == HeldKeys { right: false, ..keys }
            &&& (key == Scancode::Escape || key == Scancode::Other) ==> after == keys
        }),
{
}

/// Releasing Escape twice leaves the menu as it was; movement keys never touch it.
pub proof fn lemma_menu_toggle(in_menu: bool, key: Scancode)
    ensures
        menu_after(
            menu_after(in_menu, InputEvent::KeyUp { scancode: Some(Scancode::Escape) }),
            InputEvent::KeyUp { scancode: Some(Scancode::Escape) },
        ) == in_menu,
        key != Scancode::Escape ==> menu_after(in_menu, InputEvent::KeyUp { scancode: Some(key) }) == in_menu,
        menu_after(in_menu, InputEvent::KeyDown { scancode: Some(key) }) == in_menu,
{
}

/// After a movement key is pressed the camera moves in its direction; after it is released
/// it no longer does.
pub proof fn lemma_directions_follow_keys(keys: HeldKeys)
    ensures
        held_directions(keys_after(keys, InputEvent::KeyDown { scancode: Some(Scancode::W) })).contains(MovementDirection::FORWARD),
        held_directions(keys_after(keys, InputEvent::KeyDown { scancode: Some(Scancode::S) })).contains(MovementDirection::BACKWARD),
        held_directions(keys_after(keys, InputEvent::KeyDown { scancode: Some(Scancode::A) })).contains(MovementDirection::LEFT),
        held_directions(keys_after(keys, InputEvent::KeyDown { scancode: Some(Scancode::D) })).contains(MovementDirection::RIGHT),
        !held_directions(keys_after(keys, InputEvent::KeyUp { scancode: Some(Scancode::W) })).contains(MovementDirection::FORWARD),
        !held_directions(keys_after(keys, InputEvent::KeyUp { scancode: Some(Scancode::S) })).contains(MovementDirection::BACKWARD),
        !held_directions(keys_after(keys, InputEvent::KeyUp { scancode: Some(Scancode::A) })).contains(MovementDirection::LEFT),
        !held_directions(keys_after(keys, InputEvent::KeyUp { scancode: Some(Scancode::D) })).contains(MovementDirection::RIGHT),
{
    lemma_held_directions(keys_after(keys, InputEvent::KeyDown { scancode: Some(Scancode::W) }));
    lemma_held_directions(keys_after(keys, InputEvent::KeyDown { scancode: Some(Scancode::S) }));
    lemma_held_directions(keys_after(keys, InputEvent::KeyDown { scancode: Some(Scancode::A) }));
    lemma_held_directions(keys_after(keys, InputEvent::KeyDown { scancode: Some(Scancode::D) }));
    lemma_held_directions(keys_after(keys, InputEvent::KeyUp { scancode: Some(Scancode::W) }));
    lemma_held_directions(keys_after(keys, InputEvent::KeyUp { scancode: Some(Scancode::S) }));
    lemma_held_directions(keys_after(keys, InputEvent::KeyUp { scancode: Some(Scancode::A) }));
    lemma_held_directions(keys_after(keys, InputEvent::KeyUp { scancode: Some(Scancode::D) }));
}

/// Each direction is among the held directions exactly when its key is held.
pub proof fn lemma_held_directions(keys: HeldKeys)
    ensures
        held_directions(keys).contains(MovementDirection::FORWARD) == keys.forward,
        held_directions(keys).contains(MovementDirection::BACKWARD) == keys.backward,
        held_directions(keys).contains(MovementDirection::LEFT) == keys.left,
        held_directions(keys).contains(MovementDirection::RIGHT) == keys.right,
{
    let f: Seq<MovementDirection> = if keys.forward { seq![MovementDirection::FORWARD] } else { seq![] };
    let b: Seq<MovementDirection> = if keys.backward { seq![MovementDirection::BACKWARD] } else { seq![] };
    let l: Seq<MovementDirection> = if keys.left { seq![MovementDirection::LEFT] } else { seq![] };
    let r: Seq<MovementDirection> = if keys.right { seq![MovementDirection::RIGHT] } else { seq![] };
    let all = held_directions(keys);
    assert(all == f + b + l + r);
    assert forall|d: MovementDirection| all.contains(d) <==> (f.contains(d) || b.contains(d) || l.contains(d) || r.contains(d)) by {
        if all.contains(d) {
            let i = choose|i: int| 0 <= i < all.len() && all[i] == d;
            if i < f.len() {
                assert(f[i] == d);
            } else if i < f.len() + b.len() {
                assert(b[i - f.len()] == d);
            } else if i < f.len() + b.len() + l.len() {
                assert(l[i - f.len() - b.len()] == d);
            } else {
                assert(r[i - f.len() - b.len() - l.len()] == d);
            }
        }
        if f.contains(d) {
            let i = choose|i: int| 0 <= i < f.len() && f[i] == d;
            assert(all[i] == d);
        }
        if b.contains(d) {
            let i = choose|i: int| 0 <= i < b.len() && b[i] == d;
            assert(all[f.len() + i] == d);
        }
        if l.contains(d) {
            let i = choose|i: int| 0 <= i < l.len() && l[i] == d;
            assert(all[f.len() + b.len() + i] == d);
        }
        if r.contains(d) {
            let i = choose|i: int| 0 <= i < r.len() && r[i] == d;
            assert(all[f.len() + b.len() + l.len() + i] == d);
        }
    }
    if keys.forward {
        assert(f[0] == MovementDirection::FORWARD);
    }
    if keys.backward {
        assert(b[0] == MovementDirection::BACKWARD);
    }
    if keys.left {
        assert(l[0] == MovementDirection::LEFT);
    }
    if keys.right {
        assert(r[0] == MovementDirection::RIGHT);
    }
}

} // verus!
