//! Input handling: which keys move the camera, which end the program, and how
//! window events turn into actions of the frame loop.

use vstd::prelude::*;

verus! {

/// The keys the program reacts to; every other key is `Other`.
#[derive(PartialEq, Eq, Structural, Clone, Copy, Debug)]
pub enum Key {
    KeyW,
    KeyA,
    KeyS,
    KeyD,
    ArrowUp,
    ArrowDown,
    ArrowLeft,
    ArrowRight,
    Space,
    Escape,
    Other,
}

/// Which camera movement keys are held.
#[derive(PartialEq, Eq, Structural, Clone, Copy, Debug)]
pub struct MovementKeys {
    pub forward: bool,
    pub backward: bool,
    pub left: bool,
    pub right: bool,
}

/// The direction a key moves the camera in, if any: W or Up forward, S or
/// Down backward, A or Left to the left, D or Right to the right.
pub open spec fn direction_of(key: Key) -> Option<Direction> {
    match key {
        Key::KeyW | Key::ArrowUp => Some(Direction::Forward),
        Key::KeyS | Key::ArrowDown => Some(Direction::Backward),
        Key::KeyA | Key::ArrowLeft => Some(Direction::Left),
        Key::KeyD | Key::ArrowRight => Some(Direction::Right),
        _ => None,
    }
}

/// A direction of camera movement.
#[derive(PartialEq, Eq, Structural, Clone, Copy, Debug)]
pub enum Direction {
    Forward,
    Backward,
    Left,
    Right,
}

/// The held keys after one direction's key was pressed or released.
pub open spec fn with_direction(m: MovementKeys, d: Direction, pressed: bool) -> MovementKeys {
    match d {
        Direction::Forward => MovementKeys { forward: pressed, ..m },
        Direction::Backward => MovementKeys { backward: pressed, ..m },
        Direction::Left => MovementKeys { left: pressed, ..m },
        Direction::Right => MovementKeys { right: pressed, ..m },
    }
}

/// The movements one camera update applies.
#[derive(PartialEq, Eq, Structural, Clone, Copy, Debug)]
pub struct CameraMoves {
    /// Step toward the target; only taken while the target is farther than one step.
    pub forward: bool,
    /// Step away from the target; never limited.
    pub backward: bool,
    /// Orbit to the right at constant distance.
    pub right: bool,
    /// Orbit to the left at constant distance.
    pub left: bool,
}

impl MovementKeys {
    /// No key held.
    pub fn new() -> (r: Self)
        ensures
            r == (MovementKeys { forward: false, backward: false, left: false, right: false }),
    {
        MovementKeys { forward: false, backward: false, left: false, right: false }
    }

    /// Records a key press or release. Returns whether the key is a movement
    /// key; other keys leave the state unchanged.
    pub fn process_key(&mut self, key: Key, pressed: bool) -> (consumed: bool)
        ensures
            consumed == (direction_of(key) is Some),
            match direction_of(key) {
                Some(d) => *final(self) == with_direction(*old(self), d, pressed),
                None => *final(self) == *old(self),
            },
    {
        match key {
            Key::KeyW | Key::ArrowUp => {
                self.forward = pressed;
                true
            },
            Key::KeyS | Key::ArrowDown => {
                self.backward = pressed;
                true
            },
            Key::KeyA | Key::ArrowLeft => {
                self.left = pressed;
                true
            },
            Key::KeyD | Key::ArrowRight => {
                self.right = pressed;
                true
            },
            _ => false,
        }
    }

    /// The moves of one camera update. `room_ahead` tells whether the target is
    /// farther away than one step; without it a forward step would overshoot,
    /// so none is taken.
    pub fn camera_moves(&self, room_ahead: bool) -> (r: CameraMoves)
        ensures
            r == (CameraMoves {
                forward: self.forward && room_ahead,
                backward: self.backward,
                right: self.right,
                left: self.left,
            }),
    {
        CameraMoves {
            forward: self.forward && room_ahead,
            backward: self.backward,
            right: self.right,
            left: self.left,
        }
    }
}

/// A window event, reduced to what the frame loop reads.
#[derive(PartialEq, Eq, Structural, Clone, Copy, Debug)]
pub enum AppEvent {
    CloseRequested,
    Resized { width: u32, height: u32 },
    RedrawRequested,
    Key { key: Key, pressed: bool },
    Other,
}

/// What the frame loop does in answer to an event.
#[derive(PartialEq, Eq, Structural, Clone, Copy, Debug)]
pub enum AppAction {
    /// Leave the event loop.
    Exit,
    /// Hand the new size to the surface.
    Resize { width: u32, height: u32 },
    /// Update the camera and draw a frame.
    Redraw,
    /// Nothing beyond the input state already recorded.
    Nothing,
}

/// The input state of the program: held movement keys, and whether the
/// alternate mesh is shown (while Space is held).
#[derive(PartialEq, Eq, Structural, Clone, Copy, Debug)]
pub struct Controls {
    pub movement: MovementKeys,
    pub show_alternate: bool,
}

/// The action owed for an event.
pub open spec fn action_of(ev: AppEvent) -> AppAction {
    match ev {
        AppEvent::CloseRequested => AppAction::Exit,
        AppEvent::Resized { width, height } => AppAction::Resize { width, height },
        AppEvent::RedrawRequested => AppAction::Redraw,
        AppEvent::Key { key, pressed } => if key == Key::Escape && pressed {
            AppAction::Exit
        } else {
            AppAction::Nothing
        },
        AppEvent::Other => AppAction::Nothing,
    }
}

/// The input state after an event.
pub open spec fn controls_after(c: Controls, ev: AppEvent) -> Controls {
    match ev {
        AppEvent::Key { key, pressed } => if key == Key::Space {
            Controls { show_alternate: pressed, ..c }
        } else {
            match direction_of(key) {
                Some(d) => Controls { movement: with_direction(c.movement, d, pressed), ..c },
                None => c,
            }
        },
        _ => c,
    }
}

impl Controls {
    /// No key held, the main mesh shown.
    pub fn new() -> (r: Self)
        ensures
            r.movement == (MovementKeys { forward: false, backward: false, left: false, right: false }),
            !r.show_alternate,
    {
        Controls { movement: MovementKeys::new(), show_alternate: false }
    }

    /// Routes one window event: closing or pressing Escape exits, a resize goes
    /// to the surface, a redraw request draws, and key events update the
    /// input state.
    pub fn on_event(&mut self, ev: AppEvent) -> (r: AppAction)
        ensures
            r == action_of(ev),
            *final(self) == controls_after(*old(self), ev),
    {
        match ev {
            AppEvent::CloseRequested => AppAction::Exit,
            AppEvent::Resized { width, height } => AppAction::Resize { width, height },
            AppEvent::RedrawRequested => AppAction::Redraw,
            AppEvent::Key { key, pressed } => {
                if key == Key::Space {
                    self.show_alternate = pressed;
                } else {
                    self.movement.process_key(key, pressed);
                }
                if key == Key::Escape && pressed {
                    AppAction::Exit
                } else {
                    AppAction::Nothing
                }
            },
            AppEvent::Other => AppAction::Nothing,
        }
    }
}

} // verus!
