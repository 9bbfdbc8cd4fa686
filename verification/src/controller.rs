//! The camera controller: what the input devices have asked of the camera
//! and the next tick has yet to carry out.
//!
//! The controller only keeps account. Which physical key stands for which
//! direction is the caller's to say, and so is the arithmetic that turns the
//! account into a new pose of the camera.

use vstd::prelude::*;

verus! {

/// A direction in which a held key moves the camera.
#[derive(Clone, Copy, Debug, PartialEq, Eq)]
pub enum CameraKey {
    Forward,
    Backward,
    Left,
    Right,
    Up,
    Down,
}

/// What the wheel reported: a number of lines, single precision, or a
/// number of pixels, double precision, either given by its bits.
#[derive(Clone, Copy, Debug, PartialEq, Eq)]
pub enum ScrollDelta {
    Lines(u32),
    Pixels(u64),
}

/// The account of a camera controller.
#[derive(Clone, Copy, Debug, PartialEq, Eq)]
pub struct CameraController {
    /// Which movement keys are held.
    pub forward: bool,
    pub backward: bool,
    pub left: bool,
    pub right: bool,
    pub up: bool,
    pub down: bool,
    /// The last motion of the mouse since the last tick, horizontal and
    /// vertical, double precision given by its bits; zero if there was none.
    pub rotate_horizontal: u64,
    pub rotate_vertical: u64,
    /// The last report of the wheel since the last tick, if there was one.
    pub scroll: Option<ScrollDelta>,
    /// Units per second at which the camera moves, single precision given
    /// by its bits.
    pub speed: u32,
    /// How strongly the camera follows mouse and wheel, single precision
    /// given by its bits.
    pub sensitivity: u32,
}

impl CameraController {
    /// A controller of which nothing has been asked yet.
    pub open spec fn at_rest(speed: u32, sensitivity: u32) -> CameraController {
        CameraController {
            forward: false,
            backward: false,
            left: false,
            right: false,
            up: false,
            down: false,
            rotate_horizontal: 0,
            rotate_vertical: 0,
            scroll: None,
            speed,
            sensitivity,
        }
    }

    /// The account after `key` went down or up.
    pub open spec fn with_key(self, key: CameraKey, pressed: bool) -> CameraController {
        match key {
            CameraKey::Forward => CameraController { forward: pressed, ..self },
            CameraKey::Backward => CameraController { backward: pressed, ..self },
            CameraKey::Left => CameraController { left: pressed, ..self },
            CameraKey::Right => CameraController { right: pressed, ..self },
            CameraKey::Up => CameraController { up: pressed, ..self },
            CameraKey::Down => CameraController { down: pressed, ..self },
        }
    }

    /// The account after a tick has carried it out: what mouse and wheel
    /// reported is used up, the held keys stay held.
    pub open spec fn drained(self) -> CameraController {
        CameraController { rotate_horizontal: 0, rotate_vertical: 0, scroll: None, ..self }
    }

    /// A controller of which nothing has been asked yet.
    pub fn new(speed: u32, sensitivity: u32) -> (out: Self)
        ensures
            out == Self::at_rest(speed, sensitivity),
    {
        CameraController {
            forward: false,
            backward: false,
            left: false,
            right: false,
            up: false,
            down: false,
            rotate_horizontal: 0,
            rotate_vertical: 0,
            scroll: None,
            speed,
            sensitivity,
        }
    }

    /// Notes that `key` went down or up. The key is always used.
    pub fn process_keyboard(&mut self, key: CameraKey, pressed: bool) -> (used: bool)
        ensures
            *final(self) == old(self).with_key(key, pressed),
            used,
    {
        match key {
            CameraKey::Forward => {
                self.forward = pressed;
            },
            CameraKey::Backward => {
                self.backward = pressed;
            },
            CameraKey::Left => {
                self.left = pressed;
            },
            CameraKey::Right => {
                self.right = pressed;
            },
            CameraKey::Up => {
                self.up = pressed;
            },
            CameraKey::Down => {
                self.down = pressed;
            },
        }
        true
    }

    /// Notes a motion of the mouse; it replaces an earlier one of the same
    /// tick.
    pub fn process_mouse(&mut self, dx: u64, dy: u64)
        ensures
            *final(self) == (CameraController {
                rotate_horizontal: dx,
                rotate_vertical: dy,
                ..*old(self)
            }),
    {
        self.rotate_horizontal = dx;
        self.rotate_vertical = dy;
    }

    /// Notes a report of the wheel; it replaces an earlier one of the same
    /// tick.
    pub fn process_scroll(&mut self, delta: ScrollDelta)
        ensures
            *final(self) == (CameraController { scroll: Some(delta), ..*old(self) }),
    {
        self.scroll = Some(delta);
    }

    /// Hands out the account for a tick to carry out, and uses up what
    /// mouse and wheel reported.
    pub fn drain(&mut self) -> (account: CameraController)
        ensures
            account == *old(self),
            *final(self) == old(self).drained(),
    {
        let account = *self;
        self.rotate_horizontal = 0;
        self.rotate_vertical = 0;
        self.scroll = None;
        account
    }
}

/// Draining twice in a row hands out nothing the second time: a report of
/// mouse or wheel is carried out by one tick only.
pub proof fn lemma_drained_is_spent(controller: CameraController)
    ensures
        controller.drained().rotate_horizontal == 0,
        controller.drained().rotate_vertical == 0,
        controller.drained().scroll is None,
        controller.drained().drained() == controller.drained(),
{
}

} // verus!
