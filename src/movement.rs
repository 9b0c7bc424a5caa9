use vstd::prelude::*;

verus! {

/// The six movement keys held during a frame.
#[derive(Clone, Copy, Debug, PartialEq, Eq, Structural)]
pub struct MoveKeys {
    pub forward: bool,
    pub back: bool,
    pub left: bool,
    pub right: bool,
    pub up: bool,
    pub down: bool,
}

/// Signed weights of the camera's forward axis, the camera's right axis and
/// the world's up axis in the movement direction; each is -1, 0 or 1.
#[derive(Clone, Copy, Debug, PartialEq, Eq, Structural)]
pub struct MoveAxes {
    pub forward: i8,
    pub right: i8,
    pub up: i8,
}

/// Weight of one axis from the key that pushes along it and the key that
/// pushes against it; the two cancel.
pub open spec fn axis_weight(pos: bool, neg: bool) -> i8 {
    if pos && !neg {
        1i8
    } else if neg && !pos {
        -1i8
    } else {
        0i8
    }
}

/// Forward and back drive the camera's forward axis, right and left its right
/// axis, up and down the world's vertical axis.
pub open spec fn axes_of(k: MoveKeys) -> MoveAxes {
    MoveAxes {
        forward: axis_weight(k.forward, k.back),
        right: axis_weight(k.right, k.left),
        up: axis_weight(k.up, k.down),
    }
}

impl MoveAxes {
    pub open spec fn is_zero_spec(self) -> bool {
        self.forward == 0 && self.right == 0 && self.up == 0
    }

    /// Whether no axis is driven, so that there is no direction to normalise.
    pub fn is_zero(&self) -> (r: bool)
        ensures
            r == self.is_zero_spec(),
    {
        self.forward == 0 && self.right == 0 && self.up == 0
    }
}

/// Weight of one axis from its two opposing keys.
pub fn axis(pos: bool, neg: bool) -> (r: i8)
    ensures
        r == axis_weight(pos, neg),
        -1 <= r <= 1,
{
    if pos && !neg {
        1
    } else if neg && !pos {
        -1
    } else {
        0
    }
}

/// The axis weights that the held keys ask for.
pub fn move_axes(keys: MoveKeys) -> (r: MoveAxes)
    ensures
        r == axes_of(keys),
{
    MoveAxes {
        forward: axis(keys.forward, keys.back),
        right: axis(keys.right, keys.left),
        up: axis(keys.up, keys.down),
    }
}

} // verus!
