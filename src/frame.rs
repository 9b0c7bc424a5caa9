use vstd::prelude::*;
use crate::cursor::{CursorState, EngageEdges, cursor_after, engaged};
use crate::movement::{MoveAxes, MoveKeys, axes_of, move_axes};

verus! {

/// What the controller reads in one frame.
#[derive(Clone, Copy, Debug, PartialEq, Eq, Structural)]
pub struct FrameInput {
    pub edges: EngageEdges,
    /// Whether an overlay surface currently claims the pointer.
    pub ui_wants_pointer: bool,
    pub keys: MoveKeys,
    /// Whether the accumulated mouse motion of the frame is non-zero.
    pub mouse_moved: bool,
}

/// What the controller does to the camera in one frame.
#[derive(Clone, Copy, Debug, PartialEq, Eq, Structural)]
pub enum FramePlan {
    /// Mouse-look is not engaged: the camera is left alone.
    Idle,
    /// Mouse-look is engaged. `translate` says whether to move along the
    /// normalised direction that `axes` weighs; `rotate` whether to apply the
    /// mouse motion to yaw and pitch.
    Fly { axes: MoveAxes, translate: bool, rotate: bool },
}

impl FramePlan {
    pub open spec fn translates(self) -> bool {
        self matches FramePlan::Fly { translate, .. } && translate
    }

    pub open spec fn rotates(self) -> bool {
        self matches FramePlan::Fly { rotate, .. } && rotate
    }
}

/// The plan for a frame whose cursor, after the engage edges, is `c`.
pub open spec fn plan_of(c: CursorState, input: FrameInput) -> FramePlan {
    if !engaged(c) {
        FramePlan::Idle
    } else {
        FramePlan::Fly {
            axes: axes_of(input.keys),
            translate: !axes_of(input.keys).is_zero_spec(),
            rotate: input.mouse_moved,
        }
    }
}

/// One frame of the fly-camera controller: applies the engage edges to the
/// window's cursor, then plans the camera's motion under the new cursor.
pub fn control_frame(cursor: &mut CursorState, input: FrameInput) -> (r: FramePlan)
    ensures
        *final(cursor) == cursor_after(*old(cursor), input.edges, input.ui_wants_pointer),
        r == plan_of(*final(cursor), input),
{
    cursor.apply_edges(input.edges, input.ui_wants_pointer);
    if !cursor.is_engaged() {
        return FramePlan::Idle;
    }
    let axes = move_axes(input.keys);
    let translate = !axes.is_zero();
    FramePlan::Fly { axes, translate, rotate: input.mouse_moved }
}

/// A frame without mouse motion never recomposes the orientation, so yaw,
/// pitch and roll stay exactly as they were.
pub proof fn lemma_still_mouse_keeps_orientation(c: CursorState, input: FrameInput)
    requires
        !input.mouse_moved,
    ensures
        !plan_of(c, input).rotates(),
{
}

/// While mouse-look is not engaged the camera neither moves nor turns.
pub proof fn lemma_idle_leaves_camera(c: CursorState, input: FrameInput)
    requires
        !engaged(c),
    ensures
        !plan_of(c, input).translates(),
        !plan_of(c, input).rotates(),
{
}

} // verus!
