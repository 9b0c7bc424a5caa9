use vstd::prelude::*;

verus! {

/// How the host window holds the pointer.
#[derive(Clone, Copy, Debug, PartialEq, Eq, Structural)]
pub enum GrabMode {
    /// The pointer moves freely.
    Free,
    /// The pointer is kept inside the window.
    Confined,
    /// The pointer is fixed in place; only relative motion is reported.
    Locked,
}

/// The cursor options of the host window that the controller changes.
#[derive(Clone, Copy, Debug, PartialEq, Eq, Structural)]
pub struct CursorState {
    pub grab: GrabMode,
    pub visible: bool,
}

/// Edges of the engage button seen during one frame.
#[derive(Clone, Copy, Debug, PartialEq, Eq, Structural)]
pub struct EngageEdges {
    pub just_pressed: bool,
    pub just_released: bool,
}

/// The cursor of a window that is not in mouse-look mode.
pub open spec fn released_cursor() -> CursorState {
    CursorState { grab: GrabMode::Free, visible: true }
}

/// The cursor of a window in mouse-look mode: locked and hidden.
pub open spec fn engaged_cursor() -> CursorState {
    CursorState { grab: GrabMode::Locked, visible: false }
}

/// Cursor after one frame's edges: a release frees and shows the cursor, then
/// a press locks and hides it unless an overlay wants the pointer.
pub open spec fn cursor_after(c: CursorState, e: EngageEdges, ui_wants_pointer: bool) -> CursorState {
    let c1 = if e.just_released { released_cursor() } else { c };
    if e.just_pressed && !ui_wants_pointer { engaged_cursor() } else { c1 }
}

/// Mouse-look is engaged exactly while the cursor is locked.
pub open spec fn engaged(c: CursorState) -> bool {
    c.grab == GrabMode::Locked
}

/// Pressing and then releasing the engage button, with no overlay claiming the
/// pointer at the press, takes a released cursor to locked and back to free,
/// and the cursor is hidden exactly while it is locked.
pub proof fn lemma_press_release_round_trip(start: CursorState, ui_at_release: bool)
    requires
        start == released_cursor(),
    ensures
        ({
            let press = EngageEdges { just_pressed: true, just_released: false };
            let release = EngageEdges { just_pressed: false, just_released: true };
            let held = cursor_after(start, press, false);
            let after = cursor_after(held, release, ui_at_release);
            &&& !engaged(start) && start.visible
            &&& held.grab == GrabMode::Locked && !held.visible
            &&& after.grab == GrabMode::Free && after.visible
        }),
{
}

/// Once the cursor is hidden exactly while it is locked, every frame keeps it
/// so, whatever the edges and the overlay.
pub proof fn lemma_visibility_mirrors_lock(c: CursorState, e: EngageEdges, ui_wants_pointer: bool)
    requires
        c.visible <==> !engaged(c),
    ensures
        cursor_after(c, e, ui_wants_pointer).visible <==> !engaged(cursor_after(c, e, ui_wants_pointer)),
{
}

/// A press while an overlay claims the pointer engages nothing: a cursor that
/// was not locked stays unlocked, and a press alone leaves the cursor as it was.
pub proof fn lemma_overlay_suppresses_press(c: CursorState, e: EngageEdges)
    ensures
        !engaged(c) ==> !engaged(cursor_after(c, e, true)),
        !e.just_released ==> cursor_after(c, e, true) == c,
{
}

impl CursorState {
    /// A freed, visible cursor, the state before any engagement.
    pub fn released() -> (r: CursorState)
        ensures
            r == released_cursor(),
    {
        CursorState { grab: GrabMode::Free, visible: true }
    }

    /// Whether mouse-look is engaged.
    pub fn is_engaged(&self) -> (r: bool)
        ensures
            r == engaged(*self),
    {
        match self.grab {
            GrabMode::Locked => true,
            _ => false,
        }
    }

    /// Applies the engage button's edges of one frame.
    pub fn apply_edges(&mut self, edges: EngageEdges, ui_wants_pointer: bool)
        ensures
            *final(self) == cursor_after(*old(self), edges, ui_wants_pointer),
    {
        if edges.just_released {
            self.grab = GrabMode::Free;
            self.visible = true;
        }
        if edges.just_pressed && !ui_wants_pointer {
            self.grab = GrabMode::Locked;
            self.visible = false;
        }
    }
}

} // verus!
