//! Decision logic of a first-person fly camera and of a drag-to-rotate scene
//! bootstrap: cursor engagement, movement axes, the per-frame plan, and the
//! selection of scene parts that react to dragging.

pub mod cursor;
pub mod frame;
pub mod movement;
pub mod scene;
