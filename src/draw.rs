use vstd::prelude::*;

verus! {

/// What an entity on the board is, so that the renderer can pick its style.
#[derive(Clone, Copy, Debug, PartialEq, Eq, Structural)]
pub enum Role {
    SnakeHead,
    SnakeBody,
    Food,
    Border,
    GameOverOverlay,
}

/// One rectangle to draw, in grid units: its top-left cell and its size.
#[derive(Clone, Copy, Debug, PartialEq, Eq, Structural)]
pub struct DrawCmd {
    pub role: Role,
    pub x: i32,
    pub y: i32,
    pub width: i32,
    pub height: i32,
}

/// A rectangle of the given role, position and size.
pub open spec fn rect_spec(role: Role, x: i32, y: i32, width: i32, height: i32) -> DrawCmd {
    DrawCmd { role, x, y, width, height }
}

/// A single cell of the given role.
pub open spec fn block_spec(role: Role, x: i32, y: i32) -> DrawCmd {
    rect_spec(role, x, y, 1, 1)
}

/// Builds a single-cell draw command.
pub fn block(role: Role, x: i32, y: i32) -> (r: DrawCmd)
    ensures
        r == block_spec(role, x, y),
{
    DrawCmd { role, x, y, width: 1, height: 1 }
}

/// Builds a rectangular draw command.
pub fn rect(role: Role, x: i32, y: i32, width: i32, height: i32) -> (r: DrawCmd)
    ensures
        r == rect_spec(role, x, y, width, height),
{
    DrawCmd { role, x, y, width, height }
}

} // verus!
