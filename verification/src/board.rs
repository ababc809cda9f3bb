//! Board setup: the one static floor body that bounds the simulation from
//! below, and the engine configuration constants shared by every body.

use vstd::prelude::*;
use crate::game::Game;

verus! {

/// Side of one block on screen, in pixels: the scale factor between physics
/// units and screen coordinates, set once on the engine at startup.
pub const BLOCK_PX_SIZE: u32 = 30;

/// Height of the floor slab, in half-block units (two blocks tall).
pub const FLOOR_BLOCK_HEIGHT_HALF: i64 = 4;

/// Linear damping applied to every block's rigid body; blocks get no
/// angular damping.
pub const BLOCK_LINEAR_DAMPING: u32 = 1;

/// Half-extent of one block's square collider, in half-block units: each
/// block is one block wide and one block tall.
pub const BLOCK_COLLIDER_HALF_EXTENT_HALF: i64 = 1;

/// The construction request for the floor: one *static* rigid body — of
/// infinite effective mass, unaffected by forces — with a box collider, all
/// lengths in half-block units.  The body sits centered under the board,
/// its top face flush with the bottom edge of row zero.
#[derive(Clone, Copy, Debug, PartialEq, Eq, Structural)]
pub struct FloorPlan {
    /// x of the body's center.
    pub x_half: i64,
    /// y of the body's center: half the slab's height below the floor line.
    pub y_half: i64,
    /// Horizontal half-extent of the collider: half the board's width.
    pub half_extent_x_half: i64,
    /// Vertical half-extent of the collider: half the slab's height.
    pub half_extent_y_half: i64,
}

/// Computes the construction request for the board's floor.
pub fn floor_plan(game: &Game) -> (r: FloorPlan)
    requires
        game.wf(),
    ensures
        r.x_half == 0,
        r.y_half == -(game.n_rows as int) - FLOOR_BLOCK_HEIGHT_HALF / 2,
        r.half_extent_x_half == game.n_lanes as int,
        r.half_extent_y_half == FLOOR_BLOCK_HEIGHT_HALF / 2,
{
    let floor_y_half = game.floor_y_half();
    FloorPlan {
        x_half: 0,
        y_half: floor_y_half - FLOOR_BLOCK_HEIGHT_HALF / 2,
        half_extent_x_half: game.n_lanes as i64,
        half_extent_y_half: FLOOR_BLOCK_HEIGHT_HALF / 2,
    }
}

} // verus!
