//! Piece spawning: turning a tetromino kind into a plan of physics-engine
//! construction requests — one dynamic body per block, one joint per entry
//! of the kind's joint list — and installing the entities the engine handed
//! back into the session registry.

use vstd::prelude::*;
use crate::game::{Game, entities_unique, phys_x_half, phys_y_half, spawn_col, spawn_row};
use crate::tetromino::{TetrominoKind, catalog_coords, catalog_joints};

verus! {

/// Physics x, in half-block units, where the block at tetromino-space
/// column `col` of a fresh piece is created.
pub open spec fn spawn_block_x(n_lanes: int, col: int) -> int {
    phys_x_half(n_lanes, spawn_col(n_lanes, col))
}

/// Physics y, in half-block units, where the block at tetromino-space
/// row `row` of a fresh piece is created.
pub open spec fn spawn_block_y(n_rows: int, row: int) -> int {
    phys_y_half(n_rows, spawn_row(n_rows, row))
}

/// One block of a fresh piece: the position, in half-block units, at which
/// the engine is asked to create its dynamic rigid body.
#[derive(Clone, Copy, Debug, PartialEq, Eq, Structural)]
pub struct BlockSpawn {
    pub x_half: i64,
    pub y_half: i64,
}

/// One joint of a fresh piece: the two blocks it connects, by index into
/// the plan's block list, and the anchor offset on each body, in half-block
/// units.  The anchors meet at the midpoint between the two blocks: each
/// anchor is half the tetromino-space displacement between them, which in
/// half-block units is the displacement itself.
#[derive(Clone, Copy, Debug, PartialEq, Eq, Structural)]
pub struct JointPlan {
    pub block_a: usize,
    pub block_b: usize,
    pub anchor_a_x_half: i64,
    pub anchor_a_y_half: i64,
    pub anchor_b_x_half: i64,
    pub anchor_b_y_half: i64,
}

/// The construction requests for one fresh piece.
pub struct SpawnPlan {
    pub blocks: Vec<BlockSpawn>,
    pub joints: Vec<JointPlan>,
}

/// Computes the construction requests for a fresh piece of kind `kind`:
/// all four blocks of the kind's layout, positioned so the piece spawns
/// horizontally centered in the topmost visible row, and one joint per
/// entry of the kind's joint list, anchored at the midpoints between the
/// blocks each joint connects.
pub fn spawn_plan(game: &Game, kind: TetrominoKind) -> (r: SpawnPlan)
    requires
        game.wf(),
    ensures
        r.blocks@.len() == 4,
        forall|k: int|
            0 <= k < 4 ==> {
                &&& #[trigger] r.blocks@[k].x_half == spawn_block_x(
                    game.n_lanes as int,
                    catalog_coords(kind)[k].0 as int,
                )
                &&& r.blocks@[k].y_half == spawn_block_y(
                    game.n_rows as int,
                    catalog_coords(kind)[k].1 as int,
                )
            },
        r.joints@.len() == catalog_joints(kind).len(),
        forall|k: int|
            0 <= k < catalog_joints(kind).len() ==> {
                let a = catalog_joints(kind)[k].0 as int;
                let b = catalog_joints(kind)[k].1 as int;
                &&& #[trigger] r.joints@[k].block_a == a
                &&& r.joints@[k].block_b == b
                &&& r.joints@[k].anchor_a_x_half == catalog_coords(kind)[b].0
                    - catalog_coords(kind)[a].0
                &&& r.joints@[k].anchor_a_y_half == catalog_coords(kind)[b].1
                    - catalog_coords(kind)[a].1
                &&& r.joints@[k].anchor_b_x_half == -r.joints@[k].anchor_a_x_half
                &&& r.joints@[k].anchor_b_y_half == -r.joints@[k].anchor_a_y_half
            },
{
    let layout = kind.layout();
    let mut blocks: Vec<BlockSpawn> = Vec::new();
    let mut idx: usize = 0;
    while idx < layout.coords.len()
        invariant
            game.wf(),
            layout.wf(),
            layout.coords@ =~= catalog_coords(kind),
            idx <= layout.coords@.len(),
            blocks@.len() == idx,
            forall|k: int|
                0 <= k < idx ==> {
                    &&& #[trigger] blocks@[k].x_half == spawn_block_x(
                        game.n_lanes as int,
                        catalog_coords(kind)[k].0 as int,
                    )
                    &&& blocks@[k].y_half == spawn_block_y(
                        game.n_rows as int,
                        catalog_coords(kind)[k].1 as int,
                    )
                },
        decreases layout.coords@.len() - idx,
    {
        let coord = layout.coords[idx];
        let board_coord = game.translate_to_board_center_top(coord);
        let (x_half, y_half) = game.board_to_physics(board_coord);
        blocks.push(BlockSpawn { x_half, y_half });
        idx = idx + 1;
    }
    let mut joints: Vec<JointPlan> = Vec::new();
    let mut jdx: usize = 0;
    while jdx < layout.joints.len()
        invariant
            layout.wf(),
            layout.coords@ =~= catalog_coords(kind),
            layout.joints@ =~= catalog_joints(kind),
            jdx <= layout.joints@.len(),
            joints@.len() == jdx,
            forall|k: int|
                0 <= k < jdx ==> {
                    let a = catalog_joints(kind)[k].0 as int;
                    let b = catalog_joints(kind)[k].1 as int;
                    &&& #[trigger] joints@[k].block_a == a
                    &&& joints@[k].block_b == b
                    &&& joints@[k].anchor_a_x_half == catalog_coords(kind)[b].0
                        - catalog_coords(kind)[a].0
                    &&& joints@[k].anchor_a_y_half == catalog_coords(kind)[b].1
                        - catalog_coords(kind)[a].1
                    &&& joints@[k].anchor_b_x_half == -joints@[k].anchor_a_x_half
                    &&& joints@[k].anchor_b_y_half == -joints@[k].anchor_a_y_half
                },
        decreases layout.joints@.len() - jdx,
    {
        let (a, b) = layout.joints[jdx];
        let ca = layout.coords[a];
        let cb = layout.coords[b];
        let dx: i64 = cb.0 as i64 - ca.0 as i64;
        let dy: i64 = cb.1 as i64 - ca.1 as i64;
        joints.push(JointPlan {
            block_a: a,
            block_b: b,
            anchor_a_x_half: dx,
            anchor_a_y_half: dy,
            anchor_b_x_half: -dx,
            anchor_b_y_half: -dy,
        });
        jdx = jdx + 1;
    }
    SpawnPlan { blocks, joints }
}

impl Game {
    /// Installs a freshly spawned piece into the session: the registry is
    /// *replaced* by the new entities, never merged with the previous
    /// piece's, and nothing else of the session changes.
    pub fn install_piece(&mut self, blocks: Vec<u64>, joints: Vec<u64>)
        requires
            old(self).wf(),
            entities_unique(blocks@),
        ensures
            final(self).wf(),
            final(self).current_tetromino_blocks@ == blocks@,
            final(self).current_tetromino_joints@ == joints@,
            final(self).n_lanes == old(self).n_lanes,
            final(self).n_rows == old(self).n_rows,
            final(self).block_color == old(self).block_color,
            final(self).camera == old(self).camera,
    {
        self.current_tetromino_blocks = blocks;
        self.current_tetromino_joints = joints;
    }
}

} // verus!
