//! Session state of one running game, and the transforms between the
//! discrete board grid and the continuous physics scene.
//!
//! Three coordinate systems appear here, all with the y axis pointing up:
//!
//! 1. *Tetromino space* (discrete): a piece's pivot block is `(0, 0)`.
//! 2. *Board space* (discrete): the bottom-left cell of the board is
//!    `(0, 0)`; columns run to the right, rows upward.
//! 3. *Physics space* (continuous): one block is one unit and the origin is
//!    the geometric center of the board, which keeps the magnitudes the
//!    physics solver sees small.
//!
//! Every physics position the game ever produces lies on a half-block
//! boundary, so this module measures physics lengths in *half-block units*
//! (`x_half == 2 * x`): the physics coordinate `-n_lanes/2 + col + 0.5`
//! is held exactly as the integer `-n_lanes + 2*col + 1`.

use vstd::prelude::*;

verus! {

/// Largest board dimension accepted along either axis.  It keeps every
/// half-unit coordinate within `i64` with room to spare and every board
/// coordinate within `i32`.
pub const MAX_BOARD_DIM: usize = 0x7fff_ffff;

/// Physics x, in half-block units, of the center of board column `col`:
/// the left edge of the board sits at `-n_lanes/2` blocks.
pub open spec fn phys_x_half(n_lanes: int, col: int) -> int {
    -n_lanes + 2 * col + 1
}

/// Physics y, in half-block units, of the center of board row `row`:
/// the floor of the board sits at `-n_rows/2` blocks.
pub open spec fn phys_y_half(n_rows: int, row: int) -> int {
    -n_rows + 2 * row + 1
}

/// Board column where a spawning piece's tetromino-space column `col` lands:
/// the pivot column is placed in the middle lane.
pub open spec fn spawn_col(n_lanes: int, col: int) -> int {
    col + n_lanes / 2
}

/// Board row where a spawning piece's tetromino-space row `row` lands:
/// the pivot row is placed in the topmost visible row, so cells at or below
/// the pivot start at or above `n_rows - 1`.
pub open spec fn spawn_row(n_rows: int, row: int) -> int {
    row + n_rows - 1
}

/// No entity identifier occurs twice in `s`.
pub open spec fn entities_unique(s: Seq<u64>) -> bool {
    forall|i: int, j: int| 0 <= i < j < s.len() ==> s[i] != s[j]
}

/// Session state of one running game.
///
/// The board dimensions are fixed at construction; the appearance and camera
/// handles are set once during setup.  The registry of the currently falling
/// piece (`current_tetromino_blocks` / `current_tetromino_joints`) holds the
/// engine's opaque entity identifiers and is *replaced* wholesale each time
/// a piece spawns: exactly one piece is active at a time.
pub struct Game {
    /// Number of columns of the board; positive.
    pub n_lanes: usize,
    /// Number of visible rows of the board; positive.
    pub n_rows: usize,
    /// Handle of the material shared by all blocks, once setup assigned one.
    pub block_color: Option<u64>,
    /// Block entities of the currently falling piece; no duplicates.
    pub current_tetromino_blocks: Vec<u64>,
    /// Joint entities connecting the blocks of the currently falling piece.
    pub current_tetromino_joints: Vec<u64>,
    /// Handle of the camera entity, once setup assigned one.
    pub camera: Option<u64>,
}

impl Game {
    /// The session invariant: positive, bounded board dimensions and a
    /// duplicate-free block registry.
    pub open spec fn wf(self) -> bool {
        &&& 0 < self.n_lanes <= MAX_BOARD_DIM
        &&& 0 < self.n_rows <= MAX_BOARD_DIM
        &&& entities_unique(self.current_tetromino_blocks@)
    }

    /// Builds a session over an `n_lanes` by `n_rows` board with an empty
    /// piece registry.  Degenerate dimensions (zero, or too large for the
    /// coordinate arithmetic) are rejected here, eagerly, rather than left
    /// to produce a degenerate floor collider.
    pub fn new(n_lanes: usize, n_rows: usize) -> (r: Option<Game>)
        ensures
            r is Some <==> (0 < n_lanes <= MAX_BOARD_DIM && 0 < n_rows <= MAX_BOARD_DIM),
            r matches Some(g) ==> {
                &&& g.wf()
                &&& g.n_lanes == n_lanes
                &&& g.n_rows == n_rows
                &&& g.block_color is None
                &&& g.current_tetromino_blocks@ =~= Seq::<u64>::empty()
                &&& g.current_tetromino_joints@ =~= Seq::<u64>::empty()
                &&& g.camera is None
            },
    {
        if 0 < n_lanes && n_lanes <= MAX_BOARD_DIM && 0 < n_rows && n_rows <= MAX_BOARD_DIM {
            Some(Game {
                n_lanes,
                n_rows,
                block_color: None,
                current_tetromino_blocks: Vec::new(),
                current_tetromino_joints: Vec::new(),
                camera: None,
            })
        } else {
            None
        }
    }

    /// Records the handle of the shared block material, once setup has
    /// created it on the engine; nothing else of the session changes.
    pub fn set_block_color(&mut self, handle: u64)
        requires
            old(self).wf(),
        ensures
            final(self).wf(),
            final(self).block_color == Some(handle),
            final(self).n_lanes == old(self).n_lanes,
            final(self).n_rows == old(self).n_rows,
            final(self).current_tetromino_blocks == old(self).current_tetromino_blocks,
            final(self).current_tetromino_joints == old(self).current_tetromino_joints,
            final(self).camera == old(self).camera,
    {
        self.block_color = Some(handle);
    }

    /// Records the handle of the camera entity, once setup has created it
    /// on the engine; nothing else of the session changes.
    pub fn set_camera(&mut self, handle: u64)
        requires
            old(self).wf(),
        ensures
            final(self).wf(),
            final(self).camera == Some(handle),
            final(self).n_lanes == old(self).n_lanes,
            final(self).n_rows == old(self).n_rows,
            final(self).block_color == old(self).block_color,
            final(self).current_tetromino_blocks == old(self).current_tetromino_blocks,
            final(self).current_tetromino_joints == old(self).current_tetromino_joints,
    {
        self.camera = Some(handle);
    }

    /// The y position of the floor, in half-block units: `-n_rows/2` blocks.
    pub fn floor_y_half(&self) -> (r: i64)
        requires
            self.wf(),
        ensures
            r == -(self.n_rows as int),
    {
        -(self.n_rows as i64)
    }

    /// The x position of the left edge of the board, in half-block units:
    /// `-n_lanes/2` blocks.
    pub fn left_edge_x_half(&self) -> (r: i64)
        requires
            self.wf(),
        ensures
            r == -(self.n_lanes as int),
    {
        -(self.n_lanes as i64)
    }

    /// Moves a tetromino-space coordinate to its spawn cell in board space:
    /// the piece's pivot is placed in the middle lane of the topmost visible
    /// row, so a fresh piece appears horizontally centered at the top of the
    /// board.
    pub fn translate_to_board_center_top(&self, coord: (i32, i32)) -> (r: (i32, i32))
        requires
            self.wf(),
            spawn_col(self.n_lanes as int, coord.0 as int) <= i32::MAX,
            spawn_row(self.n_rows as int, coord.1 as int) <= i32::MAX,
        ensures
            r.0 == spawn_col(self.n_lanes as int, coord.0 as int),
            r.1 == spawn_row(self.n_rows as int, coord.1 as int),
    {
        let col: i64 = coord.0 as i64 + (self.n_lanes / 2) as i64;
        let row: i64 = coord.1 as i64 + self.n_rows as i64 - 1;
        (col as i32, row as i32)
    }

    /// Translates a board-space coordinate to physics space, in half-block
    /// units: each cell maps to its center, half a block in from its
    /// bottom-left corner.
    pub fn board_to_physics(&self, coord: (i32, i32)) -> (r: (i64, i64))
        requires
            self.wf(),
        ensures
            r.0 == phys_x_half(self.n_lanes as int, coord.0 as int),
            r.1 == phys_y_half(self.n_rows as int, coord.1 as int),
    {
        let x = self.left_edge_x_half() + 2 * (coord.0 as i64) + 1;
        let y = self.floor_y_half() + 2 * (coord.1 as i64) + 1;
        (x, y)
    }

    /// Translates the physics-space center of a cell back to its board-space
    /// coordinate: the inverse of `board_to_physics` on cell centers whose
    /// column lies on the board and whose row is at or above the floor.
    pub fn physics_to_board(&self, pos: (i64, i64)) -> (r: (i32, i32))
        requires
            self.wf(),
            1 - self.n_lanes <= pos.0 <= self.n_lanes - 1,
            (pos.0 + self.n_lanes - 1) % 2 == 0,
            1 - self.n_rows <= pos.1,
            pos.1 + self.n_rows - 1 <= 2 * (i32::MAX as int),
            (pos.1 + self.n_rows - 1) % 2 == 0,
        ensures
            phys_x_half(self.n_lanes as int, r.0 as int) == pos.0,
            phys_y_half(self.n_rows as int, r.1 as int) == pos.1,
            0 <= r.0 < self.n_lanes,
            0 <= r.1,
    {
        let tx: i64 = pos.0 + self.n_lanes as i64 - 1;
        let ty: i64 = pos.1 + self.n_rows as i64 - 1;
        let col: i64 = tx / 2;
        let row: i64 = ty / 2;
        (col as i32, row as i32)
    }
}

/// Law: `board_to_physics` composed with its inverse recovers the original
/// discrete coordinate exactly, for every positive board dimension: the cell
/// center `-d + 2*c + 1` divides back to `c`.
pub proof fn lemma_board_physics_round_trip(n_lanes: int, n_rows: int, col: int, row: int)
    requires
        0 < n_lanes,
        0 < n_rows,
    ensures
        (phys_x_half(n_lanes, col) + n_lanes - 1) / 2 == col,
        (phys_y_half(n_rows, row) + n_rows - 1) / 2 == row,
{
}

/// Law: the origin cell `(0, 0)` maps to the center of the board's
/// bottom-left cell, `(-n_lanes/2 + 0.5, -n_rows/2 + 0.5)` in blocks —
/// `(1 - n_lanes, 1 - n_rows)` in half-block units — for every board
/// dimension.
pub proof fn lemma_origin_cell_position(n_lanes: int, n_rows: int)
    ensures
        phys_x_half(n_lanes, 0) == 1 - n_lanes,
        phys_y_half(n_rows, 0) == 1 - n_rows,
{
}

impl Default for Game {
    /// The stock configuration: a 10-lane, 20-row board with nothing spawned.
    fn default() -> (r: Self)
        ensures
            r.wf(),
            r.n_lanes == 10,
            r.n_rows == 20,
            r.block_color is None,
            r.current_tetromino_blocks@ =~= Seq::<u64>::empty(),
            r.current_tetromino_joints@ =~= Seq::<u64>::empty(),
            r.camera is None,
    {
        Game {
            n_lanes: 10,
            n_rows: 20,
            block_color: None,
            current_tetromino_blocks: Vec::new(),
            current_tetromino_joints: Vec::new(),
            camera: None,
        }
    }
}

} // verus!
