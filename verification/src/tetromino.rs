//! The tetromino catalog: the seven piece kinds, the geometry of a piece in
//! tetromino space, and the random draw that picks the next piece.

use vstd::prelude::*;

verus! {

/// The seven tetromino kinds of the game.
#[derive(Clone, Copy, Debug, PartialEq, Eq, Structural)]
pub enum TetrominoKind {
    I,
    O,
    T,
    J,
    L,
    S,
    Z,
}

/// The kind drawn for each index of the inclusive seven-outcome range the
/// random draw samples from.
pub open spec fn kind_of_index(i: int) -> TetrominoKind {
    if i == 0 {
        TetrominoKind::I
    } else if i == 1 {
        TetrominoKind::O
    } else if i == 2 {
        TetrominoKind::T
    } else if i == 3 {
        TetrominoKind::J
    } else if i == 4 {
        TetrominoKind::L
    } else if i == 5 {
        TetrominoKind::S
    } else {
        TetrominoKind::Z
    }
}

/// The four tetromino-space block coordinates of a piece of kind `kind`.
///
/// Every kind currently shares one fixed arrangement: a three-block row with
/// one block hanging below the middle.  Kind-specific geometry is a known
/// gap of the catalog, so the contracts are stated over this function rather
/// than over literal coordinates.
pub open spec fn catalog_coords(kind: TetrominoKind) -> Seq<(i32, i32)> {
    seq![(0i32, 0i32), (1i32, 0i32), (2i32, 0i32), (1i32, -1i32)]
}

/// The joint list of a piece of kind `kind`: each pair names the two blocks,
/// by their index into `catalog_coords`, that a physical joint connects.
pub open spec fn catalog_joints(kind: TetrominoKind) -> Seq<(usize, usize)> {
    seq![(0usize, 1usize), (1usize, 2usize), (1usize, 3usize)]
}

/// The layout of one tetromino: its four block coordinates in tetromino
/// space, and the pairs of block indices that are to be physically jointed.
pub struct TetrominoLayout {
    /// The four block coordinates, in tetromino space.
    pub coords: Vec<(i32, i32)>,
    /// The joints, as pairs of indices into `coords`.
    pub joints: Vec<(usize, usize)>,
}

impl TetrominoLayout {
    /// Every layout has exactly four coordinates, each within one piece's
    /// span of the pivot and none above the pivot row (so a piece spawned
    /// with its pivot in the top row fits at or above it), and every joint
    /// index names one of the four coordinate slots.
    pub open spec fn wf(self) -> bool {
        &&& self.coords@.len() == 4
        &&& forall|k: int|
            0 <= k < self.coords@.len() ==> {
                &&& -4 <= #[trigger] self.coords@[k].0 <= 4
                &&& -4 <= self.coords@[k].1 <= 0
            }
        &&& forall|k: int|
            0 <= k < self.joints@.len() ==> {
                &&& #[trigger] self.joints@[k].0 < 4
                &&& self.joints@[k].1 < 4
            }
    }
}

/// Law: every layout of the catalog has exactly four block coordinates, and
/// every joint references two of the four coordinate slots, whatever the
/// kind.
pub proof fn lemma_catalog_well_formed(kind: TetrominoKind)
    ensures
        catalog_coords(kind).len() == 4,
        forall|k: int|
            0 <= k < catalog_joints(kind).len() ==> {
                &&& #[trigger] catalog_joints(kind)[k].0 < 4
                &&& catalog_joints(kind)[k].1 < 4
            },
{
}

/// Relies on rand::random_range over `0..7` (the thread-local generator,
/// uniform over the range): the draw lies below seven.  Which value comes
/// back is up to the generator; nothing more is assumed.
#[verifier::external_body]
fn random_index_below_seven() -> (r: u8)
    ensures
        r < 7,
{
    rand::random_range(0..7)
}

/// The kind denoted by draw index `i`, as a verified function: whatever the
/// random draw returns, the piece it selects is fixed by this mapping.
pub fn kind_from_index(i: u8) -> (r: TetrominoKind)
    requires
        i < 7,
    ensures
        r == kind_of_index(i as int),
{
    match i {
        0 => TetrominoKind::I,
        1 => TetrominoKind::O,
        2 => TetrominoKind::T,
        3 => TetrominoKind::J,
        4 => TetrominoKind::L,
        5 => TetrominoKind::S,
        _ => TetrominoKind::Z,
    }
}

impl TetrominoKind {
    /// Draws the next piece kind: a uniform draw over the seven kinds.
    /// The outcome is random, so no particular kind is promised.
    pub fn random() -> (r: Self) {
        let i = random_index_below_seven();
        kind_from_index(i)
    }

    /// The layout of a piece of this kind: exactly four block coordinates
    /// and the joint topology connecting them, as the catalog fixes them.
    pub fn layout(&self) -> (r: TetrominoLayout)
        ensures
            r.coords@ =~= catalog_coords(*self),
            r.joints@ =~= catalog_joints(*self),
            r.wf(),
    {
        let mut coords: Vec<(i32, i32)> = Vec::new();
        coords.push((0, 0));
        coords.push((1, 0));
        coords.push((2, 0));
        coords.push((1, -1));
        let mut joints: Vec<(usize, usize)> = Vec::new();
        joints.push((0, 1));
        joints.push((1, 2));
        joints.push((1, 3));
        TetrominoLayout { coords, joints }
    }
}

} // verus!
