//! The input controller: sampling the held movement keys into a signed
//! direction and turning it into the horizontal forces to write into the
//! force accumulators of the falling piece's blocks.

use vstd::prelude::*;
use crate::game::Game;

verus! {

/// Magnitude of the horizontal force applied to each block of the falling
/// piece while a movement key is held.
pub const MOVEMENT_FORCE: i64 = 20;

/// The signed movement direction read from the held keys: `+1` for right,
/// `-1` for left, `0` when both or neither are held.
pub open spec fn movement_sign_spec(right_held: bool, left_held: bool) -> int {
    (if right_held { 1int } else { 0int }) - (if left_held { 1int } else { 0int })
}

/// One force update: the value to write into the force accumulator of the
/// block entity `entity`.
#[derive(Clone, Copy, Debug, PartialEq, Eq, Structural)]
pub struct BlockForce {
    pub entity: u64,
    pub force_x: i64,
    pub force_y: i64,
}

/// Computes the signed movement direction from the held keys.
pub fn movement_sign(right_held: bool, left_held: bool) -> (r: i8)
    ensures
        r as int == movement_sign_spec(right_held, left_held),
{
    (if right_held { 1i8 } else { 0i8 }) - (if left_held { 1i8 } else { 0i8 })
}

/// Computes this frame's force updates for the falling piece.
///
/// When exactly one movement key is held, every registered block gets a
/// horizontal force of magnitude `MOVEMENT_FORCE`, signed by the direction;
/// when both or neither are held, no update is issued at all, so whatever
/// force each accumulator already holds persists.  A block the engine no
/// longer knows is the driver's to skip: the update for it is simply inert.
pub fn movement_forces(game: &Game, right_held: bool, left_held: bool) -> (r: Vec<BlockForce>)
    requires
        game.wf(),
    ensures
        movement_sign_spec(right_held, left_held) == 0 ==> r@.len() == 0,
        movement_sign_spec(right_held, left_held) != 0 ==> {
            &&& r@.len() == game.current_tetromino_blocks@.len()
            &&& forall|k: int|
                0 <= k < r@.len() ==> {
                    &&& #[trigger] r@[k].entity == game.current_tetromino_blocks@[k]
                    &&& r@[k].force_x == movement_sign_spec(right_held, left_held) * (
                    MOVEMENT_FORCE as int)
                    &&& r@[k].force_y == 0
                }
        },
{
    let sign = movement_sign(right_held, left_held);
    let mut r: Vec<BlockForce> = Vec::new();
    if sign == 0 {
        return r;
    }
    let force_x: i64 = if sign > 0 {
        MOVEMENT_FORCE
    } else {
        -MOVEMENT_FORCE
    };
    let mut idx: usize = 0;
    while idx < game.current_tetromino_blocks.len()
        invariant
            game.wf(),
            force_x == movement_sign_spec(right_held, left_held) * MOVEMENT_FORCE as int,
            idx <= game.current_tetromino_blocks@.len(),
            r@.len() == idx,
            forall|k: int|
                0 <= k < idx ==> #[trigger] r@[k] == (BlockForce {
                    entity: game.current_tetromino_blocks@[k],
                    force_x: force_x,
                    force_y: 0,
                }),
        decreases game.current_tetromino_blocks@.len() - idx,
    {
        r.push(BlockForce { entity: game.current_tetromino_blocks[idx], force_x, force_y: 0 });
        idx = idx + 1;
    }
    r
}

} // verus!
