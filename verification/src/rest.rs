//! The rest detector / respawn driver: each frame the driver reports the
//! sleep status the engine knows for every registered block, and this module
//! decides whether the falling piece has come to rest.  When it has, the
//! piece's joints are to be despawned and the next piece spawned; the
//! decision carries exactly the joints to remove.

use vstd::prelude::*;
use crate::game::Game;

verus! {

/// Every reported status is a confirmed "sleeping".  A block the engine did
/// not find reports `None` and counts as not sleeping: the transition waits
/// until every block is confirmed at rest.
pub open spec fn all_blocks_sleeping(sleeping: Seq<Option<bool>>) -> bool {
    forall|k: int| 0 <= k < sleeping.len() ==> sleeping[k] == Some(true)
}

/// The rest transition fires exactly when the session has a registered
/// piece and every one of its blocks is confirmed sleeping.  An empty
/// registry never fires: there is no piece to retire.
pub open spec fn rest_transition_fires(game: Game, sleeping: Seq<Option<bool>>) -> bool {
    &&& game.current_tetromino_blocks@.len() > 0
    &&& all_blocks_sleeping(sleeping)
}

/// What the frame's rest detection asks of the driver.
pub enum RestDecision {
    /// The piece is still falling (or none is registered): do nothing.
    Idle,
    /// The piece is at rest: despawn exactly these joint entities, then
    /// spawn the next piece.
    Respawn { joints_to_despawn: Vec<u64> },
}

/// Decides this frame's rest transition.  `sleeping[k]` is the engine's
/// sleep status for the `k`-th registered block, `None` where the engine no
/// longer knows the entity.
pub fn rest_decision(game: &Game, sleeping: &Vec<Option<bool>>) -> (r: RestDecision)
    requires
        game.wf(),
        sleeping@.len() == game.current_tetromino_blocks@.len(),
    ensures
        r is Respawn <==> rest_transition_fires(*game, sleeping@),
        r matches RestDecision::Respawn { joints_to_despawn } ==> joints_to_despawn@
            == game.current_tetromino_joints@,
{
    if game.current_tetromino_blocks.len() == 0 {
        return RestDecision::Idle;
    }
    let mut idx: usize = 0;
    while idx < sleeping.len()
        invariant
            sleeping@.len() == game.current_tetromino_blocks@.len(),
            idx <= sleeping@.len(),
            forall|k: int| 0 <= k < idx ==> sleeping@[k] == Some(true),
        decreases sleeping@.len() - idx,
    {
        let status = sleeping[idx];
        match status {
            Some(true) => {},
            _ => {
                assert(sleeping@[idx as int] != Some(true));
                return RestDecision::Idle;
            },
        }
        idx = idx + 1;
    }
    let mut joints_to_despawn: Vec<u64> = Vec::new();
    let mut jdx: usize = 0;
    while jdx < game.current_tetromino_joints.len()
        invariant
            jdx <= game.current_tetromino_joints@.len(),
            joints_to_despawn@ =~= game.current_tetromino_joints@.take(jdx as int),
        decreases game.current_tetromino_joints@.len() - jdx,
    {
        joints_to_despawn.push(game.current_tetromino_joints[jdx]);
        jdx = jdx + 1;
    }
    assert(joints_to_despawn@ =~= game.current_tetromino_joints@);
    RestDecision::Respawn { joints_to_despawn }
}

/// Law: as long as any one registered block is not confirmed sleeping, the
/// rest transition does not fire, whatever the other blocks report.
pub proof fn lemma_no_transition_unless_all_sleeping(
    game: Game,
    sleeping: Seq<Option<bool>>,
    k: int,
)
    requires
        0 <= k < sleeping.len(),
        sleeping[k] != Some(true),
    ensures
        !rest_transition_fires(game, sleeping),
{
    assert(!all_blocks_sleeping(sleeping)) by {
        assert(0 <= k < sleeping.len() && sleeping[k] != Some(true));
    }
}

/// Law: with an empty registry the rest transition never fires, so no
/// respawn is ever triggered before the first piece exists.
pub proof fn lemma_empty_registry_never_fires(game: Game, sleeping: Seq<Option<bool>>)
    requires
        game.current_tetromino_blocks@.len() == 0,
    ensures
        !rest_transition_fires(game, sleeping),
{
}

} // verus!
