//! Gameplay behaviour: the tetromino catalog and random draw, spawn
//! planning, the input controller, and the rest-detection state machine.

use tetrophys::game::Game;
use tetrophys::movement::{movement_forces, movement_sign, MOVEMENT_FORCE};
use tetrophys::rest::{rest_decision, RestDecision};
use tetrophys::spawn::spawn_plan;
use tetrophys::tetromino::TetrominoKind;

const ALL_KINDS: [TetrominoKind; 7] = [
    TetrominoKind::I,
    TetrominoKind::O,
    TetrominoKind::T,
    TetrominoKind::J,
    TetrominoKind::L,
    TetrominoKind::S,
    TetrominoKind::Z,
];

fn kind_index(kind: TetrominoKind) -> usize {
    match kind {
        TetrominoKind::I => 0,
        TetrominoKind::O => 1,
        TetrominoKind::T => 2,
        TetrominoKind::J => 3,
        TetrominoKind::L => 4,
        TetrominoKind::S => 5,
        TetrominoKind::Z => 6,
    }
}

#[test]
fn random_draw_covers_all_kinds_roughly_uniformly() {
    let n = 10_000usize;
    let mut counts = [0usize; 7];
    for _ in 0..n {
        counts[kind_index(TetrominoKind::random())] += 1;
    }
    // Expected count per kind is ~1428.6 with a standard deviation of ~35;
    // these bounds sit more than eight standard deviations out.
    for (i, &c) in counts.iter().enumerate() {
        assert!(
            (1100..=1800).contains(&c),
            "kind {} drawn {} times out of {}",
            i,
            c,
            n
        );
    }
    // Chi-square statistic against the uniform distribution, 6 degrees of
    // freedom; 60.0 is far beyond any plausible quantile, so a pass here
    // only rules out a grossly non-uniform draw.
    let expected = n as f64 / 7.0;
    let chi_square: f64 = counts
        .iter()
        .map(|&c| {
            let d = c as f64 - expected;
            d * d / expected
        })
        .sum();
    assert!(chi_square < 60.0, "chi-square {} too high", chi_square);
}

#[test]
fn every_layout_has_four_blocks_and_valid_joints() {
    for &kind in &ALL_KINDS {
        let layout = kind.layout();
        assert_eq!(layout.coords.len(), 4);
        for &(a, b) in &layout.joints {
            assert!(a < 4);
            assert!(b < 4);
        }
    }
}

#[test]
fn layout_matches_the_catalog() {
    let layout = TetrominoKind::J.layout();
    assert_eq!(layout.coords, vec![(0, 0), (1, 0), (2, 0), (1, -1)]);
    assert_eq!(layout.joints, vec![(0, 1), (1, 2), (1, 3)]);
}

#[test]
fn spawn_plan_places_all_four_blocks_at_the_top() {
    let g = Game::new(10, 20).unwrap();
    let plan = spawn_plan(&g, TetrominoKind::T);
    // Tetromino coords (0,0),(1,0),(2,0),(1,-1) land in board cells
    // (5,19),(6,19),(7,19),(6,18), whose centers in half-block units are:
    let expected = [(1, 19), (3, 19), (5, 19), (3, 17)];
    assert_eq!(plan.blocks.len(), 4);
    for (block, &(x, y)) in plan.blocks.iter().zip(expected.iter()) {
        assert_eq!(block.x_half, x);
        assert_eq!(block.y_half, y);
    }
}

#[test]
fn spawn_plan_joints_anchor_at_midpoints() {
    let g = Game::new(10, 20).unwrap();
    let plan = spawn_plan(&g, TetrominoKind::S);
    assert_eq!(plan.joints.len(), 3);
    // Joint (0,1): displacement (1,0) blocks; anchors +-half of it, which in
    // half-block units is the displacement itself.
    assert_eq!(plan.joints[0].block_a, 0);
    assert_eq!(plan.joints[0].block_b, 1);
    assert_eq!(
        (plan.joints[0].anchor_a_x_half, plan.joints[0].anchor_a_y_half),
        (1, 0)
    );
    assert_eq!(
        (plan.joints[0].anchor_b_x_half, plan.joints[0].anchor_b_y_half),
        (-1, 0)
    );
    // Joint (1,3): displacement (0,-1).
    assert_eq!(plan.joints[2].block_a, 1);
    assert_eq!(plan.joints[2].block_b, 3);
    assert_eq!(
        (plan.joints[2].anchor_a_x_half, plan.joints[2].anchor_a_y_half),
        (0, -1)
    );
    assert_eq!(
        (plan.joints[2].anchor_b_x_half, plan.joints[2].anchor_b_y_half),
        (0, 1)
    );
}

#[test]
fn movement_sign_combines_held_keys() {
    assert_eq!(movement_sign(true, false), 1);
    assert_eq!(movement_sign(false, true), -1);
    assert_eq!(movement_sign(true, true), 0);
    assert_eq!(movement_sign(false, false), 0);
}

#[test]
fn right_held_pushes_every_block_right() {
    let mut g = Game::default();
    g.install_piece(vec![1, 2, 3], vec![]);
    let forces = movement_forces(&g, true, false);
    assert_eq!(forces.len(), 3);
    for (f, entity) in forces.iter().zip([1u64, 2, 3]) {
        assert_eq!(f.entity, entity);
        assert_eq!(f.force_x, MOVEMENT_FORCE);
        assert_eq!(f.force_y, 0);
    }
}

#[test]
fn left_held_pushes_every_block_left() {
    let mut g = Game::default();
    g.install_piece(vec![1, 2, 3], vec![]);
    let forces = movement_forces(&g, false, true);
    assert_eq!(forces.len(), 3);
    for f in &forces {
        assert_eq!(f.force_x, -MOVEMENT_FORCE);
        assert_eq!(f.force_y, 0);
    }
}

#[test]
fn both_or_neither_key_issues_no_update() {
    let mut g = Game::default();
    g.install_piece(vec![1, 2, 3], vec![]);
    assert!(movement_forces(&g, true, true).is_empty());
    assert!(movement_forces(&g, false, false).is_empty());
}

#[test]
fn no_transition_while_any_block_is_awake() {
    let mut g = Game::default();
    g.install_piece(vec![1, 2, 3, 4], vec![10, 11, 12]);
    for awake in 0..4 {
        let statuses: Vec<Option<bool>> = (0..4)
            .map(|i| if i == awake { Some(false) } else { Some(true) })
            .collect();
        assert!(matches!(rest_decision(&g, &statuses), RestDecision::Idle));
    }
    // A block the engine no longer knows also blocks the transition.
    let statuses = vec![Some(true), None, Some(true), Some(true)];
    assert!(matches!(rest_decision(&g, &statuses), RestDecision::Idle));
}

#[test]
fn all_blocks_sleeping_fires_exactly_one_respawn() {
    let mut g = Game::default();
    g.install_piece(vec![1, 2, 3, 4], vec![10, 11, 12]);
    let statuses = vec![Some(true); 4];
    match rest_decision(&g, &statuses) {
        RestDecision::Respawn { joints_to_despawn } => {
            // The joint list is handed over in full for despawning before
            // the next piece's registry is installed.
            assert_eq!(joints_to_despawn, vec![10, 11, 12]);
        }
        RestDecision::Idle => panic!("all blocks sleep: the transition must fire"),
    }
    // Installing the next piece replaces the whole registry.
    g.install_piece(vec![5, 6, 7, 8], vec![20, 21]);
    assert_eq!(g.current_tetromino_blocks, vec![5, 6, 7, 8]);
    assert_eq!(g.current_tetromino_joints, vec![20, 21]);
}

#[test]
fn empty_registry_never_triggers_a_spawn() {
    let g = Game::default();
    let statuses: Vec<Option<bool>> = vec![];
    assert!(matches!(rest_decision(&g, &statuses), RestDecision::Idle));
}

#[test]
fn installing_a_piece_replaces_the_previous_registry() {
    let mut g = Game::default();
    g.install_piece(vec![1, 2, 3, 4], vec![10, 11]);
    g.install_piece(vec![5, 6, 7, 8], vec![12, 13]);
    assert_eq!(g.current_tetromino_blocks, vec![5, 6, 7, 8]);
    assert_eq!(g.current_tetromino_joints, vec![12, 13]);
}

#[test]
fn session_runs_one_piece_at_a_time_end_to_end() {
    // Start a session on the stock 10 x 20 board and run the startup flow.
    let mut g = Game::new(10, 20).unwrap();
    g.set_block_color(77);
    g.set_camera(78);
    let kind = TetrominoKind::random();
    let plan = spawn_plan(&g, kind);
    let first_blocks: Vec<u64> = (100..100 + plan.blocks.len() as u64).collect();
    let first_joints: Vec<u64> = (200..200 + plan.joints.len() as u64).collect();
    g.install_piece(first_blocks.clone(), first_joints.clone());
    // Exactly one active piece exists.
    assert_eq!(g.current_tetromino_blocks, first_blocks);
    assert_eq!(g.current_tetromino_joints, first_joints);

    // While the piece falls, frames pass without a transition.
    let mut respawns = 0;
    for frame in 0..4 {
        let statuses: Vec<Option<bool>> = (0..4).map(|i| Some(frame > i)).collect();
        if let RestDecision::Respawn { .. } = rest_decision(&g, &statuses) {
            respawns += 1;
        }
    }
    assert_eq!(respawns, 0);

    // The frame all four blocks sleep, exactly one respawn fires.
    let statuses = vec![Some(true); 4];
    let decision = rest_decision(&g, &statuses);
    match decision {
        RestDecision::Respawn { joints_to_despawn } => {
            assert_eq!(joints_to_despawn, first_joints);
        }
        RestDecision::Idle => panic!("the resting piece must trigger a respawn"),
    }
    let next_plan = spawn_plan(&g, TetrominoKind::random());
    let next_blocks: Vec<u64> = (300..300 + next_plan.blocks.len() as u64).collect();
    let next_joints: Vec<u64> = (400..400 + next_plan.joints.len() as u64).collect();
    g.install_piece(next_blocks.clone(), next_joints.clone());
    // The new registry is disjoint from the retired piece's entities.
    assert_eq!(g.current_tetromino_blocks, next_blocks);
    for b in &g.current_tetromino_blocks {
        assert!(!first_blocks.contains(b));
    }
    for j in &g.current_tetromino_joints {
        assert!(!first_joints.contains(j));
    }
}
