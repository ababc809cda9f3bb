//! Core logic of a falling-block puzzle game whose pieces are simulated as
//! connected rigid bodies under real physics rather than snapped to a grid.
//!
//! The library covers the coordinate transforms between the discrete board
//! grid and the continuous physics scene, the tetromino catalog, the piece
//! spawn planning, the input-to-force mapping, and the rest-detection /
//! respawn state machine.  The rendering and physics engine itself is an
//! external collaborator: the library computes plans and decisions over plain
//! values, and the driver carries them out.
//!
//! Every position that the game ever feeds to the physics engine lies on a
//! half-block boundary, so the library measures physics lengths in
//! *half-block units*: the physics coordinate `-n_lanes/2 + col + 0.5`
//! is held exactly as the integer `-n_lanes + 2*col + 1`.  The driver divides
//! by two when it talks to the engine.

pub mod board;
pub mod game;
pub mod movement;
pub mod rest;
pub mod spawn;
pub mod tetromino;
