//! Authoritative core of a real-time multiplayer arena game.
//!
//! Every player owns a [`trajectory::Trajectory`]: a physical state that moves
//! in fixed timesteps and is identified by a short digest.  The numeric
//! kinematics of a step are supplied by the caller; everything that decides
//! what happens to a trajectory, a player or the world is proved here.

pub mod bodies;
pub mod codec;
pub mod curve;
pub mod game;
pub mod gameobjects;
pub mod handler;
pub mod hex;
pub mod ident;
pub mod player;
pub mod shop;
pub mod trajectory;
pub mod world;
pub mod ws;
