//! Input snapshots and the resolvers that turn them into player motion.
pub mod camera;
pub mod input;
pub mod player;
