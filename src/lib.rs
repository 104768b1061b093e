//! A fixed-point character controller: floor detection, walking and turning,
//! a look-around camera rig with obstruction avoidance, and the switch
//! between scripted motion and a physics-driven ragdoll.
pub mod angle;
pub mod controls;
pub mod entities;
pub mod fixed;
