//! Waypoint following for simulated bodies: the navigation state machine that
//! drives a body along a route planned on a navmesh, the fixed-timestep clock
//! that paces the simulation, and the asset-descriptor decisions of the loader.

pub mod assets;
pub mod clock;
pub mod nav;
