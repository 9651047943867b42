//! A minimal 2D physics core for a pool-table sandbox: circular bodies
//! ("poolballs") move under explicit velocity integration and are influenced
//! by fixed gravity sources ("blackholes") that destroy a body on contact.
//!
//! All state is held in fixed-point coordinates (see [`fixed`]): one world
//! unit is `fixed::SCALE` micro-units, and every operation carries an exact
//! integer contract. Rendering and windowing are left to an outside driver,
//! which reads the plain numeric state exposed here.

pub mod blackhole;
pub mod fixed;
pub mod poolball;
pub mod vec2;
