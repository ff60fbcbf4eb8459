//! A swarm of point particles in 3-D space.
//!
//! The crate models particles that move under a constant per-particle
//! acceleration, advanced one discrete step at a time, and answers
//! nearest-neighbor queries against the swarm's current positions under the
//! L1 distance. Scalars are IEEE-754 binary64 values, held throughout as
//! their 64-bit patterns (see [`bits`]).

pub mod bits;
pub mod particle;
pub mod sampling;
pub mod swarm;
pub mod vector;
