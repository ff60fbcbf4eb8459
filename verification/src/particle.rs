//! A point particle with position, velocity and constant acceleration.

use vstd::prelude::*;
use crate::sampling::sample_unit;
use crate::vector::{spec_add_vec, vec_in_unit, Vec3D};

verus! {

/// One point mass: its position, velocity and acceleration. The
/// acceleration is fixed at creation; [`Particle::update`] never changes it.
#[derive(Clone, Copy, PartialEq, Eq, Structural, Debug)]
pub struct Particle {
    pub position: Vec3D,
    pub velocity: Vec3D,
    pub acceleration: Vec3D,
}

/// One discrete step of a particle: the velocity grows by the acceleration
/// first, and the position then grows by that already updated velocity.
/// Swapping the two accumulations would change the trajectory; this order is
/// the contract.
pub open spec fn spec_step(p: Particle) -> Particle {
    let vel = spec_add_vec(p.velocity, p.acceleration);
    Particle {
        position: spec_add_vec(p.position, vel),
        velocity: vel,
        acceleration: p.acceleration,
    }
}

impl Particle {
    /// The particle with the given state.
    pub fn new(position: Vec3D, velocity: Vec3D, acceleration: Vec3D) -> (p: Particle)
        ensures
            p == (Particle { position, velocity, acceleration }),
    {
        Particle { position, velocity, acceleration }
    }

    /// A particle with position, velocity and acceleration drawn from the
    /// random source, every component strictly inside (-1, 1).
    ///
    /// The nine samples are drawn in a fixed order — position x, y, z, then
    /// velocity x, y, z, then acceleration x, y, z — so that a seeded
    /// generator yields the same particle on every run. The draws cannot
    /// fail: the sampled interval is built into the conversion.
    pub fn spawn(rng: &mut rand::rngs::StdRng) -> (p: Particle)
        ensures
            vec_in_unit(p.position),
            vec_in_unit(p.velocity),
            vec_in_unit(p.acceleration),
    {
        let px = sample_unit(rng);
        let py = sample_unit(rng);
        let pz = sample_unit(rng);
        let vx = sample_unit(rng);
        let vy = sample_unit(rng);
        let vz = sample_unit(rng);
        let ax = sample_unit(rng);
        let ay = sample_unit(rng);
        let az = sample_unit(rng);
        Particle {
            position: Vec3D { x: px, y: py, z: pz },
            velocity: Vec3D { x: vx, y: vy, z: vz },
            acceleration: Vec3D { x: ax, y: ay, z: az },
        }
    }

    /// Advances the particle by one step: velocity plus acceleration first,
    /// then position plus the new velocity (see [`spec_step`]). The
    /// acceleration is left untouched.
    pub fn update(&mut self)
        ensures
            *final(self) == spec_step(*old(self)),
            final(self).acceleration == old(self).acceleration,
    {
        self.velocity.add_assign(&self.acceleration);
        self.position.add_assign(&self.velocity);
    }
}

} // verus!
