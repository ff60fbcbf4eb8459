//! An ordered swarm of particles: collective stepping and nearest-neighbor
//! queries.

use vstd::prelude::*;
use crate::particle::{spec_step, Particle};
use crate::vector::{spec_norm1, spec_sub_vec, Vec3D};

verus! {

/// The L1 distance from the position of `p` to the point `q`, as the bit
/// pattern of its binary64 value.
///
/// Distances are compared below as plain 64-bit patterns. For patterns with
/// a clear sign bit — and [`crate::vector::Vec3D::norm1`] always returns one
/// — that order coincides with the numeric order of the values, and every
/// NaN pattern ranks above every numeric pattern, so a particle whose
/// distance is NaN is never preferred over one with a numeric distance.
pub open spec fn spec_dist(p: Particle, q: Vec3D) -> u64 {
    spec_norm1(spec_sub_vec(p.position, q))
}

/// An ordered, insertion-order-preserving collection of particles, indexed
/// from zero. Indices are stable: updating the swarm steps every particle
/// in place and neither adds, removes nor reorders members.
pub struct Swarm {
    pub particles: Vec<Particle>,
}

impl Swarm {
    /// A swarm owning the given particles, in the given order.
    pub fn new(particles: Vec<Particle>) -> (s: Swarm)
        ensures
            s.particles == particles,
    {
        Swarm { particles }
    }

    /// The number of particles in the swarm.
    pub fn len(&self) -> (n: usize)
        ensures
            n == self.particles@.len(),
    {
        self.particles.len()
    }

    /// Advances every particle by exactly one step, in index order, leaving
    /// the membership and the order unchanged: afterwards the particle at
    /// each index is the stepped image of the particle that was there.
    pub fn update(&mut self)
        ensures
            final(self).particles@.len() == old(self).particles@.len(),
            forall|i: int|
                0 <= i < old(self).particles@.len() ==> final(self).particles@[i] == spec_step(
                    old(self).particles@[i],
                ),
    {
        let n = self.particles.len();
        let mut idx: usize = 0;
        while idx < n
            invariant
                idx <= n,
                n == self.particles@.len(),
                n == old(self).particles@.len(),
                forall|i: int|
                    0 <= i < idx ==> self.particles@[i] == spec_step(old(self).particles@[i]),
                forall|i: int| idx <= i < n ==> self.particles@[i] == old(self).particles@[i],
            decreases n - idx,
        {
            let mut p = self.particles[idx];
            p.update();
            self.particles[idx] = p;
            idx += 1;
        }
    }

    /// The current positions of the particles, one per particle, in index
    /// order — a snapshot of the swarm at the time of the call.
    pub fn iter_positions(&self) -> (ps: Vec<Vec3D>)
        ensures
            ps@.len() == self.particles@.len(),
            forall|i: int| 0 <= i < ps@.len() ==> ps@[i] == self.particles@[i].position,
    {
        let n = self.particles.len();
        let mut ps: Vec<Vec3D> = Vec::new();
        let mut idx: usize = 0;
        while idx < n
            invariant
                idx <= n,
                n == self.particles@.len(),
                ps@.len() == idx,
                forall|i: int| 0 <= i < idx ==> ps@[i] == self.particles@[i].position,
            decreases n - idx,
        {
            ps.push(self.particles[idx].position);
            idx += 1;
        }
        ps
    }

    /// The index of the particle whose position is closest to `to_what`
    /// under the L1 distance, and `None` exactly on an empty swarm.
    ///
    /// The answer minimizes [`spec_dist`] over all indices, and among the
    /// minimizers the lowest index wins: every earlier particle lies
    /// strictly farther away. Candidates are compared with a strict less
    /// than, so a later particle at the same distance never replaces the
    /// current best.
    pub fn closest_index(&self, to_what: &Vec3D) -> (r: Option<usize>)
        ensures
            r is None <==> self.particles@.len() == 0,
            r matches Some(best) ==> {
                &&& 0 <= best < self.particles@.len()
                &&& forall|j: int|
                    0 <= j < self.particles@.len() ==> spec_dist(self.particles@[best as int], *to_what)
                        <= spec_dist(self.particles@[j], *to_what)
                &&& forall|j: int|
                    0 <= j < best ==> spec_dist(self.particles@[j], *to_what) > spec_dist(
                        self.particles@[best as int],
                        *to_what,
                    )
            },
    {
        let n = self.particles.len();
        if n == 0 {
            return None;
        }
        let first = self.particles[0];
        let mut best_dist: u64 = first.position.sub(*to_what).norm1();
        let mut best_idx: usize = 0;
        let mut idx: usize = 1;
        while idx < n
            invariant
                1 <= idx <= n,
                n == self.particles@.len(),
                best_idx < idx,
                best_dist == spec_dist(self.particles@[best_idx as int], *to_what),
                forall|j: int|
                    0 <= j < idx ==> best_dist <= spec_dist(self.particles@[j], *to_what),
                forall|j: int|
                    0 <= j < best_idx ==> spec_dist(self.particles@[j], *to_what) > best_dist,
            decreases n - idx,
        {
            let p = self.particles[idx];
            let d = p.position.sub(*to_what).norm1();
            if d < best_dist {
                best_dist = d;
                best_idx = idx;
            }
            idx += 1;
        }
        Some(best_idx)
    }
}

} // verus!
