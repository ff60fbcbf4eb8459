use rand::rngs::StdRng;
use rand::SeedableRng;
use swarm::particle::Particle;
use swarm::swarm::Swarm;
use swarm::vector::Vec3D;

fn sb(x: f64) -> u64 {
    x.to_bits()
}

fn sf(u: u64) -> f64 {
    f64::from_bits(u)
}

#[test]
fn swarm_test_update() {
    let position = Vec3D::new(sb(0.0), sb(0.0), sb(0.0));
    let velocity = position.clone();
    let acceleration = Vec3D::new(sb(1.0), sb(1.0), sb(1.0));
    let particle1 = Particle::new(position.clone(), velocity.clone(), acceleration.clone());
    let particle2 = Particle::new(position, velocity, acceleration.clone().neg());
    let mut swarm = Swarm::new(vec![particle1, particle2]);

    swarm.update();

    assert_eq!(sf(acceleration.norm1()), sf(swarm.particles[0].position.norm1()));
    assert_eq!(sf(acceleration.norm1()), sf(swarm.particles[1].position.norm1()));
}

#[test]
fn test_positions_iterator() {
    let mut rng = StdRng::seed_from_u64(42);
    let swarm = Swarm::new(vec![Particle::spawn(&mut rng), Particle::spawn(&mut rng)]);

    assert_eq!(
        2,
        swarm.iter_positions().len(),
        "Swarm of 2 particles must iterate two positions!"
    );
}

#[test]
fn test_closest_idx() {
    let position1 = Vec3D::new(sb(0.0), sb(0.0), sb(0.0));
    let position2 = Vec3D::new(sb(1.0), sb(1.0), sb(1.0));
    let disturbance = Vec3D::new(sb(0.1), sb(-0.1), sb(0.11));

    let particle1 = Particle::new(position1.clone(), Vec3D::zero(), Vec3D::zero());
    let particle2 = Particle::new(position2.clone(), Vec3D::zero(), Vec3D::zero());

    let swarm = Swarm::new(vec![particle1, particle2]);

    let close1 = swarm
        .closest_index(&position1.add(disturbance))
        .expect("No closest found around particle 1");
    assert_eq!(0, close1);

    let close2 = swarm
        .closest_index(&position2.add(disturbance))
        .expect("No closest found around particle 2");
    assert_eq!(1, close2);
}

#[test]
fn test_update_uniform_opposite_accelerations() {
    let particle1 = Particle::new(
        Vec3D::new(sb(0.0), sb(0.0), sb(0.0)),
        Vec3D::new(sb(0.0), sb(0.0), sb(0.0)),
        Vec3D::new(sb(1.0), sb(1.0), sb(1.0)),
    );
    let particle2 = Particle::new(
        Vec3D::new(sb(0.0), sb(0.0), sb(0.0)),
        Vec3D::new(sb(0.0), sb(0.0), sb(0.0)),
        Vec3D::new(sb(-1.0), sb(-1.0), sb(-1.0)),
    );
    let mut swarm = Swarm::new(vec![particle1, particle2]);
    swarm.update();
    assert_eq!(3.0, sf(swarm.particles[0].position.norm1()));
    assert_eq!(3.0, sf(swarm.particles[1].position.norm1()));
    assert_eq!(Vec3D::new(sb(1.0), sb(1.0), sb(1.0)), swarm.particles[0].position);
    assert_eq!(Vec3D::new(sb(-1.0), sb(-1.0), sb(-1.0)), swarm.particles[1].position);
}

#[test]
fn test_positions_in_construction_order() {
    let p1 = Particle::new(Vec3D::new(sb(1.0), sb(0.0), sb(0.0)), Vec3D::zero(), Vec3D::zero());
    let p2 = Particle::new(Vec3D::new(sb(2.0), sb(0.0), sb(0.0)), Vec3D::zero(), Vec3D::zero());
    let p3 = Particle::new(Vec3D::new(sb(3.0), sb(0.0), sb(0.0)), Vec3D::zero(), Vec3D::zero());
    let swarm = Swarm::new(vec![p1, p2, p3]);
    let ps = swarm.iter_positions();
    assert_eq!(3, ps.len());
    assert_eq!(1.0, sf(ps[0].x));
    assert_eq!(2.0, sf(ps[1].x));
    assert_eq!(3.0, sf(ps[2].x));
}

#[test]
fn test_closest_empty_swarm() {
    let swarm = Swarm::new(Vec::new());
    assert_eq!(None, swarm.closest_index(&Vec3D::zero()));
}

#[test]
fn test_closest_tie_breaks_to_lower_index() {
    // Both particles lie at L1 distance one from the origin.
    let p1 = Particle::new(Vec3D::new(sb(1.0), sb(0.0), sb(0.0)), Vec3D::zero(), Vec3D::zero());
    let p2 = Particle::new(Vec3D::new(sb(0.0), sb(1.0), sb(0.0)), Vec3D::zero(), Vec3D::zero());
    let swarm = Swarm::new(vec![p1, p2]);
    assert_eq!(Some(0), swarm.closest_index(&Vec3D::zero()));
    // The same two particles in the other order still give the lower index.
    let p3 = Particle::new(Vec3D::new(sb(0.0), sb(1.0), sb(0.0)), Vec3D::zero(), Vec3D::zero());
    let p4 = Particle::new(Vec3D::new(sb(1.0), sb(0.0), sb(0.0)), Vec3D::zero(), Vec3D::zero());
    let swarm2 = Swarm::new(vec![p3, p4]);
    assert_eq!(Some(0), swarm2.closest_index(&Vec3D::zero()));
}
