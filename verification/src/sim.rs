use crate::point::Point;
use crate::scalar::fits_i64;
use crate::vector::Vector;
use vstd::prelude::*;

verus! {

/// The fixed surroundings of a projectile: gravity and wind, both
/// displacements applied once per tick.
#[derive(Clone, Copy, Debug)]
pub struct Environment {
    pub gravity: Vector,
    pub wind: Vector,
}

impl Environment {
    /// An environment with the given gravity and wind.
    pub fn new(gravity: Vector, wind: Vector) -> (e: Environment)
        ensures
            e.gravity == gravity,
            e.wind == wind,
    {
        Environment { gravity, wind }
    }
}

/// A projectile in flight: where it is and where it is headed.
#[derive(Clone, Copy, Debug)]
pub struct Projectile {
    pub position: Point,
    pub velocity: Vector,
}

impl Projectile {
    /// A projectile at the given position with the given velocity.
    pub fn new(position: Point, velocity: Vector) -> (p: Projectile)
        ensures
            p.position == position,
            p.velocity == velocity,
    {
        Projectile { position, velocity }
    }
}

/// One step of the motion: the position moves by the velocity, and the
/// velocity picks up gravity and wind.
pub fn tick(environment: &Environment, projectile: Projectile) -> (p: Projectile)
    requires
        fits_i64(projectile.position.x@ + projectile.velocity.x@),
        fits_i64(projectile.position.y@ + projectile.velocity.y@),
        fits_i64(projectile.position.z@ + projectile.velocity.z@),
        fits_i64(projectile.velocity.x@ + environment.gravity.x@),
        fits_i64(projectile.velocity.y@ + environment.gravity.y@),
        fits_i64(projectile.velocity.z@ + environment.gravity.z@),
        fits_i64(projectile.velocity.x@ + environment.gravity.x@ + environment.wind.x@),
        fits_i64(projectile.velocity.y@ + environment.gravity.y@ + environment.wind.y@),
        fits_i64(projectile.velocity.z@ + environment.gravity.z@ + environment.wind.z@),
    ensures
        p.position.x@ == projectile.position.x@ + projectile.velocity.x@,
        p.position.y@ == projectile.position.y@ + projectile.velocity.y@,
        p.position.z@ == projectile.position.z@ + projectile.velocity.z@,
        p.position.wf(),
        p.velocity.x@ == projectile.velocity.x@ + environment.gravity.x@ + environment.wind.x@,
        p.velocity.y@ == projectile.velocity.y@ + environment.gravity.y@ + environment.wind.y@,
        p.velocity.z@ == projectile.velocity.z@ + environment.gravity.z@ + environment.wind.z@,
        p.velocity.wf(),
{
    let new_position = projectile.position.add_vector(projectile.velocity);
    let new_velocity = projectile.velocity.add(environment.gravity).add(environment.wind);
    Projectile::new(new_position, new_velocity)
}

} // verus!
