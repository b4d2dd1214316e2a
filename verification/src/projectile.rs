use crate::helper::{allowed, exact, one, zero, Number};
use crate::tuple::{Environment, Tuple};
use vstd::prelude::*;

verus! {

/// A point that moves by its velocity.
#[derive(Debug, Clone, Copy)]
pub struct Projectile<T> {
    pub point: Tuple<T>,
    pub velocity: Tuple<T>,
}

impl<T: Number> Projectile<T> {
    /// Where the projectile is after one tick: moved by its velocity, and
    /// its velocity changed by gravity, then by wind.
    pub open spec fn spec_tick(self, env: Environment<T>) -> Projectile<T> {
        Projectile {
            point: self.point.spec_add(self.velocity),
            velocity: self.velocity.spec_add(env.gravity).spec_add(env.wind),
        }
    }

    /// The additions of `spec_tick` are defined.
    pub open spec fn can_tick(self, env: Environment<T>) -> bool {
        &&& self.point.can_add(self.velocity)
        &&& self.velocity.can_add(env.gravity)
        &&& self.velocity.spec_add(env.gravity).can_add(env.wind)
    }

    /// Takes `point` as a point and `velocity` as a vector, whatever their
    /// `w`.
    pub fn new(point: Tuple<T>, velocity: Tuple<T>) -> (r: Projectile<T>)
        ensures
            r.point.x == point.x && r.point.y == point.y && r.point.z == point.z,
            r.velocity.x == velocity.x && r.velocity.y == velocity.y && r.velocity.z == velocity.z,
            exact::<T>() ==> r == (Projectile {
                point: point.as_point(),
                velocity: velocity.as_vector(),
            }),
    {
        Projectile {
            point: Tuple { x: point.x, y: point.y, z: point.z, w: one() },
            velocity: Tuple { x: velocity.x, y: velocity.y, z: velocity.z, w: zero() },
        }
    }

    /// The projectile one tick later.
    pub fn tick(self, env: &Environment<T>) -> (r: Projectile<T>)
        requires
            allowed::<T>(self.can_tick(*env)),
        ensures
            exact::<T>() ==> r == self.spec_tick(*env),
    {
        let position = self.point.add(&self.velocity);
        let velocity = self.velocity.add(&env.gravity).add(&env.wind);
        Projectile { point: position, velocity }
    }
}

} // verus!
