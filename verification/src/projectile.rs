//! A projectile under gravity and wind, and where it shows on a canvas.

use vstd::prelude::*;
use crate::scalar::Scalar;
use crate::tuple::{
    add_tuple, point, scale_tuple, spec_add_tuple, spec_point, spec_scale_tuple, spec_vector,
    spec_vector_normalize, vector, vector_normalize, Tuple,
};

verus! {

#[derive(Debug, Clone, Copy)]
pub struct Projectile {
    pub position: Tuple,
    pub velocity: Tuple,
}

/// What acts on a projectile in every tick.
#[derive(Debug, Clone, Copy)]
pub struct Env {
    pub gravity: Tuple,
    pub wind: Tuple,
}

impl Env {
    /// A gravity of one tenth downwards and a wind of one hundredth against
    /// x.
    pub open spec fn spec_standard() -> Env {
        let o = Scalar::spec_zero();
        Env {
            gravity: spec_vector(o, Scalar::spec_ratio(1, 10).spec_neg(), o),
            wind: spec_vector(Scalar::spec_ratio(1, 100).spec_neg(), o, o),
        }
    }

    pub fn standard() -> (env: Env)
        ensures
            env == Env::spec_standard(),
    {
        let o = Scalar::zero();
        Env {
            gravity: vector(o, Scalar::ratio(1, 10).neg(), o),
            wind: vector(Scalar::ratio(1, 100).neg(), o, o),
        }
    }
}

impl Projectile {
    /// The projectile one tick later: moved by its velocity, its velocity
    /// changed by gravity and wind.
    pub open spec fn spec_tick(self, env: Env) -> Projectile {
        Projectile {
            position: spec_add_tuple(self.position, self.velocity),
            velocity: spec_add_tuple(self.velocity, spec_add_tuple(env.gravity, env.wind)),
        }
    }

    /// A projectile at `(0, 1, 0)` with a speed of 11.25 in the direction
    /// `(1, 1.8, 0)`.
    pub open spec fn spec_launch() -> Projectile {
        let o = Scalar::spec_zero();
        let i = Scalar::spec_one();
        Projectile {
            position: spec_point(o, i, o),
            velocity: spec_scale_tuple(
                spec_vector_normalize(spec_vector(i, Scalar::spec_ratio(18, 10), o)),
                Scalar::spec_ratio(1125, 100),
            ),
        }
    }

    /// Whether the projectile is above the ground.
    pub open spec fn spec_is_aloft(self) -> bool {
        self.position.1.spec_gt(Scalar::spec_zero())
    }

    /// The column of the projectile: its x, rounded.
    pub open spec fn spec_column(self) -> u64 {
        self.position.0.spec_round().spec_to_int()
    }

    /// The height of the projectile in rows: its y, rounded.
    pub open spec fn spec_rows_up(self) -> u64 {
        self.position.1.spec_round().spec_to_int()
    }

    pub fn launch() -> (p: Projectile)
        ensures
            p == Projectile::spec_launch(),
    {
        let o = Scalar::zero();
        let i = Scalar::one();
        Projectile {
            position: point(o, i, o),
            velocity: scale_tuple(
                &vector_normalize(&vector(i, Scalar::ratio(18, 10), o)),
                Scalar::ratio(1125, 100),
            ),
        }
    }

    pub fn tick(self, env: &Env) -> (p: Projectile)
        ensures
            p == self.spec_tick(*env),
    {
        let new_position = add_tuple(&self.position, &self.velocity);
        let env_induced_speed = add_tuple(&env.gravity, &env.wind);
        let new_speed = add_tuple(&self.velocity, &env_induced_speed);
        Projectile { position: new_position, velocity: new_speed }
    }

    pub fn is_aloft(&self) -> (r: bool)
        ensures
            r == self.spec_is_aloft(),
    {
        self.position.1.gt(Scalar::zero())
    }

    /// The pixel at which the projectile shows on a canvas of the given
    /// height, rows counted from the top: column and row. There is none
    /// where the projectile is higher than the canvas, or where its column
    /// is beyond what the machine can count.
    pub fn pixel(&self, height: usize) -> (r: Option<(usize, usize)>)
        ensures
            r == (if self.spec_rows_up() <= height && self.spec_column() <= usize::MAX {
                Some((self.spec_column() as usize, (height - self.spec_rows_up()) as usize))
            } else {
                None
            }),
    {
        let column = self.position.0.round().to_int();
        let rows_up = self.position.1.round().to_int();
        if rows_up <= height as u64 && column <= usize::MAX as u64 {
            Some((column as usize, height - rows_up as usize))
        } else {
            None
        }
    }
}

} // verus!
