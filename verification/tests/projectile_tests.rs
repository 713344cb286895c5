use ray_tracer::projectile::{Env, Projectile};
use ray_tracer::scalar::Scalar;
use ray_tracer::tuple::{point as lib_point, vector as lib_vector, Tuple};

fn s(x: f64) -> Scalar {
    Scalar::from_bits(x.to_bits())
}

fn f(x: Scalar) -> f64 {
    f64::from_bits(x.to_bits())
}

fn point(x: f64, y: f64, z: f64) -> Tuple {
    lib_point(s(x), s(y), s(z))
}

fn vector(x: f64, y: f64, z: f64) -> Tuple {
    lib_vector(s(x), s(y), s(z))
}

#[test]
fn a_tick_moves_and_slows_the_projectile() {
    let p = Projectile {
        position: point(0.0, 1.0, 0.0),
        velocity: vector(1.0, 2.0, 0.0),
    };
    let env = Env {
        gravity: vector(0.0, -0.5, 0.0),
        wind: vector(-0.25, 0.0, 0.0),
    };
    let next = p.tick(&env);
    assert_eq!(next.position, point(1.0, 3.0, 0.0));
    assert_eq!(next.velocity, vector(0.75, 1.5, 0.0));
}

#[test]
fn the_launch_and_its_surroundings() {
    let env = Env::standard();
    assert_eq!(env.gravity, vector(0.0, -0.1, 0.0));
    assert_eq!(env.wind, vector(-0.01, 0.0, 0.0));
    let p = Projectile::launch();
    assert_eq!(p.position, point(0.0, 1.0, 0.0));
    let length = (1.0_f64 * 1.0 + 1.8 * 1.8).sqrt();
    assert_eq!(p.velocity, vector(1.0 / length * 11.25, 1.8 / length * 11.25, 0.0 * 11.25));
    assert!(p.is_aloft());
}

#[test]
fn the_projectile_comes_down() {
    let env = Env::standard();
    let mut p = Projectile::launch();
    let mut ticks = 0;
    while p.is_aloft() {
        assert!(p.pixel(550).is_some());
        p = p.tick(&env);
        ticks += 1;
        assert!(ticks < 1000);
    }
    assert_eq!(ticks, 198);
    assert!(f(p.position.1) <= 0.0);
}

#[test]
fn the_pixel_of_a_projectile() {
    let p = Projectile {
        position: point(10.4, 99.5, 0.0),
        velocity: vector(0.0, 0.0, 0.0),
    };
    assert_eq!(p.pixel(550), Some((10, 450)));
    assert_eq!(p.pixel(100), Some((10, 0)));
    assert_eq!(p.pixel(99), None);
    let left = Projectile {
        position: point(-3.0, 2.0, 0.0),
        velocity: vector(0.0, 0.0, 0.0),
    };
    assert_eq!(left.pixel(550), Some((0, 548)));
    let grounded = Projectile {
        position: point(1.0, 0.0, 0.0),
        velocity: vector(0.0, 0.0, 0.0),
    };
    assert!(!grounded.is_aloft());
}
