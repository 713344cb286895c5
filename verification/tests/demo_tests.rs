use ray_tracer::color::Color;
use ray_tracer::demo::{demo_camera, demo_world};
use ray_tracer::pattern::Pattern;
use ray_tracer::ray::Ray;
use ray_tracer::scalar::Scalar;
use ray_tracer::shape::Shape;
use ray_tracer::tuple::{point as lib_point, vector as lib_vector, Tuple};

fn s(x: f64) -> Scalar {
    Scalar::from_bits(x.to_bits())
}

fn f(x: Scalar) -> f64 {
    f64::from_bits(x.to_bits())
}

fn point(x: f64, y: f64, z: f64) -> Tuple {
    lib_point(s(x), s(y), s(z))
}

fn vector(x: f64, y: f64, z: f64) -> Tuple {
    lib_vector(s(x), s(y), s(z))
}

#[test]
fn the_scene_holds_a_floor_and_three_spheres() {
    let world = demo_world().unwrap();
    assert_eq!(world.lights.len(), 1);
    assert_eq!(world.lights[0].position, point(-10.0, 10.0, -10.0));
    assert_eq!(world.lights[0].intensity, Color::white());
    let ids: Vec<usize> = world.objects.iter().map(|o| o.id()).collect();
    assert_eq!(ids, vec![1, 4, 5, 6]);
    assert!(matches!(world.objects[0], Shape::Plane(_)));
    assert!(matches!(
        world.objects[0].material().pattern,
        Some(Pattern::CheckerPattern { .. })
    ));
    assert!(matches!(
        world.objects[1].material().pattern,
        Some(Pattern::StripePattern { .. })
    ));
    assert!(matches!(
        world.objects[2].material().pattern,
        Some(Pattern::GradientPattern { .. })
    ));
    assert!(matches!(
        world.objects[3].material().pattern,
        Some(Pattern::RingPattern { .. })
    ));
    for object in world.objects.iter().skip(1) {
        match object {
            Shape::Sphere(sphere) => {
                assert_eq!(sphere.center, point(0.0, 0.0, 0.0));
                assert_eq!(sphere.radius, s(1.0));
                assert_eq!(sphere.material.shininess, s(200.0));
            }
            Shape::Plane(_) => panic!("the scene holds one plane, the floor"),
        }
    }
    assert_eq!(world.objects[1].material().diffuse, s(0.7));
    assert_eq!(world.objects[1].material().specular, s(0.3));
    assert_eq!(
        world.objects[3].material().color,
        Color::make(s(1.0), s(0.8), s(0.1))
    );
    assert_eq!(world.objects[3].transform().matrix.at(0, 3), s(-1.5));
    assert_eq!(world.objects[3].transform().matrix.at(1, 3), s(0.33));
    assert_eq!(world.objects[3].transform().matrix.at(2, 3), s(-0.45));
    assert_eq!(world.objects[3].transform().matrix.at(0, 0), s(0.33));
}

#[test]
fn the_camera_of_the_scene_sees_the_middle_sphere() {
    let world = demo_world().unwrap();
    let camera = demo_camera(20, 10).unwrap();
    assert_eq!(camera.hsize, 20);
    assert_eq!(camera.vsize, 10);
    assert_eq!(camera.field_of_view, s(std::f64::consts::FRAC_PI_3));
    let canvas = camera.render(&world);
    assert_eq!(canvas.width, 20);
    assert_eq!(canvas.height, 10);
    assert_eq!(canvas.content.len(), 200);
    for pixel in canvas.content.iter() {
        assert!(f(pixel.red) >= 0.0 && f(pixel.green) >= 0.0 && f(pixel.blue) >= 0.0);
    }
    let up = Ray::new(point(0.0, 1.5, -5.0), vector(0.0, 1.0, 0.0));
    assert_eq!(world.color_at(&up), Color::black());
    let ahead = Ray::new(point(-0.5, 1.0, -5.0), vector(0.0, 0.0, 1.0));
    let hits = world.intersect_with_ray(&ahead);
    assert_eq!(hits[0].object_id, 4);
    assert_eq!(hits[0].distance, s(4.5));
}
