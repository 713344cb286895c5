use ray_tracer::camera::{is_wide, Camera};
use ray_tracer::color::Color;
use ray_tracer::matrix::Matrix;
use ray_tracer::scalar::Scalar;
use ray_tracer::transformation::view_transform;
use ray_tracer::tuple::{point as lib_point, vector as lib_vector, Tuple};
use ray_tracer::world::World;
use std::f32::consts::FRAC_PI_2;
use std::f64::consts::FRAC_PI_4;

fn s(x: f64) -> Scalar {
    Scalar::from_bits(x.to_bits())
}

fn point(x: f64, y: f64, z: f64) -> Tuple {
    lib_point(s(x), s(y), s(z))
}

fn vector(x: f64, y: f64, z: f64) -> Tuple {
    lib_vector(s(x), s(y), s(z))
}

fn color(r: f64, g: f64, b: f64) -> Color {
    Color::make(s(r), s(g), s(b))
}

#[test]
fn constructing_a_camera() {
    let c = Camera::new(160, 120, s(FRAC_PI_2 as f64));
    assert_eq!(c.hsize, 160);
    assert_eq!(c.vsize, 120);
    assert_eq!(c.field_of_view, s(FRAC_PI_2 as f64));
    assert_eq!(c.transform, Matrix::identity());
}

#[test]
fn pixel_size_horizontal_canvas() {
    let c = Camera::new(200, 125, s(FRAC_PI_2 as f64));
    assert_eq!(c.pixel_size, s(0.01000000043711391));
}

#[test]
fn pixel_size_vertical_canvas() {
    let c = Camera::new(125, 200, s(FRAC_PI_2 as f64));
    assert_eq!(c.pixel_size, s(0.01000000043711391));
}

#[test]
fn ray_through_center_canvas_untransformed_one() {
    let c = Camera::new(201, 101, s(FRAC_PI_2 as f64));
    let r = c.ray_for_pixel(100, 50);
    assert_eq!(r.origin, point(0.0, 0.0, 0.0));
    assert_eq!(
        r.direction,
        vector(0.0, 0.00000000000000011102230246251565, -1.0)
    );
}

#[test]
fn ray_through_center_canvas_untransformed_two() {
    let c = Camera::new(201, 101, s(FRAC_PI_2 as f64));
    let r = c.ray_for_pixel(0, 0);
    assert_eq!(r.origin, point(0.0, 0.0, 0.0));
    assert_eq!(
        r.direction,
        vector(0.6651864391138698, 0.3325932195569349, -0.6685123420878348)
    );
}

#[test]
fn ray_through_center_canvas_transformed() {
    let transformation = Matrix::rotate_y(s(FRAC_PI_4))
        .multiply(&Matrix::translation(s(0.0), s(-2.0), s(5.0)));
    let c = Camera::new(201, 101, s(FRAC_PI_2 as f64)).set_transform(transformation);
    let r = c.ray_for_pixel(100, 50);
    assert_eq!(r.origin, point(0.0, 2.0, -5.0));
    assert_eq!(
        r.direction,
        vector(0.7071067811865474, 0.0, -0.7071067811865478)
    );
}

#[test]
fn rendering_world_with_camera() {
    let w = World::default().unwrap();
    let from = point(0.0, 0.0, -5.0);
    let to = point(0.0, 0.0, 0.0);
    let up = vector(0.0, 1.0, 0.0);
    let c = Camera::new(11, 11, s(FRAC_PI_2 as f64)).set_transform(view_transform(&from, &to, &up));
    let canvas = c.render(&w);
    let color_at = canvas.color_at(5, 5);
    assert_eq!(
        color_at.unwrap(),
        color(0.380661169303951945, 0.4758264616299399, 0.2854958769779639)
    );
}

#[test]
fn the_canvas_has_the_size_of_the_camera() {
    let w = World::default().unwrap();
    let c = Camera::new(4, 3, s(FRAC_PI_2 as f64));
    let canvas = c.render(&w);
    assert_eq!(canvas.width, 4);
    assert_eq!(canvas.height, 3);
    assert_eq!(canvas.content.len(), 12);
    for y in 0..3 {
        for x in 0..4 {
            assert_eq!(canvas.content[x + y * 4], w.color_at(&c.ray_for_pixel(x, y)));
        }
    }
}

#[test]
fn the_sides_of_the_canvas() {
    let wide = Camera::new(200, 100, s(FRAC_PI_2 as f64));
    let half_view = (FRAC_PI_2 as f64 / 2.0).tan();
    assert_eq!(wide.half_width, s(half_view));
    assert_eq!(wide.half_height, s(half_view / 2.0));
    let high = Camera::new(100, 200, s(FRAC_PI_2 as f64));
    assert_eq!(high.half_width, s(half_view * 0.5));
    assert_eq!(high.half_height, s(half_view));
    let square = Camera::new(100, 100, s(FRAC_PI_2 as f64));
    assert_eq!(square.half_width, s(half_view));
    assert_eq!(square.half_height, s(half_view));
}

#[test]
fn a_camera_refuses_a_matrix_without_inverse() {
    let c = Camera::new(10, 10, s(1.0));
    match c.try_set_transform(Matrix::scaling(s(1.0), s(1.0), s(0.0))) {
        Ok(_) => panic!("a flat scaling has no inverse"),
        Err(unchanged) => {
            assert_eq!(unchanged.hsize, 10);
            assert_eq!(unchanged.transform, Matrix::identity());
            assert_eq!(unchanged.transform_inverse, Matrix::identity());
        }
    }
    match Camera::new(10, 10, s(1.0)).try_set_transform(Matrix::scaling(s(2.0), s(2.0), s(2.0))) {
        Ok(c) => assert_eq!(c.transform_inverse, Matrix::scaling(s(0.5), s(0.5), s(0.5))),
        Err(_) => panic!("a scaling by two has an inverse"),
    }
}

#[test]
fn the_aspect_decides_which_side_is_the_longer() {
    assert!(is_wide(s(2.0)));
    assert!(is_wide(s(1.0)));
    assert!(!is_wide(s(0.5)));
    assert!(!is_wide(s(f64::NAN)));
}
