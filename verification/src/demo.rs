//! A scene to look at: a chequered floor and three patterned spheres.

use vstd::prelude::*;
use crate::camera::Camera;
use crate::canvas::Canvas;
use crate::color::Color;
use crate::light::Light;
use crate::material::Material;
use crate::matrix::{Matrix, MatrixModel};
use crate::pattern::{Checker, Gradient, Pattern, Ring, Stripe};
use crate::plane::Plane;
use crate::scalar::Scalar;
use crate::shape::Shape;
use crate::sphere::Sphere;
use crate::transformation::{spec_view_transform, view_transform};
use crate::tuple::{point, spec_point, spec_point_zero, spec_vector, vector};
use crate::world::World;

verus! {

/// The number of pixels in a row of the image.
pub const DEMO_WIDTH: usize = 10000;

/// The number of rows of the image.
pub const DEMO_HEIGHT: usize = 5000;

/// The checker of the floor is turned by a quarter of pi about the y axis.
pub open spec fn spec_floor_pattern_matrix() -> MatrixModel {
    MatrixModel::rotate_y(Scalar::spec_frac_pi_4())
}

/// The stripes of the middle sphere are a tenth wide and turned by a
/// quarter of pi about the z axis.
pub open spec fn spec_middle_pattern_matrix() -> MatrixModel {
    MatrixModel::scaling(Scalar::spec_ratio(1, 10), Scalar::spec_one(), Scalar::spec_one())
        .multiply(MatrixModel::rotate_z(Scalar::spec_frac_pi_4()))
}

/// The middle sphere stands at `(-0.5, 1, 0.5)`.
pub open spec fn spec_middle_matrix() -> MatrixModel {
    MatrixModel::translation(Scalar::spec_half().spec_neg(), Scalar::spec_one(), Scalar::spec_half())
}

/// The gradient of the right sphere is nine tenths long and turned by a
/// quarter of pi about the y axis.
pub open spec fn spec_right_pattern_matrix() -> MatrixModel {
    MatrixModel::scaling(Scalar::spec_ratio(9, 10), Scalar::spec_one(), Scalar::spec_one())
        .multiply(MatrixModel::rotate_y(Scalar::spec_frac_pi_4()))
}

/// The right sphere has half the size and stands at `(1.5, 0.5, -0.5)`.
pub open spec fn spec_right_matrix() -> MatrixModel {
    MatrixModel::translation(
        Scalar::spec_ratio(3, 2),
        Scalar::spec_half(),
        Scalar::spec_half().spec_neg(),
    ).multiply(MatrixModel::scaling(Scalar::spec_half(), Scalar::spec_half(), Scalar::spec_half()))
}

/// The rings of the left sphere are three tenths wide and turned by half
/// of pi about the x axis.
pub open spec fn spec_left_pattern_matrix() -> MatrixModel {
    MatrixModel::scaling(
        Scalar::spec_ratio(3, 10),
        Scalar::spec_ratio(3, 10),
        Scalar::spec_ratio(3, 10),
    ).multiply(MatrixModel::rotate_x(Scalar::spec_frac_pi_2()))
}

/// The left sphere has a third of the size and stands at
/// `(-1.5, 0.33, -0.45)`.
pub open spec fn spec_left_matrix() -> MatrixModel {
    MatrixModel::translation(
        Scalar::spec_ratio(3, 2).spec_neg(),
        Scalar::spec_ratio(33, 100),
        Scalar::spec_ratio(45, 100).spec_neg(),
    ).multiply(
        MatrixModel::scaling(
            Scalar::spec_ratio(33, 100),
            Scalar::spec_ratio(33, 100),
            Scalar::spec_ratio(33, 100),
        ),
    )
}

/// The eye is at `(0, 1.5, -5)` and looks at `(0, 1, 0)`.
pub open spec fn spec_view_matrix() -> MatrixModel {
    let o = Scalar::spec_zero();
    let i = Scalar::spec_one();
    spec_view_transform(
        spec_point(o, Scalar::spec_ratio(3, 2), Scalar::spec_from_int(5).spec_neg()),
        spec_point(o, i, o),
        spec_vector(o, i, o),
    )
}

/// Whether every matrix of the scene has an inverse.
pub open spec fn spec_scene_exists() -> bool {
    &&& spec_floor_pattern_matrix().invertible()
    &&& spec_middle_pattern_matrix().invertible()
    &&& spec_middle_matrix().invertible()
    &&& spec_right_pattern_matrix().invertible()
    &&& spec_right_matrix().invertible()
    &&& spec_left_pattern_matrix().invertible()
    &&& spec_left_matrix().invertible()
}

/// A material of the scene: the given colour, seven tenths diffuse, three
/// tenths specular, and the pattern.
pub open spec fn spec_is_scene_material(material: &Material, color: Color, pattern: Pattern)
    -> bool {
    &&& material.color == color
    &&& material.ambient == Material::spec_ambient()
    &&& material.diffuse == Scalar::spec_ratio(7, 10)
    &&& material.specular == Scalar::spec_ratio(3, 10)
    &&& material.shininess == Material::spec_shininess()
    &&& material.pattern == Some(pattern)
}

/// A sphere of the scene: the unit sphere around the origin of its own
/// space, with the given identity and transformation.
pub open spec fn spec_is_scene_sphere(sphere: &Sphere, id: usize, matrix: MatrixModel) -> bool {
    &&& sphere.id == id
    &&& sphere.center == spec_point_zero()
    &&& sphere.radius == Scalar::spec_one()
    &&& sphere.transform.made_from(matrix)
}

/// Whether the world is the scene: a white light at `(-10, 10, -10)`, the
/// floor with identity 1 and the spheres with identities 4, 5 and 6, in
/// this order.
pub open spec fn spec_is_scene(world: &World) -> bool {
    &&& world.lights@ == seq![World::spec_default_light()]
    &&& world.objects@.len() == 4
    &&& world.objects@[0] matches Shape::Plane(floor) && floor.id == 1
        && floor.transform.is_identity() && floor.material.color == Color::spec_white()
        && floor.material.ambient == Material::spec_ambient() && floor.material.diffuse
        == Scalar::spec_ratio(9, 10) && floor.material.specular == Scalar::spec_ratio(9, 10)
        && floor.material.shininess == Material::spec_shininess() && (floor.material.pattern matches Some(
        Pattern::CheckerPattern { inner, transform },
    ) && inner == (Checker { a: Color::spec_white(), b: Color::spec_black() })
        && transform.made_from(spec_floor_pattern_matrix()))
    &&& world.objects@[1] matches Shape::Sphere(middle) && spec_is_scene_sphere(
        &middle,
        4,
        spec_middle_matrix(),
    ) && (
    middle.material.pattern matches Some(Pattern::StripePattern { inner, transform }) && inner == (
    Stripe {
        a: Color::spec_make(Scalar::spec_zero(), Scalar::spec_zero(), Scalar::spec_one()),
        b: Color::spec_make(Scalar::spec_one(), Scalar::spec_zero(), Scalar::spec_zero()),
    }) && transform.made_from(spec_middle_pattern_matrix()) && spec_is_scene_material(
        &middle.material,
        Color::spec_make(Scalar::spec_ratio(1, 10), Scalar::spec_one(), Scalar::spec_half()),
        middle.material.pattern.unwrap(),
    ))
    &&& world.objects@[2] matches Shape::Sphere(right) && spec_is_scene_sphere(
        &right,
        5,
        spec_right_matrix(),
    ) && (
    right.material.pattern matches Some(Pattern::GradientPattern { inner, transform }) && inner == (
    Gradient {
        a: Color::spec_make(Scalar::spec_zero(), Scalar::spec_one(), Scalar::spec_one()),
        distance: Color::spec_make(Scalar::spec_zero(), Scalar::spec_one(), Scalar::spec_zero())
            .spec_subtract(
            Color::spec_make(Scalar::spec_zero(), Scalar::spec_one(), Scalar::spec_one()),
        ),
    }) && transform.made_from(spec_right_pattern_matrix()) && spec_is_scene_material(
        &right.material,
        Color::spec_make(Scalar::spec_half(), Scalar::spec_one(), Scalar::spec_ratio(1, 10)),
        right.material.pattern.unwrap(),
    ))
    &&& world.objects@[3] matches Shape::Sphere(left) && spec_is_scene_sphere(
        &left,
        6,
        spec_left_matrix(),
    ) && (
    left.material.pattern matches Some(Pattern::RingPattern { inner, transform }) && inner == (Ring {
        a: Color::spec_make(Scalar::spec_one(), Scalar::spec_one(), Scalar::spec_zero()),
        b: Color::spec_make(Scalar::spec_one(), Scalar::spec_zero(), Scalar::spec_one()),
    }) && transform.made_from(spec_left_pattern_matrix()) && spec_is_scene_material(
        &left.material,
        Color::spec_make(Scalar::spec_one(), Scalar::spec_ratio(8, 10), Scalar::spec_ratio(1, 10)),
        left.material.pattern.unwrap(),
    ))
}

/// Whether the camera is that of the scene: a third of pi wide, at
/// `(0, 1.5, -5)`, looking at `(0, 1, 0)`.
pub open spec fn spec_is_scene_camera(camera: &Camera, hsize: usize, vsize: usize) -> bool {
    &&& camera.hsize == hsize
    &&& camera.vsize == vsize
    &&& camera.field_of_view == Scalar::spec_frac_pi_3()
    &&& camera.transform@ == spec_view_matrix()
    &&& camera.transform_inverse@ == spec_view_matrix().inverse()
    &&& camera.pixel_size == crate::camera::spec_pixel_size(hsize, vsize, camera.field_of_view)
    &&& camera.half_width == crate::camera::spec_half_width(hsize, vsize, camera.field_of_view)
    &&& camera.half_height == crate::camera::spec_half_height(hsize, vsize, camera.field_of_view)
}

/// Whether the canvas is the image that the camera of the scene takes of
/// the scene.
pub open spec fn spec_is_image_of(
    canvas: &Canvas,
    world: &World,
    camera: &Camera,
    hsize: usize,
    vsize: usize,
) -> bool {
    spec_is_scene(world) && spec_is_scene_camera(camera, hsize, vsize) && camera.spec_is_image(
        world,
        canvas,
    )
}

/// Whether the canvas is an image of the scene of the given size.
pub open spec fn spec_is_scene_image(canvas: &Canvas, hsize: usize, vsize: usize) -> bool {
    exists|world: World, camera: Camera|
        #[trigger] spec_is_image_of(canvas, &world, &camera, hsize, vsize)
}

/// The scene. There is none should one of its matrices have no inverse.
pub fn demo_world() -> (r: Option<World>)
    ensures
        r.is_some() == spec_scene_exists(),
        r matches Some(world) ==> world.wf() && spec_is_scene(&world),
{
    let o = Scalar::zero();
    let i = Scalar::one();
    let half = Scalar::half();
    let third = Scalar::ratio(33, 100);
    let floor_pattern_matrix = Matrix::rotate_y(Scalar::frac_pi_4());
    let middle_pattern_matrix = Matrix::scaling(Scalar::ratio(1, 10), i, i).multiply(
        &Matrix::rotate_z(Scalar::frac_pi_4()),
    );
    let middle_matrix = Matrix::translation(half.neg(), i, half);
    let right_pattern_matrix = Matrix::scaling(Scalar::ratio(9, 10), i, i).multiply(
        &Matrix::rotate_y(Scalar::frac_pi_4()),
    );
    let right_matrix = Matrix::translation(Scalar::ratio(3, 2), half, half.neg()).multiply(
        &Matrix::scaling(half, half, half),
    );
    let left_pattern_matrix = Matrix::scaling(
        Scalar::ratio(3, 10),
        Scalar::ratio(3, 10),
        Scalar::ratio(3, 10),
    ).multiply(&Matrix::rotate_x(Scalar::frac_pi_2()));
    let left_matrix = Matrix::translation(
        Scalar::ratio(3, 2).neg(),
        third,
        Scalar::ratio(45, 100).neg(),
    ).multiply(&Matrix::scaling(third, third, third));
    if !floor_pattern_matrix.is_invertible() || !middle_pattern_matrix.is_invertible()
        || !middle_matrix.is_invertible() || !right_pattern_matrix.is_invertible()
        || !right_matrix.is_invertible() || !left_pattern_matrix.is_invertible()
        || !left_matrix.is_invertible() {
        return None;
    }
    let checker = Pattern::new_checker(Color::white(), Color::black(), floor_pattern_matrix);
    let floor = Plane::new(1).set_material(Material::default().set_pattern(checker));
    let stripe = Pattern::new_stripe(Color::blue(), Color::red(), middle_pattern_matrix);
    let middle_sphere = Sphere::new(4).set_transform(middle_matrix).set_material(
        Material::new_with_pattern(
            Color::make(Scalar::ratio(1, 10), i, half),
            Scalar::ratio(7, 10),
            Scalar::ratio(3, 10),
            stripe,
        ),
    );
    let gradient = Pattern::new_gradient(Color::aqua(), Color::green(), right_pattern_matrix);
    let right_sphere = Sphere::new(5).set_transform(right_matrix).set_material(
        Material::new_with_pattern(
            Color::make(half, i, Scalar::ratio(1, 10)),
            Scalar::ratio(7, 10),
            Scalar::ratio(3, 10),
            gradient,
        ),
    );
    let ring = Pattern::new_ring(Color::yellow(), Color::fuchsia(), left_pattern_matrix);
    let left_sphere = Sphere::new(6).set_transform(left_matrix).set_material(
        Material::new_with_pattern(
            Color::make(i, Scalar::ratio(8, 10), Scalar::ratio(1, 10)),
            Scalar::ratio(7, 10),
            Scalar::ratio(3, 10),
            ring,
        ),
    );
    let ten = Scalar::from_int(10);
    let light = Light::point_light(point(ten.neg(), ten, ten.neg()), Color::white());
    let world = World::empty().set_light(light).add_object(Shape::Plane(floor)).add_object(
        Shape::Sphere(middle_sphere),
    ).add_object(Shape::Sphere(right_sphere)).add_object(Shape::Sphere(left_sphere));
    Some(world)
}

/// The camera of the scene, for an image of the given size. There is none
/// should its transformation have no inverse.
pub fn demo_camera(hsize: usize, vsize: usize) -> (r: Option<Camera>)
    ensures
        r.is_some() == spec_view_matrix().invertible(),
        r matches Some(camera) ==> camera.wf() && spec_is_scene_camera(&camera, hsize, vsize),
{
    let o = Scalar::zero();
    let i = Scalar::one();
    let view = view_transform(
        &point(o, Scalar::ratio(3, 2), Scalar::from_int(5).neg()),
        &point(o, i, o),
        &vector(o, i, o),
    );
    match Camera::new(hsize, vsize, Scalar::frac_pi_3()).try_set_transform(view) {
        Ok(camera) => Some(camera),
        Err(_) => None,
    }
}

/// The image of the scene, ten thousand pixels wide and five thousand high.
/// There is none should a matrix of the scene or of the camera have no
/// inverse.
pub fn demo() -> (r: Option<Canvas>)
    ensures
        r.is_some() == (spec_scene_exists() && spec_view_matrix().invertible()),
        r matches Some(canvas) ==> spec_is_scene_image(&canvas, DEMO_WIDTH, DEMO_HEIGHT),
{
    match demo_world() {
        Some(world) => match demo_camera(DEMO_WIDTH, DEMO_HEIGHT) {
            Some(camera) => {
                let canvas = camera.render(&world);
                assert(spec_is_image_of(&canvas, &world, &camera, DEMO_WIDTH, DEMO_HEIGHT));
                Some(canvas)
            },
            None => None,
        },
        None => None,
    }
}

} // verus!
