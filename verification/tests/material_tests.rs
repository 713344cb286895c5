use ray_tracer::color::Color;
use ray_tracer::material::Material;
use ray_tracer::matrix::Matrix;
use ray_tracer::pattern::Pattern;
use ray_tracer::scalar::Scalar;

fn s(x: f64) -> Scalar {
    Scalar::from_bits(x.to_bits())
}

#[test]
fn default_material() {
    let material = Material::default();
    assert_eq!(material.color, Color::make(s(1.0), s(1.0), s(1.0)));
    assert_eq!(material.ambient, s(0.1));
    assert_eq!(material.diffuse, s(0.9));
    assert_eq!(material.specular, s(0.9));
    assert_eq!(material.shininess, s(200.0));
    assert!(material.pattern.is_none());
}

#[test]
fn a_material_of_given_reflectance() {
    let material = Material::new(Color::red(), s(0.7), s(0.2));
    assert_eq!(material.color, Color::make(s(1.0), s(0.0), s(0.0)));
    assert_eq!(material.ambient, s(0.1));
    assert_eq!(material.diffuse, s(0.7));
    assert_eq!(material.specular, s(0.2));
    assert_eq!(material.shininess, s(200.0));
    assert!(material.pattern.is_none());
}

#[test]
fn a_material_with_a_pattern() {
    let material = Material::new_with_pattern(
        Color::blue(),
        s(0.5),
        s(0.25),
        Pattern::new_ring(Color::white(), Color::black(), Matrix::identity()),
    );
    assert_eq!(material.color, Color::blue());
    assert_eq!(material.ambient, s(0.1));
    assert_eq!(material.diffuse, s(0.5));
    assert_eq!(material.specular, s(0.25));
    assert_eq!(
        material.pattern,
        Some(Pattern::new_ring(Color::white(), Color::black(), Matrix::identity()))
    );
    let other = Material::default().set_pattern(Pattern::new_checker(
        Color::white(),
        Color::black(),
        Matrix::identity(),
    ));
    assert_eq!(other.color, Color::white());
    assert_eq!(other.diffuse, s(0.9));
    assert_eq!(
        other.pattern,
        Some(Pattern::new_checker(Color::white(), Color::black(), Matrix::identity()))
    );
}
