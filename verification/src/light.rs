//! Point lights and the Phong lighting of a surface point.

use vstd::prelude::*;
use crate::color::Color;
use crate::material::Material;
use crate::matrix::{MatrixModel, Transformation};
use crate::scalar::Scalar;
use crate::tuple::{
    negate_tuple, spec_negate_tuple, spec_subtract_tuple, spec_vector_dot_product,
    spec_vector_normalize, spec_vector_reflect, subtract_tuple, vector_dot_product,
    vector_normalize, vector_reflect, Tuple,
};

verus! {

/// A light without size: it shines from one point, equally in all
/// directions and at all distances.
#[derive(Debug, PartialEq, Clone, Copy)]
pub struct Light {
    pub position: Tuple,
    pub intensity: Color,
}

/// The colour of the surface at a point: that of the pattern where the
/// material has one, else that of the material.
pub open spec fn spec_surface_color(material: &Material, object_inverse: MatrixModel, point: Tuple)
    -> Color {
    match material.pattern {
        None => material.color,
        Some(p) => p.spec_pattern_at_object(object_inverse, point),
    }
}

impl Light {
    /// The colour of the surface under the colour of the light.
    pub open spec fn spec_effective_color(
        &self,
        material: &Material,
        object_inverse: MatrixModel,
        point: Tuple,
    ) -> Color {
        spec_surface_color(material, object_inverse, point).spec_multiply(self.intensity)
    }

    /// The direction from the point to the light.
    pub open spec fn spec_light_direction(&self, point: Tuple) -> Tuple {
        spec_vector_normalize(spec_subtract_tuple(self.position, point))
    }

    /// The cosine of the angle between the direction to the light and the
    /// normal.
    pub open spec fn spec_light_dot_normal(&self, point: Tuple, normalv: Tuple) -> Scalar {
        spec_vector_dot_product(self.spec_light_direction(point), normalv)
    }

    /// The cosine of the angle between the reflected light and the
    /// direction to the eye.
    pub open spec fn spec_reflect_dot_eye(&self, point: Tuple, eyev: Tuple, normalv: Tuple)
        -> Scalar {
        spec_vector_dot_product(
            spec_vector_reflect(spec_negate_tuple(self.spec_light_direction(point)), normalv),
            eyev,
        )
    }

    /// Whether the light reaches the surface: the point is not in shadow
    /// and the light is not behind the surface.
    pub open spec fn spec_is_lit(in_shadow: bool, light_dot_normal: Scalar) -> bool {
        !in_shadow && light_dot_normal.spec_ge(Scalar::spec_zero())
    }

    /// Whether the surface shows a highlight: the light reaches it and is
    /// not reflected away from the eye.
    pub open spec fn spec_has_highlight(
        in_shadow: bool,
        light_dot_normal: Scalar,
        reflect_dot_eye: Scalar,
    ) -> bool {
        Light::spec_is_lit(in_shadow, light_dot_normal) && reflect_dot_eye.spec_ge(
            Scalar::spec_zero(),
        )
    }

    /// The light that the surface scatters: none in shadow or where the
    /// light is behind the surface, else the effective colour times the
    /// diffuse share and the cosine of the angle to the normal.
    pub open spec fn spec_diffuse(
        &self,
        material: &Material,
        object_inverse: MatrixModel,
        point: Tuple,
        normalv: Tuple,
        in_shadow: bool,
    ) -> Color {
        let light_dot_normal = self.spec_light_dot_normal(point, normalv);
        if Light::spec_is_lit(in_shadow, light_dot_normal) {
            self.spec_effective_color(material, object_inverse, point).spec_multiply_value(
                material.diffuse.spec_mul(light_dot_normal),
            )
        } else {
            Color::spec_black()
        }
    }

    /// The highlight: none in shadow, where the light is behind the surface
    /// or where it is reflected away from the eye, else the colour of the
    /// light times the specular share and the cosine of the angle between
    /// reflection and eye, raised to the shininess.
    pub open spec fn spec_specular(
        &self,
        material: &Material,
        point: Tuple,
        eyev: Tuple,
        normalv: Tuple,
        in_shadow: bool,
    ) -> Color {
        let reflect_dot_eye = self.spec_reflect_dot_eye(point, eyev, normalv);
        if Light::spec_has_highlight(
            in_shadow,
            self.spec_light_dot_normal(point, normalv),
            reflect_dot_eye,
        ) {
            self.intensity.spec_multiply_value(
                material.specular.spec_mul(reflect_dot_eye.spec_powf(material.shininess)),
            )
        } else {
            Color::spec_black()
        }
    }

    /// The colour of a surface point under this light: the ambient part,
    /// which is the effective colour times the ambient share, plus what is
    /// scattered, plus the highlight.
    pub open spec fn spec_lighting(
        &self,
        material: &Material,
        object_inverse: MatrixModel,
        point: Tuple,
        eyev: Tuple,
        normalv: Tuple,
        in_shadow: bool,
    ) -> Color {
        self.spec_effective_color(material, object_inverse, point).spec_multiply_value(
            material.ambient,
        ).spec_add(self.spec_diffuse(material, object_inverse, point, normalv, in_shadow)).spec_add(
            self.spec_specular(material, point, eyev, normalv, in_shadow),
        )
    }

    /// Whether the light reaches a surface, by the shadow and the cosine of
    /// the angle between the direction to the light and the normal.
    pub fn is_lit(in_shadow: bool, light_dot_normal: Scalar) -> (r: bool)
        ensures
            r == Light::spec_is_lit(in_shadow, light_dot_normal),
    {
        !in_shadow && light_dot_normal.ge(Scalar::zero())
    }

    /// Whether a surface shows a highlight, by the shadow, the cosine of
    /// the angle between light and normal, and the cosine of the angle
    /// between the reflected light and the eye.
    pub fn has_highlight(in_shadow: bool, light_dot_normal: Scalar, reflect_dot_eye: Scalar) -> (r:
        bool)
        ensures
            r == Light::spec_has_highlight(in_shadow, light_dot_normal, reflect_dot_eye),
    {
        Light::is_lit(in_shadow, light_dot_normal) && reflect_dot_eye.ge(Scalar::zero())
    }

    pub fn point_light(position: Tuple, intensity: Color) -> (l: Light)
        ensures
            l == (Light { position, intensity }),
    {
        Light { position, intensity }
    }

    /// The colour of a surface point under this light.
    pub fn lighting(
        &self,
        material: &Material,
        object_transformation: &Transformation,
        point: &Tuple,
        eyev: &Tuple,
        normalv: &Tuple,
        in_shadow: bool,
    ) -> (c: Color)
        requires
            material.wf(),
            object_transformation.wf(),
        ensures
            c == self.spec_lighting(
                material,
                object_transformation.inverse@,
                *point,
                *eyev,
                *normalv,
                in_shadow,
            ),
    {
        let color = match &material.pattern {
            None => material.color,
            Some(p) => p.pattern_at_object(object_transformation, point),
        };
        let effective_color = color.multiply(&self.intensity);
        let lightv = vector_normalize(&subtract_tuple(&self.position, point));
        let ambient = effective_color.multiply_value(material.ambient);
        let mut diffuse = Color::black();
        let mut specular = Color::black();
        let light_dot_normal = vector_dot_product(&lightv, normalv);
        if Light::is_lit(in_shadow, light_dot_normal) {
            diffuse = effective_color.multiply_value(material.diffuse.mul(light_dot_normal));
            let reflectv = vector_reflect(&negate_tuple(&lightv), normalv);
            let reflect_dot_eye = vector_dot_product(&reflectv, eyev);
            if Light::has_highlight(in_shadow, light_dot_normal, reflect_dot_eye) {
                let factor = reflect_dot_eye.powf(material.shininess);
                specular = self.intensity.multiply_value(material.specular.mul(factor));
            }
        }
        ambient.add(&diffuse).add(&specular)
    }
}

} // verus!
