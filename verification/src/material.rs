//! Surface materials: reflectance and an optional pattern.

use vstd::prelude::*;
use crate::color::Color;
use crate::pattern::Pattern;
use crate::scalar::Scalar;

verus! {

#[derive(Debug, PartialEq)]
pub struct Material {
    pub color: Color,
    pub ambient: Scalar,
    pub diffuse: Scalar,
    pub specular: Scalar,
    /// The exponent of the specular highlight.
    pub shininess: Scalar,
    pub pattern: Option<Pattern>,
}

impl Material {
    /// The pattern, where there is one, is well formed.
    pub open spec fn wf(&self) -> bool {
        self.pattern matches Some(p) ==> p.wf()
    }

    /// The shininess of every material built here: two hundred.
    pub open spec fn spec_shininess() -> Scalar {
        Scalar::spec_from_int(200)
    }

    /// Whether the material has the given colour, diffuse and specular
    /// shares, the ambient share and the shininess of every material built
    /// here, and no pattern.
    pub open spec fn spec_is_plain(&self, color: Color, diffuse: Scalar, specular: Scalar) -> bool {
        &&& self.color == color
        &&& self.ambient == Material::spec_ambient()
        &&& self.diffuse == diffuse
        &&& self.specular == specular
        &&& self.shininess == Material::spec_shininess()
        &&& self.pattern.is_none()
    }

    /// The ambient share of every material built here: one tenth.
    pub open spec fn spec_ambient() -> Scalar {
        Scalar::spec_ratio(1, 10)
    }

    /// White, an ambient share of one tenth, diffuse and specular shares of
    /// nine tenths, a shininess of two hundred and no pattern.
    pub fn default() -> (m: Material)
        ensures
            m.color == Color::spec_white(),
            m.ambient == Material::spec_ambient(),
            m.diffuse == Scalar::spec_ratio(9, 10),
            m.specular == Scalar::spec_ratio(9, 10),
            m.shininess == Material::spec_shininess(),
            m.pattern.is_none(),
            m.wf(),
    {
        Material {
            color: Color::white(),
            ambient: Scalar::ratio(1, 10),
            diffuse: Scalar::ratio(9, 10),
            specular: Scalar::ratio(9, 10),
            shininess: Scalar::from_int(200),
            pattern: None,
        }
    }

    pub fn new(color: Color, diffuse: Scalar, specular: Scalar) -> (m: Material)
        ensures
            m.color == color,
            m.ambient == Material::spec_ambient(),
            m.diffuse == diffuse,
            m.specular == specular,
            m.shininess == Material::spec_shininess(),
            m.pattern.is_none(),
            m.wf(),
    {
        Material {
            color,
            ambient: Scalar::ratio(1, 10),
            diffuse,
            specular,
            shininess: Scalar::from_int(200),
            pattern: None,
        }
    }

    pub fn new_with_pattern(color: Color, diffuse: Scalar, specular: Scalar, pattern: Pattern) -> (m:
        Material)
        ensures
            m.color == color,
            m.ambient == Material::spec_ambient(),
            m.diffuse == diffuse,
            m.specular == specular,
            m.shininess == Material::spec_shininess(),
            m.pattern == Some(pattern),
            pattern.wf() ==> m.wf(),
    {
        Material {
            color,
            ambient: Scalar::ratio(1, 10),
            diffuse,
            specular,
            shininess: Scalar::from_int(200),
            pattern: Some(pattern),
        }
    }

    /// The material with its pattern replaced.
    pub fn set_pattern(self, pattern: Pattern) -> (m: Material)
        ensures
            m.color == self.color,
            m.ambient == self.ambient,
            m.diffuse == self.diffuse,
            m.specular == self.specular,
            m.shininess == self.shininess,
            m.pattern == Some(pattern),
            pattern.wf() ==> m.wf(),
    {
        Material {
            color: self.color,
            ambient: self.ambient,
            diffuse: self.diffuse,
            specular: self.specular,
            shininess: self.shininess,
            pattern: Some(pattern),
        }
    }
}

} // verus!
