//! The camera: a grid of pixels one unit in front of the eye.

use vstd::prelude::*;
use crate::canvas::{lemma_pixel_in_bounds, lemma_pixel_index, Canvas};
use crate::color::Color;
use crate::matrix::{Matrix, MatrixModel};
use crate::ray::Ray;
use crate::scalar::Scalar;
use crate::tuple::{
    point, point_zero, spec_point, spec_point_zero, spec_subtract_tuple, spec_vector_normalize,
    subtract_tuple, vector_normalize,
};
use crate::world::World;

verus! {

pub struct Camera {
    /// The number of pixels in a row.
    pub hsize: usize,
    /// The number of rows.
    pub vsize: usize,
    /// The angle that the camera sees, in radians.
    pub field_of_view: Scalar,
    /// The matrix that takes the world into the space of the camera.
    pub transform: Matrix,
    pub transform_inverse: Matrix,
    /// The side of one pixel on the canvas.
    pub pixel_size: Scalar,
    /// Half the width of the canvas.
    pub half_width: Scalar,
    /// Half the height of the canvas.
    pub half_height: Scalar,
}

/// Half the larger side of the canvas: the tangent of half the field of
/// view.
pub open spec fn spec_half_view(field_of_view: Scalar) -> Scalar {
    field_of_view.spec_div(Scalar::spec_two()).spec_tan()
}

/// Width over height, in pixels.
pub open spec fn spec_aspect(hsize: usize, vsize: usize) -> Scalar {
    Scalar::spec_from_int(hsize as u64).spec_div(Scalar::spec_from_int(vsize as u64))
}

/// Whether a canvas of the given aspect is at least as wide as it is high.
pub open spec fn spec_is_wide(aspect: Scalar) -> bool {
    aspect.spec_ge(Scalar::spec_one())
}

/// Whether a canvas of the given aspect is at least as wide as it is high.
pub fn is_wide(aspect: Scalar) -> (r: bool)
    ensures
        r == spec_is_wide(aspect),
{
    aspect.ge(Scalar::one())
}

/// Half the width of the canvas: half the view where the canvas is wide,
/// else half the view times the aspect.
pub open spec fn spec_half_width(hsize: usize, vsize: usize, field_of_view: Scalar) -> Scalar {
    if spec_is_wide(spec_aspect(hsize, vsize)) {
        spec_half_view(field_of_view)
    } else {
        spec_half_view(field_of_view).spec_mul(spec_aspect(hsize, vsize))
    }
}

/// Half the height of the canvas: half the view over the aspect where the
/// canvas is wide, else half the view.
pub open spec fn spec_half_height(hsize: usize, vsize: usize, field_of_view: Scalar) -> Scalar {
    if spec_is_wide(spec_aspect(hsize, vsize)) {
        spec_half_view(field_of_view).spec_div(spec_aspect(hsize, vsize))
    } else {
        spec_half_view(field_of_view)
    }
}

/// The side of a pixel: the width of the canvas over the pixels in a row.
pub open spec fn spec_pixel_size(hsize: usize, vsize: usize, field_of_view: Scalar) -> Scalar {
    spec_half_width(hsize, vsize, field_of_view).spec_mul(Scalar::spec_two()).spec_div(
        Scalar::spec_from_int(hsize as u64),
    )
}

impl Camera {
    /// Both matrices are four by four.
    pub open spec fn wf(&self) -> bool {
        &&& self.transform.wf()
        &&& self.transform.size == 4
        &&& self.transform_inverse.wf()
        &&& self.transform_inverse.size == 4
    }

    /// The distance of the centre of pixel `p` from the edge of the canvas.
    pub open spec fn spec_offset(&self, p: usize) -> Scalar {
        Scalar::spec_from_int(p as u64).spec_add(Scalar::spec_half()).spec_mul(self.pixel_size)
    }

    /// The ray from the eye through the centre of the pixel in column `px`
    /// of row `py`. The canvas stands one unit in front of the eye, with
    /// positive x to the left.
    pub open spec fn spec_ray_for_pixel(&self, px: usize, py: usize) -> Ray {
        let world_x = self.half_width.spec_sub(self.spec_offset(px));
        let world_y = self.half_height.spec_sub(self.spec_offset(py));
        let pixel = self.transform_inverse@.multiply_tuple(
            spec_point(world_x, world_y, Scalar::spec_one().spec_neg()),
        );
        let origin = self.transform_inverse@.multiply_tuple(spec_point_zero());
        Ray { origin, direction: spec_vector_normalize(spec_subtract_tuple(pixel, origin)) }
    }

    /// The colour of the pixel in column `px` of row `py`.
    pub open spec fn spec_pixel_color(&self, world: &World, px: usize, py: usize) -> Color {
        world.spec_color_at(self.spec_ray_for_pixel(px, py))
    }

    /// Whether the canvas is the image of the world: it has the size of the
    /// camera, and each of its pixels has the colour that the ray through
    /// it sees.
    pub open spec fn spec_is_image(&self, world: &World, canvas: &Canvas) -> bool {
        &&& canvas.width == self.hsize
        &&& canvas.height == self.vsize
        &&& canvas.wf()
        &&& forall|x: usize, y: usize|
            x < self.hsize && y < self.vsize ==> canvas.spec_pixel(x as int, y as int)
                == #[trigger] self.spec_pixel_color(world, x, y)
    }

    /// A camera at the origin that looks along the negative z axis.
    pub fn new(hsize: usize, vsize: usize, field_of_view: Scalar) -> (c: Camera)
        ensures
            c.hsize == hsize,
            c.vsize == vsize,
            c.field_of_view == field_of_view,
            c.transform@ == MatrixModel::identity(),
            c.transform_inverse@ == MatrixModel::identity(),
            c.pixel_size == spec_pixel_size(hsize, vsize, field_of_view),
            c.half_width == spec_half_width(hsize, vsize, field_of_view),
            c.half_height == spec_half_height(hsize, vsize, field_of_view),
            c.wf(),
    {
        let half_view = field_of_view.div(Scalar::two()).tan();
        let aspect = Scalar::from_int(hsize as u64).div(Scalar::from_int(vsize as u64));
        let (half_width, half_height) = if is_wide(aspect) {
            (half_view, half_view.div(aspect))
        } else {
            (half_view.mul(aspect), half_view)
        };
        let pixel_size = half_width.mul(Scalar::two()).div(Scalar::from_int(hsize as u64));
        Camera {
            hsize,
            vsize,
            field_of_view,
            transform: Matrix::identity(),
            transform_inverse: Matrix::identity(),
            pixel_size,
            half_width,
            half_height,
        }
    }

    /// The camera with another transformation, which must have an inverse.
    pub fn set_transform(self, transform: Matrix) -> (c: Camera)
        requires
            transform.wf(),
            transform.size == 4,
            transform@.invertible(),
        ensures
            c.hsize == self.hsize,
            c.vsize == self.vsize,
            c.field_of_view == self.field_of_view,
            c.transform@ == transform@,
            c.transform_inverse@ == transform@.inverse(),
            c.pixel_size == self.pixel_size,
            c.half_width == self.half_width,
            c.half_height == self.half_height,
            c.wf(),
    {
        Camera {
            hsize: self.hsize,
            vsize: self.vsize,
            field_of_view: self.field_of_view,
            transform_inverse: transform.inverse(),
            transform,
            pixel_size: self.pixel_size,
            half_width: self.half_width,
            half_height: self.half_height,
        }
    }

    /// The camera with another transformation, or the camera as it was
    /// where the matrix has no inverse.
    pub fn try_set_transform(self, transform: Matrix) -> (r: Result<Camera, Camera>)
        requires
            transform.wf(),
            transform.size == 4,
        ensures
            r.is_ok() == transform@.invertible(),
            r matches Ok(c) ==> c.hsize == self.hsize && c.vsize == self.vsize && c.field_of_view
                == self.field_of_view && c.transform@ == transform@ && c.transform_inverse@
                == transform@.inverse() && c.pixel_size == self.pixel_size && c.half_width
                == self.half_width && c.half_height == self.half_height && c.wf(),
            r matches Err(c) ==> c == self,
    {
        if transform.is_invertible() {
            Ok(self.set_transform(transform))
        } else {
            Err(self)
        }
    }

    /// The ray from the eye through the centre of a pixel.
    pub fn ray_for_pixel(&self, px: usize, py: usize) -> (r: Ray)
        requires
            self.wf(),
        ensures
            r == self.spec_ray_for_pixel(px, py),
    {
        let x_offset = Scalar::from_int(px as u64).add(Scalar::half()).mul(self.pixel_size);
        let y_offset = Scalar::from_int(py as u64).add(Scalar::half()).mul(self.pixel_size);
        let world_x = self.half_width.sub(x_offset);
        let world_y = self.half_height.sub(y_offset);
        let pixel = self.transform_inverse.multiply_tuple(
            &point(world_x, world_y, Scalar::one().neg()),
        );
        let origin = self.transform_inverse.multiply_tuple(&point_zero());
        let direction = vector_normalize(&subtract_tuple(&pixel, &origin));
        Ray::new(origin, direction)
    }

    /// The image of the world: for every pixel, row after row, the colour
    /// that the ray through it sees.
    pub fn render(&self, world: &World) -> (canvas: Canvas)
        requires
            self.wf(),
            world.wf(),
            self.hsize * self.vsize <= usize::MAX,
        ensures
            self.spec_is_image(world, &canvas),
    {
        let mut canvas = Canvas::make(self.hsize, self.vsize);
        let mut y: usize = 0;
        while y < self.vsize
            invariant
                self.wf(),
                world.wf(),
                y <= self.vsize,
                canvas.width == self.hsize,
                canvas.height == self.vsize,
                canvas.wf(),
                forall|xx: usize, yy: usize|
                    xx < self.hsize && yy < y ==> canvas.spec_pixel(xx as int, yy as int)
                        == #[trigger] self.spec_pixel_color(world, xx, yy),
            decreases self.vsize - y,
        {
            let mut x: usize = 0;
            while x < self.hsize
                invariant
                    self.wf(),
                    world.wf(),
                    y < self.vsize,
                    x <= self.hsize,
                    canvas.width == self.hsize,
                    canvas.height == self.vsize,
                    canvas.wf(),
                    forall|xx: usize, yy: usize|
                        xx < self.hsize && yy < y ==> canvas.spec_pixel(xx as int, yy as int)
                            == #[trigger] self.spec_pixel_color(world, xx, yy),
                    forall|xx: usize|
                        xx < x ==> canvas.spec_pixel(xx as int, y as int)
                            == #[trigger] self.spec_pixel_color(world, xx, y),
                decreases self.hsize - x,
            {
                let ray = self.ray_for_pixel(x, y);
                let color = world.color_at(&ray);
                let ghost before = canvas.content@;
                proof {
                    lemma_pixel_in_bounds(
                        self.hsize as int,
                        self.vsize as int,
                        x as int,
                        y as int,
                    );
                }
                canvas.write(x, y, color);
                proof {
                    assert forall|xx: usize, yy: usize| xx < self.hsize && yy < y implies canvas
                        .spec_pixel(xx as int, yy as int) == #[trigger] self.spec_pixel_color(
                        world,
                        xx,
                        yy,
                    ) by {
                        lemma_pixel_index(self.hsize as int, xx as int, yy as int);
                        lemma_pixel_index(self.hsize as int, x as int, y as int);
                        lemma_pixel_in_bounds(
                            self.hsize as int,
                            self.vsize as int,
                            xx as int,
                            yy as int,
                        );
                    }
                    assert forall|xx: usize| xx < x + 1 implies canvas.spec_pixel(
                        xx as int,
                        y as int,
                    ) == #[trigger] self.spec_pixel_color(world, xx, y) by {
                        lemma_pixel_index(self.hsize as int, xx as int, y as int);
                        lemma_pixel_index(self.hsize as int, x as int, y as int);
                        lemma_pixel_in_bounds(
                            self.hsize as int,
                            self.vsize as int,
                            xx as int,
                            y as int,
                        );
                    }
                }
                x += 1;
            }
            y += 1;
        }
        canvas
    }
}

} // verus!
