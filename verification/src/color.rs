//! Colours: three unbounded channels.

use vstd::prelude::*;
use crate::scalar::Scalar;
use crate::text::{digit_count, digits, spec_digits};
use crate::tuple::Tuple;

verus! {

#[derive(Debug, Copy, Clone, PartialEq)]
pub struct Color {
    pub red: Scalar,
    pub green: Scalar,
    pub blue: Scalar,
}

/// One channel brought to the range from zero to `scale`: nothing at or
/// below zero, `scale` above one, and the nearest integral number of
/// `value * scale` in between.
pub open spec fn spec_scale_value(value: Scalar, scale: Scalar) -> Scalar {
    if value.spec_le(Scalar::spec_zero()) {
        Scalar::spec_zero()
    } else if value.spec_gt(Scalar::spec_one()) {
        scale
    } else {
        value.spec_mul(scale).spec_round()
    }
}

impl Color {
    pub open spec fn spec_make(r: Scalar, g: Scalar, b: Scalar) -> Color {
        Color { red: r, green: g, blue: b }
    }

    pub open spec fn spec_black() -> Color {
        Color { red: Scalar::spec_zero(), green: Scalar::spec_zero(), blue: Scalar::spec_zero() }
    }

    pub open spec fn spec_white() -> Color {
        Color { red: Scalar::spec_one(), green: Scalar::spec_one(), blue: Scalar::spec_one() }
    }

    pub open spec fn spec_scale(self, scale: usize) -> Color {
        let s = Scalar::spec_from_int(scale as u64);
        Color {
            red: spec_scale_value(self.red, s),
            green: spec_scale_value(self.green, s),
            blue: spec_scale_value(self.blue, s),
        }
    }

    pub open spec fn spec_add(self, c: Color) -> Color {
        Color {
            red: self.red.spec_add(c.red),
            green: self.green.spec_add(c.green),
            blue: self.blue.spec_add(c.blue),
        }
    }

    pub open spec fn spec_subtract(self, c: Color) -> Color {
        Color {
            red: self.red.spec_sub(c.red),
            green: self.green.spec_sub(c.green),
            blue: self.blue.spec_sub(c.blue),
        }
    }

    pub open spec fn spec_multiply(self, c: Color) -> Color {
        Color {
            red: self.red.spec_mul(c.red),
            green: self.green.spec_mul(c.green),
            blue: self.blue.spec_mul(c.blue),
        }
    }

    pub open spec fn spec_multiply_value(self, value: Scalar) -> Color {
        Color {
            red: self.red.spec_mul(value),
            green: self.green.spec_mul(value),
            blue: self.blue.spec_mul(value),
        }
    }

    /// The three channels as unsigned integers, in decimal, with one space
    /// between them.
    pub open spec fn spec_raw_integers(self) -> Seq<char> {
        spec_digits(self.red.spec_to_int() as nat) + seq![' '] + spec_digits(
            self.green.spec_to_int() as nat,
        ) + seq![' '] + spec_digits(self.blue.spec_to_int() as nat)
    }

    pub fn make(r: Scalar, g: Scalar, b: Scalar) -> (c: Color)
        ensures
            c == Color::spec_make(r, g, b),
    {
        Color { red: r, green: g, blue: b }
    }

    pub fn black() -> (c: Color)
        ensures
            c == Color::spec_black(),
    {
        Color { red: Scalar::zero(), green: Scalar::zero(), blue: Scalar::zero() }
    }

    pub fn white() -> (c: Color)
        ensures
            c == Color::spec_white(),
    {
        Color { red: Scalar::one(), green: Scalar::one(), blue: Scalar::one() }
    }

    pub fn red() -> (c: Color)
        ensures
            c == Color::spec_make(Scalar::spec_one(), Scalar::spec_zero(), Scalar::spec_zero()),
    {
        Color { red: Scalar::one(), green: Scalar::zero(), blue: Scalar::zero() }
    }

    pub fn green() -> (c: Color)
        ensures
            c == Color::spec_make(Scalar::spec_zero(), Scalar::spec_one(), Scalar::spec_zero()),
    {
        Color { red: Scalar::zero(), green: Scalar::one(), blue: Scalar::zero() }
    }

    pub fn blue() -> (c: Color)
        ensures
            c == Color::spec_make(Scalar::spec_zero(), Scalar::spec_zero(), Scalar::spec_one()),
    {
        Color { red: Scalar::zero(), green: Scalar::zero(), blue: Scalar::one() }
    }

    pub fn aqua() -> (c: Color)
        ensures
            c == Color::spec_make(Scalar::spec_zero(), Scalar::spec_one(), Scalar::spec_one()),
    {
        Color { red: Scalar::zero(), green: Scalar::one(), blue: Scalar::one() }
    }

    pub fn yellow() -> (c: Color)
        ensures
            c == Color::spec_make(Scalar::spec_one(), Scalar::spec_one(), Scalar::spec_zero()),
    {
        Color { red: Scalar::one(), green: Scalar::one(), blue: Scalar::zero() }
    }

    pub fn fuchsia() -> (c: Color)
        ensures
            c == Color::spec_make(Scalar::spec_one(), Scalar::spec_zero(), Scalar::spec_one()),
    {
        Color { red: Scalar::one(), green: Scalar::zero(), blue: Scalar::one() }
    }

    /// The channels brought to the range from zero to `scale`, as integers
    /// in decimal with one space between them.
    pub fn raw_scale(self, scale: usize) -> (text: String)
        ensures
            text@ == self.spec_scale(scale).spec_raw_integers(),
    {
        let scaled = self.scale(scale);
        scaled.raw_scale_text()
    }

    /// The channels as unsigned integers in decimal, with one space between
    /// them; a channel that is no integer gives its integral part, a
    /// negative one zero.
    pub fn raw_scale_text(self) -> (text: String)
        ensures
            text@ == self.spec_raw_integers(),
    {
        let mut text = digits(self.red.to_int());
        text.push(' ');
        let green = digits(self.green.to_int());
        text.push_str(green.as_str());
        text.push(' ');
        let blue = digits(self.blue.to_int());
        text.push_str(blue.as_str());
        text
    }

    /// The number of characters of the channels as integers in decimal with
    /// one space between them.
    pub fn raw_integers_len(self) -> (count: usize)
        ensures
            count == self.spec_raw_integers().len(),
            5 <= count <= 62,
    {
        digit_count(self.red.to_int()) + 1 + digit_count(self.green.to_int()) + 1 + digit_count(
            self.blue.to_int(),
        )
    }

    /// Each channel brought to the range from zero to `scale`.
    pub fn scale(self, scale: usize) -> (c: Color)
        ensures
            c == self.spec_scale(scale),
    {
        let s = Scalar::from_int(scale as u64);
        Color {
            red: Color::scale_value(self.red, s),
            green: Color::scale_value(self.green, s),
            blue: Color::scale_value(self.blue, s),
        }
    }

    pub fn scale_value(value: Scalar, scale: Scalar) -> (r: Scalar)
        ensures
            r == spec_scale_value(value, scale),
    {
        if value.le(Scalar::zero()) {
            Scalar::zero()
        } else if value.gt(Scalar::one()) {
            scale
        } else {
            value.mul(scale).round()
        }
    }

    pub fn add(self, c: &Color) -> (r: Color)
        ensures
            r == self.spec_add(*c),
    {
        Color {
            red: self.red.add(c.red),
            green: self.green.add(c.green),
            blue: self.blue.add(c.blue),
        }
    }

    pub fn subtract(self, c: &Color) -> (r: Color)
        ensures
            r == self.spec_subtract(*c),
    {
        Color {
            red: self.red.sub(c.red),
            green: self.green.sub(c.green),
            blue: self.blue.sub(c.blue),
        }
    }

    pub fn multiply(self, c: &Color) -> (r: Color)
        ensures
            r == self.spec_multiply(*c),
    {
        Color {
            red: self.red.mul(c.red),
            green: self.green.mul(c.green),
            blue: self.blue.mul(c.blue),
        }
    }

    pub fn multiply_value(self, value: Scalar) -> (r: Color)
        ensures
            r == self.spec_multiply_value(value),
    {
        Color {
            red: self.red.mul(value),
            green: self.green.mul(value),
            blue: self.blue.mul(value),
        }
    }
}

impl From<Tuple> for Color {
    fn from(t: Tuple) -> (c: Color) {
        Color { red: t.0, green: t.1, blue: t.2 }
    }
}

impl vstd::std_specs::convert::FromSpecImpl<Tuple> for Color {
    open spec fn obeys_from_spec() -> bool {
        true
    }

    open spec fn from_spec(t: Tuple) -> Color {
        Color { red: t.0, green: t.1, blue: t.2 }
    }
}

impl Default for Color {
    fn default() -> (c: Color)
        ensures
            c == Color::spec_black(),
    {
        Color { red: Scalar::zero(), green: Scalar::zero(), blue: Scalar::zero() }
    }
}

} // verus!
