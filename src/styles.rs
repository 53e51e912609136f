use vstd::prelude::*;

use crate::utils::Point;

verus! {

/// A rotation or flip applied to a shape.
#[derive(Clone, Copy, Debug, PartialEq, Eq, Structural)]
pub enum Rotate {
    /// A rotation by a number of degrees, always below 360.
    Circular(u16),
    /// A flip around the X axis.
    Flipx,
    /// A flip around the Y axis.
    Flipy,
}

/// An RGBA color, one byte per channel.
#[derive(Clone, Copy, Debug, PartialEq, Eq, Structural)]
pub struct Color {
    pub red: u8,
    pub green: u8,
    pub blue: u8,
    pub transparency: u8,
}

/// The styles of a shape: translation, rotation, fill and outline colors.
#[derive(Clone, Copy, Debug, PartialEq, Eq, Structural)]
pub struct Styles {
    pub translate: Point,
    pub rotate: Rotate,
    pub fill: Color,
    pub outline: Color,
}

impl Rotate {
    /// A rotation is well formed when its degree lies in `[0, 360)`.
    pub open spec fn wf(self) -> bool {
        match self {
            Rotate::Circular(d) => d < 360,
            _ => true,
        }
    }

    /// A circular rotation by `degree` reduced modulo 360.
    pub fn new_circular(degree: u16) -> (r: Self)
        ensures
            r == Rotate::Circular((degree % 360) as u16),
            r.wf(),
    {
        Rotate::Circular(degree % 360)
    }

    /// The flip around the X axis.
    pub fn new_flip_x() -> (r: Self)
        ensures
            r == Rotate::Flipx,
    {
        Rotate::Flipx
    }

    /// The flip around the Y axis.
    pub fn new_flip_y() -> (r: Self)
        ensures
            r == Rotate::Flipy,
    {
        Rotate::Flipy
    }
}

impl Default for Rotate {
    fn default() -> (r: Self)
        ensures
            r == Rotate::Circular(0),
    {
        Rotate::Circular(0)
    }
}

/// The color with every channel at zero.
pub open spec fn zero_color() -> Color {
    Color { red: 0, green: 0, blue: 0, transparency: 0 }
}

/// The default styles: no translation, no rotation, zero colors.
pub open spec fn default_styles() -> Styles {
    Styles {
        translate: Point { x: 0, y: 0 },
        rotate: Rotate::Circular(0),
        fill: zero_color(),
        outline: zero_color(),
    }
}

impl Default for Color {
    fn default() -> (r: Self)
        ensures
            r == zero_color(),
    {
        Color { red: 0, green: 0, blue: 0, transparency: 0 }
    }
}

impl Styles {
    /// Styles are well formed when their rotation is.
    pub open spec fn wf(self) -> bool {
        self.rotate.wf()
    }

    /// The default styles.
    pub fn new() -> (r: Self)
        ensures
            r == default_styles(),
            r.wf(),
    {
        Styles {
            translate: Point::new(),
            rotate: Rotate::Circular(0),
            fill: Color { red: 0, green: 0, blue: 0, transparency: 0 },
            outline: Color { red: 0, green: 0, blue: 0, transparency: 0 },
        }
    }
}

impl Default for Styles {
    fn default() -> (r: Self)
        ensures
            r == default_styles(),
    {
        Styles::new()
    }
}

} // verus!
