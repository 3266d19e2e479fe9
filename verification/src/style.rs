use vstd::prelude::*;
use crate::geometry::{fits_i32, Point, Rectangle, Size};
use embedded_graphics::pixelcolor::Rgb565 as EgRgb565;
use embedded_graphics::pixelcolor::RgbColor;
use embedded_graphics::primitives::Primitive;
use embedded_graphics::prelude::Dimensions;

verus! {

/// A 16 bit color: 5 bits of red, 6 bits of green, 5 bits of blue.
#[derive(Clone, Copy, Debug, PartialEq, Eq, Structural)]
pub struct Rgb565 {
    pub r: u8,
    pub g: u8,
    pub b: u8,
}

impl Rgb565 {
    /// Every channel lies in its bit range.
    pub open spec fn valid(self) -> bool {
        self.r < 32 && self.g < 64 && self.b < 32
    }
}

/// `Rgb565::RED` of embedded-graphics: the red channel at its maximum (31),
/// green and blue at zero, read back through the channel getters.
#[verifier::external_body]
fn rgb565_red() -> (c: Rgb565)
    ensures
        c == (Rgb565 { r: 31, g: 0, b: 0 }),
{
    let c = EgRgb565::RED;
    Rgb565 { r: c.r(), g: c.g(), b: c.b() }
}

/// `Rgb565::WHITE` of embedded-graphics: every channel at its maximum
/// (31, 63, 31), read back through the channel getters.
#[verifier::external_body]
fn rgb565_white() -> (c: Rgb565)
    ensures
        c == (Rgb565 { r: 31, g: 63, b: 31 }),
{
    let c = EgRgb565::WHITE;
    Rgb565 { r: c.r(), g: c.g(), b: c.b() }
}

/// `Rgb565::BLACK` of embedded-graphics: every channel at zero, read back
/// through the channel getters.
#[verifier::external_body]
fn rgb565_black() -> (c: Rgb565)
    ensures
        c == (Rgb565 { r: 0, g: 0, b: 0 }),
{
    let c = EgRgb565::BLACK;
    Rgb565 { r: c.r(), g: c.g(), b: c.b() }
}

/// Pure red.
pub fn red() -> (c: Rgb565)
    ensures
        c == (Rgb565 { r: 31, g: 0, b: 0 }),
        c.valid(),
{
    rgb565_red()
}

/// Pure white.
pub fn white() -> (c: Rgb565)
    ensures
        c == (Rgb565 { r: 31, g: 63, b: 31 }),
        c.valid(),
{
    rgb565_white()
}

/// Black.
pub fn black() -> (c: Rgb565)
    ensures
        c == (Rgb565 { r: 0, g: 0, b: 0 }),
        c.valid(),
{
    rgb565_black()
}

/// Horizontal placement of the text inside its box.
#[derive(Clone, Copy, Debug, PartialEq, Eq, Structural)]
pub enum HorizontalAlignment {
    Left,
    Center,
    Right,
    Justified,
}

/// Vertical placement of the text inside its box.
#[derive(Clone, Copy, Debug, PartialEq, Eq, Structural)]
pub enum VerticalAlignment {
    Top,
    Middle,
    Bottom,
    Scrolling,
}

/// Where the stroke of an outline lies relative to the shape's edge.
#[derive(Clone, Copy, Debug, PartialEq, Eq, Structural)]
pub enum StrokeAlignment {
    Inside,
    Center,
    Outside,
}

/// How a primitive shape is drawn: optional fill and stroke colors, the
/// stroke width and the stroke's alignment.
#[derive(Clone, Copy, Debug, PartialEq, Eq, Structural)]
pub struct PrimitiveStyle {
    pub fill_color: Option<Rgb565>,
    pub stroke_color: Option<Rgb565>,
    pub stroke_width: u32,
    pub stroke_alignment: StrokeAlignment,
}

/// A rectangle together with the style it is drawn in.
#[derive(Clone, Copy, Debug, PartialEq, Eq, Structural)]
pub struct StyledRectangle {
    pub primitive: Rectangle,
    pub style: PrimitiveStyle,
}

/// The part of the stroke that lies outside the shape.
pub open spec fn outside_stroke_width(width: u32, alignment: StrokeAlignment) -> int {
    match alignment {
        StrokeAlignment::Inside => 0,
        StrokeAlignment::Center => (width / 2) as int,
        StrokeAlignment::Outside => width as int,
    }
}

/// A non-negative amount clamped to the range of `i32`.
pub open spec fn clamp_i32(v: int) -> int {
    if v > i32::MAX { i32::MAX as int } else { v }
}

/// A non-negative amount clamped to the range of `u32`.
pub open spec fn clamp_u32(v: int) -> int {
    if v > u32::MAX { u32::MAX as int } else { v }
}

/// Offset from the first pixel of a run of `len` pixels to its middle one.
pub open spec fn center_offset(len: u32) -> int {
    if len == 0 { 0 } else { (len - 1) / 2 }
}

/// Length of a run of `len` pixels grown by `o` pixels on both ends.
pub open spec fn grown_len(len: u32, o: int) -> int {
    clamp_u32(len + 2 * clamp_i32(o))
}

/// Coordinate of the start of a run of `len` pixels starting at `start`,
/// grown by `o` pixels on both ends around its middle.
pub open spec fn grown_start(start: i32, len: u32, o: int) -> int {
    start + center_offset(len) - center_offset(grown_len(len, o) as u32)
}

/// The bounding box of `r` drawn with a stroke of the given width and
/// alignment has no coordinate outside the range of `i32`.
pub open spec fn styled_bounds_ok(r: Rectangle, width: u32, alignment: StrokeAlignment) -> bool {
    let o = outside_stroke_width(width, alignment);
    &&& fits_i32(r.top_left.x + center_offset(r.size.width))
    &&& fits_i32(r.top_left.y + center_offset(r.size.height))
    &&& fits_i32(grown_start(r.top_left.x, r.size.width, o))
    &&& fits_i32(grown_start(r.top_left.y, r.size.height, o))
}

/// The bounding box of `r` drawn with a stroke of the given width and
/// alignment: the rectangle grown by the outside part of the stroke on
/// every side, around the same center.
pub open spec fn styled_bounds(r: Rectangle, width: u32, alignment: StrokeAlignment) -> Rectangle {
    let o = outside_stroke_width(width, alignment);
    Rectangle {
        top_left: Point {
            x: grown_start(r.top_left.x, r.size.width, o) as i32,
            y: grown_start(r.top_left.y, r.size.height, o) as i32,
        },
        size: Size {
            width: grown_len(r.size.width, o) as u32,
            height: grown_len(r.size.height, o) as u32,
        },
    }
}

/// The bounding box that embedded-graphics gives a rectangle drawn with
/// `PrimitiveStyle` of the given stroke width and alignment
/// (`Styled<Rectangle, PrimitiveStyle>::bounding_box`): the rectangle offset
/// by the outside stroke width, clamped to `i32`, with its size grown by
/// twice that amount (saturating) around the unchanged center. Colors do not
/// enter the bounding box, so none is handed over. Inputs on which the
/// crate's center arithmetic would overflow are left out.
#[verifier::external_body]
fn eg_styled_bounding_box(r: Rectangle, width: u32, alignment: StrokeAlignment) -> (bb: Rectangle)
    requires
        styled_bounds_ok(r, width, alignment),
    ensures
        bb == styled_bounds(r, width, alignment),
{
    let a = match alignment {
        StrokeAlignment::Inside => embedded_graphics::primitives::StrokeAlignment::Inside,
        StrokeAlignment::Center => embedded_graphics::primitives::StrokeAlignment::Center,
        StrokeAlignment::Outside => embedded_graphics::primitives::StrokeAlignment::Outside,
    };
    let style = embedded_graphics::primitives::PrimitiveStyleBuilder::<EgRgb565>::new()
        .stroke_width(width).stroke_alignment(a).build();
    let p = embedded_graphics::prelude::Point::new(r.top_left.x, r.top_left.y);
    let s = embedded_graphics::prelude::Size::new(r.size.width, r.size.height);
    let bb = embedded_graphics::primitives::Rectangle::new(p, s).into_styled(style).bounding_box();
    Rectangle { top_left: Point { x: bb.top_left.x, y: bb.top_left.y }, size: Size { width: bb.size.width, height: bb.size.height } }
}

impl StyledRectangle {
    /// The area that drawing this rectangle covers.
    pub open spec fn bounds(self) -> Rectangle {
        styled_bounds(self.primitive, self.style.stroke_width, self.style.stroke_alignment)
    }

    /// The covered area has no coordinate outside the range of `i32`.
    pub open spec fn bounds_ok(self) -> bool {
        styled_bounds_ok(self.primitive, self.style.stroke_width, self.style.stroke_alignment)
    }

    /// The area that drawing this rectangle covers.
    pub fn bounding_box(&self) -> (bb: Rectangle)
        requires
            self.bounds_ok(),
        ensures
            bb == self.bounds(),
    {
        eg_styled_bounding_box(self.primitive, self.style.stroke_width, self.style.stroke_alignment)
    }
}

/// A stroke whose outside part is empty leaves the bounding box equal to
/// the rectangle itself (when the rectangle's center is representable).
pub proof fn lemma_thin_stroke_bounds(r: Rectangle, width: u32, alignment: StrokeAlignment)
    requires
        outside_stroke_width(width, alignment) == 0,
        fits_i32(r.top_left.x + center_offset(r.size.width)),
        fits_i32(r.top_left.y + center_offset(r.size.height)),
    ensures
        styled_bounds_ok(r, width, alignment),
        styled_bounds(r, width, alignment) == r,
{
}

/// The metrics of a monospaced font.
#[derive(Clone, Copy, Debug, PartialEq, Eq, Structural)]
pub struct FontMetrics {
    pub character_size: Size,
    pub character_spacing: u32,
}

/// The size and spacing of `FONT_10X20` of embedded-graphics (ASCII
/// variant), read from the font's public fields: 10 by 20 pixels with no
/// spacing between characters.
#[verifier::external_body]
fn eg_font_10x20() -> (f: FontMetrics)
    ensures
        f.character_size == (Size { width: 10, height: 20 }),
        f.character_spacing == 0,
{
    let f = &embedded_graphics::mono_font::ascii::FONT_10X20;
    FontMetrics {
        character_size: Size { width: f.character_size.width, height: f.character_size.height },
        character_spacing: f.character_spacing,
    }
}

/// The 10x20 pixel font the text boxes are written in.
pub fn font_10x20() -> (f: FontMetrics)
    ensures
        f.character_size == (Size { width: 10, height: 20 }),
        f.character_spacing == 0,
{
    eg_font_10x20()
}

/// How characters are drawn: a monospaced font and a text color.
#[derive(Clone, Copy, Debug, PartialEq, Eq, Structural)]
pub struct MonoTextStyle {
    pub font: FontMetrics,
    pub text_color: Rgb565,
}

/// How the text is laid out inside its box.
#[derive(Clone, Copy, Debug, PartialEq, Eq, Structural)]
pub struct TextBoxStyle {
    pub alignment: HorizontalAlignment,
    pub vertical_alignment: VerticalAlignment,
    pub paragraph_spacing: u32,
}

} // verus!
