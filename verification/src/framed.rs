use vstd::prelude::*;
use crate::geometry::{fits_i32, Point, Rectangle, Size};
use crate::style::{
    black, font_10x20, red, white, FontMetrics,
    HorizontalAlignment, MonoTextStyle, PrimitiveStyle, Rgb565, StrokeAlignment, StyledRectangle,
    TextBoxStyle, VerticalAlignment,
};

verus! {

/// Default width of the gap between a frame and the text inside it.
pub const DEFAULT_FRAME_THICKNESS: u32 = 2;

/// Width of the line that outlines a frame.
pub const FRAME_STROKE_WIDTH: u32 = 1;

/// Extra vertical space between paragraphs of a text box.
pub const PARAGRAPH_SPACING: u32 = 6;

/// Text drawn inside a rectangle.
#[derive(Debug)]
pub struct TextBox {
    pub text: String,
    pub bounds: Rectangle,
    pub character_style: MonoTextStyle,
    pub style: TextBoxStyle,
}

impl TextBox {
    /// The area the text box covers.
    pub fn bounding_box(&self) -> (bb: Rectangle)
        ensures
            bb == self.bounds,
    {
        self.bounds
    }
}

/// A filled, outlined frame with a text box inside it.
#[derive(Debug)]
pub struct FramedTextBox {
    pub frame: StyledRectangle,
    pub text_box: TextBox,
}

/// Side of an existing frame on which a new frame is placed.
#[derive(Clone, Copy, Debug, PartialEq, Eq, Structural)]
pub enum FramedTextBoxAnchor {
    Left,
    Right,
    Up,
    Down,
}

/// The side facing the given one.
pub open spec fn opposite(anchor: FramedTextBoxAnchor) -> FramedTextBoxAnchor {
    match anchor {
        FramedTextBoxAnchor::Left => FramedTextBoxAnchor::Right,
        FramedTextBoxAnchor::Right => FramedTextBoxAnchor::Left,
        FramedTextBoxAnchor::Up => FramedTextBoxAnchor::Down,
        FramedTextBoxAnchor::Down => FramedTextBoxAnchor::Up,
    }
}

/// No step of placing a frame of `size` at `anchor` of `bb`, `spacing`
/// pixels away, leaves the range of `i32`.
pub open spec fn placement_ok(bb: Rectangle, anchor: FramedTextBoxAnchor, spacing: i32, size: Size) -> bool {
    match anchor {
        FramedTextBoxAnchor::Left => {
            &&& fits_i32(bb.top_left.x - (size.width as i32))
            &&& fits_i32(bb.top_left.x - (size.width as i32) - spacing)
        },
        FramedTextBoxAnchor::Right => {
            &&& fits_i32(bb.top_left.x + (bb.size.width as i32))
            &&& fits_i32(bb.top_left.x + (bb.size.width as i32) + spacing)
        },
        FramedTextBoxAnchor::Up => {
            &&& fits_i32(bb.top_left.y - spacing)
            &&& fits_i32(bb.top_left.y - spacing - (size.height as i32))
        },
        FramedTextBoxAnchor::Down => {
            &&& fits_i32(bb.top_left.y + spacing)
            &&& fits_i32(bb.top_left.y + spacing + (bb.size.height as i32))
        },
    }
}

/// The frame of `size` placed at `anchor` of `bb`, `spacing` pixels away:
/// left of it or right of it with the same top edge, above it or below it
/// with the same left edge.
pub open spec fn placed_frame(bb: Rectangle, anchor: FramedTextBoxAnchor, spacing: i32, size: Size) -> Rectangle {
    let x = bb.top_left.x;
    let y = bb.top_left.y;
    let top_left = match anchor {
        FramedTextBoxAnchor::Left => Point { x: (x - (size.width as i32) - spacing) as i32, y },
        FramedTextBoxAnchor::Right => Point { x: (x + (bb.size.width as i32) + spacing) as i32, y },
        FramedTextBoxAnchor::Up => Point { x, y: (y - spacing - (size.height as i32)) as i32 },
        FramedTextBoxAnchor::Down => Point { x, y: (y + spacing + (bb.size.height as i32)) as i32 },
    };
    Rectangle { top_left, size }
}

/// The settings a builder holds.
#[derive(Clone, Copy, Debug, PartialEq, Eq, Structural)]
pub struct FramedTextBoxSettings {
    pub frame: Rectangle,
    pub frame_thickness: u32,
    pub frame_color: Rgb565,
    pub txt_color: Rgb565,
    pub bg_color: Rgb565,
    pub alignment: HorizontalAlignment,
    pub alignment_vertical: VerticalAlignment,
}

/// The settings of a fresh builder for `frame`: a red frame two pixels away
/// from white text on black, aligned top left.
pub open spec fn default_settings(frame: Rectangle) -> FramedTextBoxSettings {
    FramedTextBoxSettings {
        frame,
        frame_thickness: DEFAULT_FRAME_THICKNESS,
        frame_color: Rgb565 { r: 31, g: 0, b: 0 },
        txt_color: Rgb565 { r: 31, g: 63, b: 31 },
        bg_color: Rgb565 { r: 0, g: 0, b: 0 },
        alignment: HorizontalAlignment::Left,
        alignment_vertical: VerticalAlignment::Top,
    }
}

/// `frame` shrunk by `t` pixels on every side.
pub open spec fn inset(frame: Rectangle, t: u32) -> Rectangle {
    Rectangle {
        top_left: Point { x: (frame.top_left.x + t) as i32, y: (frame.top_left.y + t) as i32 },
        size: Size { width: (frame.size.width - 2 * t) as u32, height: (frame.size.height - 2 * t) as u32 },
    }
}

/// Building from these settings stays within the ranges of the coordinates:
/// the frame is at least twice as wide and as high as its thickness, and
/// the inner corner is representable.
pub open spec fn build_ok(s: FramedTextBoxSettings) -> bool {
    &&& 2 * s.frame_thickness <= s.frame.size.width
    &&& 2 * s.frame_thickness <= s.frame.size.height
    &&& fits_i32(s.frame.top_left.x + s.frame_thickness)
    &&& fits_i32(s.frame.top_left.y + s.frame_thickness)
}

/// The frame's drawing style: outlined in the frame color with a one pixel
/// centered stroke, filled with the background color.
pub open spec fn frame_style(s: FramedTextBoxSettings) -> PrimitiveStyle {
    PrimitiveStyle {
        fill_color: Some(s.bg_color),
        stroke_color: Some(s.frame_color),
        stroke_width: FRAME_STROKE_WIDTH,
        stroke_alignment: StrokeAlignment::Center,
    }
}

/// The boxed text is empty, lies inside the frame at the frame's thickness,
/// and is written in the 10x20 font in the text color, aligned as set, with
/// paragraphs spaced by six pixels.
pub open spec fn is_built_from(b: FramedTextBox, s: FramedTextBoxSettings) -> bool {
    &&& b.frame == (StyledRectangle { primitive: s.frame, style: frame_style(s) })
    &&& b.text_box.text@ == Seq::<char>::empty()
    &&& b.text_box.bounds == inset(s.frame, s.frame_thickness)
    &&& b.text_box.character_style == (MonoTextStyle {
        font: FontMetrics { character_size: Size { width: 10, height: 20 }, character_spacing: 0 },
        text_color: s.txt_color,
    })
    &&& b.text_box.style == (TextBoxStyle {
        alignment: s.alignment,
        vertical_alignment: s.alignment_vertical,
        paragraph_spacing: PARAGRAPH_SPACING,
    })
}

/// Collects the settings of a framed text box before it is built.
pub struct FramedTextBoxBuilder {
    frame: Rectangle,
    frame_thickness: u32,
    frame_color: Rgb565,
    txt_color: Rgb565,
    bg_color: Rgb565,
    alignment: HorizontalAlignment,
    alignment_vertical: VerticalAlignment,
}

impl View for FramedTextBoxBuilder {
    type V = FramedTextBoxSettings;

    closed spec fn view(&self) -> FramedTextBoxSettings {
        FramedTextBoxSettings {
            frame: self.frame,
            frame_thickness: self.frame_thickness,
            frame_color: self.frame_color,
            txt_color: self.txt_color,
            bg_color: self.bg_color,
            alignment: self.alignment,
            alignment_vertical: self.alignment_vertical,
        }
    }
}

impl FramedTextBoxBuilder {
    pub fn new(frame: Rectangle) -> (b: FramedTextBoxBuilder)
        ensures
            b@ == default_settings(frame),
            b@.frame == frame,
            b@.frame_thickness == 2,
            b@.frame_color == (Rgb565 { r: 31, g: 0, b: 0 }),
            b@.txt_color == (Rgb565 { r: 31, g: 63, b: 31 }),
            b@.bg_color == (Rgb565 { r: 0, g: 0, b: 0 }),
            b@.alignment == HorizontalAlignment::Left,
            b@.alignment_vertical == VerticalAlignment::Top,
    {
        FramedTextBoxBuilder {
            frame,
            frame_thickness: DEFAULT_FRAME_THICKNESS,
            frame_color: red(),
            txt_color: white(),
            bg_color: black(),
            alignment: HorizontalAlignment::Left,
            alignment_vertical: VerticalAlignment::Top,
        }
    }

    /// Sets the vertical alignment of the text.
    pub fn alignment_vertical(&mut self, alignment_vertical: VerticalAlignment) -> (r: &mut FramedTextBoxBuilder)
        ensures
            r@ == (FramedTextBoxSettings { alignment_vertical, ..old(self)@ }),
            final(self)@ == final(r)@,
    {
        self.alignment_vertical = alignment_vertical;
        self
    }

    /// Sets the horizontal alignment of the text.
    pub fn alignment(&mut self, alignment: HorizontalAlignment) -> (r: &mut FramedTextBoxBuilder)
        ensures
            r@ == (FramedTextBoxSettings { alignment, ..old(self)@ }),
            final(self)@ == final(r)@,
    {
        self.alignment = alignment;
        self
    }

    /// Sets the gap between the frame and the text.
    pub fn frame_spacing(&mut self, frame_spacing: u32) -> (r: &mut FramedTextBoxBuilder)
        ensures
            r@ == (FramedTextBoxSettings { frame_thickness: frame_spacing, ..old(self)@ }),
            final(self)@ == final(r)@,
    {
        self.frame_thickness = frame_spacing;
        self
    }

    /// Sets the color of the frame's outline.
    pub fn frame_color(&mut self, frame_color: Rgb565) -> (r: &mut FramedTextBoxBuilder)
        ensures
            r@ == (FramedTextBoxSettings { frame_color, ..old(self)@ }),
            final(self)@ == final(r)@,
    {
        self.frame_color = frame_color;
        self
    }

    /// Sets the color of the text.
    pub fn txt_color(&mut self, txt_color: Rgb565) -> (r: &mut FramedTextBoxBuilder)
        ensures
            r@ == (FramedTextBoxSettings { txt_color, ..old(self)@ }),
            final(self)@ == final(r)@,
    {
        self.txt_color = txt_color;
        self
    }

    /// Sets the color that fills the frame.
    pub fn bg_color(&mut self, bg_color: Rgb565) -> (r: &mut FramedTextBoxBuilder)
        ensures
            r@ == (FramedTextBoxSettings { bg_color, ..old(self)@ }),
            final(self)@ == final(r)@,
    {
        self.bg_color = bg_color;
        self
    }

    /// A builder for a frame of the same size as `from`'s, placed at
    /// `anchor` of it, `spacing` pixels away.
    pub fn copy_relative_to(from: &FramedTextBox, anchor: FramedTextBoxAnchor, spacing: i32) -> (b: FramedTextBoxBuilder)
        requires
            from.frame.bounds_ok(),
            placement_ok(from.frame.bounds(), anchor, spacing, from.frame.bounds().size),
        ensures
            b@ == default_settings(placed_frame(from.frame.bounds(), anchor, spacing, from.frame.bounds().size)),
    {
        FramedTextBoxBuilder::new_relative_to(from, anchor, spacing, from.frame.bounding_box().size)
    }

    /// A builder for a frame of `size` placed at `anchor` of the area that
    /// `from`'s frame covers, `spacing` pixels away.
    pub fn new_relative_to(from: &FramedTextBox, anchor: FramedTextBoxAnchor, spacing: i32, size: Size) -> (b: FramedTextBoxBuilder)
        requires
            from.frame.bounds_ok(),
            placement_ok(from.frame.bounds(), anchor, spacing, size),
        ensures
            b@ == default_settings(placed_frame(from.frame.bounds(), anchor, spacing, size)),
            b@.frame.size == size,
            ({
                let bb = from.frame.bounds();
                match anchor {
                    FramedTextBoxAnchor::Left => b@.frame.top_left.x == bb.top_left.x - (size.width as i32) - spacing
                        && b@.frame.top_left.y == bb.top_left.y,
                    FramedTextBoxAnchor::Right => b@.frame.top_left.x == bb.top_left.x + (bb.size.width as i32) + spacing
                        && b@.frame.top_left.y == bb.top_left.y,
                    FramedTextBoxAnchor::Up => b@.frame.top_left.x == bb.top_left.x
                        && b@.frame.top_left.y == bb.top_left.y - spacing - (size.height as i32),
                    FramedTextBoxAnchor::Down => b@.frame.top_left.x == bb.top_left.x
                        && b@.frame.top_left.y == bb.top_left.y + spacing + (bb.size.height as i32),
                }
            }),
            b@.frame_thickness == 2,
            b@.frame_color == (Rgb565 { r: 31, g: 0, b: 0 }),
            b@.txt_color == (Rgb565 { r: 31, g: 63, b: 31 }),
            b@.bg_color == (Rgb565 { r: 0, g: 0, b: 0 }),
            b@.alignment == HorizontalAlignment::Left,
            b@.alignment_vertical == VerticalAlignment::Top,
    {
        let bb = from.frame.bounding_box();
        let frame = match anchor {
            FramedTextBoxAnchor::Left => Rectangle::new(
                Point::new(bb.top_left.x - size.width as i32 - spacing, bb.top_left.y),
                size,
            ),
            FramedTextBoxAnchor::Right => Rectangle::new(
                Point::new(bb.top_left.x + bb.size.width as i32 + spacing, bb.top_left.y),
                size,
            ),
            FramedTextBoxAnchor::Up => Rectangle::new(
                Point::new(bb.top_left.x, bb.top_left.y - spacing - size.height as i32),
                size,
            ),
            FramedTextBoxAnchor::Down => Rectangle::new(
                Point::new(bb.top_left.x, bb.top_left.y + spacing + bb.size.height as i32),
                size,
            ),
        };
        FramedTextBoxBuilder::new(frame)
    }

    /// The framed text box these settings describe, with empty text.
    pub fn build(self) -> (b: FramedTextBox)
        requires
            build_ok(self@),
        ensures
            is_built_from(b, self@),
            b.frame.primitive.contains_rect(b.text_box.bounds),
            b.frame.primitive == self@.frame,
            b.frame.style.stroke_color == Some(self@.frame_color),
            b.frame.style.fill_color == Some(self@.bg_color),
            b.frame.style.stroke_width == 1,
            b.frame.style.stroke_alignment == StrokeAlignment::Center,
            b.text_box.text@ == Seq::<char>::empty(),
            b.text_box.character_style.text_color == self@.txt_color,
            b.text_box.character_style.font.character_size == (Size { width: 10, height: 20 }),
            b.text_box.character_style.font.character_spacing == 0,
            b.text_box.style.alignment == self@.alignment,
            b.text_box.style.vertical_alignment == self@.alignment_vertical,
            b.text_box.style.paragraph_spacing == 6,
            b.text_box.bounds.top_left.x == self@.frame.top_left.x + self@.frame_thickness,
            b.text_box.bounds.top_left.y == self@.frame.top_left.y + self@.frame_thickness,
            b.text_box.bounds.size.width == self@.frame.size.width - 2 * self@.frame_thickness,
            b.text_box.bounds.size.height == self@.frame.size.height - 2 * self@.frame_thickness,
    {
        let character_style = MonoTextStyle { font: font_10x20(), text_color: self.txt_color };
        let textbox_style = TextBoxStyle {
            alignment: self.alignment,
            vertical_alignment: self.alignment_vertical,
            paragraph_spacing: PARAGRAPH_SPACING,
        };
        let frame_style = PrimitiveStyle {
            fill_color: Some(self.bg_color),
            stroke_color: Some(self.frame_color),
            stroke_width: FRAME_STROKE_WIDTH,
            stroke_alignment: StrokeAlignment::Center,
        };
        let text_field = Rectangle::new(
            Point::new(
                self.frame.top_left.x + self.frame_thickness as i32,
                self.frame.top_left.y + self.frame_thickness as i32,
            ),
            Size::new(
                self.frame.size.width - (self.frame_thickness * 2),
                self.frame.size.height - (self.frame_thickness * 2),
            ),
        );
        let text_box = TextBox {
            text: String::new(),
            bounds: text_field,
            character_style,
            style: textbox_style,
        };
        FramedTextBox {
            frame: StyledRectangle { primitive: self.frame, style: frame_style },
            text_box,
        }
    }
}


/// Placing a frame at one side of a rectangle and then placing a frame of
/// the rectangle's size at the opposite side of the new one, with the same
/// spacing, gives back the rectangle.
pub proof fn lemma_place_round_trip(r: Rectangle, anchor: FramedTextBoxAnchor, spacing: i32, size: Size)
    requires
        r.size.width <= i32::MAX,
        r.size.height <= i32::MAX,
        size.width <= i32::MAX,
        size.height <= i32::MAX,
        placement_ok(r, anchor, spacing, size),
        placement_ok(placed_frame(r, anchor, spacing, size), opposite(anchor), spacing, r.size),
    ensures
        placed_frame(placed_frame(r, anchor, spacing, size), opposite(anchor), spacing, r.size) == r,
{
}

/// A built box's frame covers exactly its rectangle: its one pixel stroke
/// lies on the rectangle's edge.
pub proof fn lemma_built_frame_bounds(b: FramedTextBox, s: FramedTextBoxSettings)
    requires
        is_built_from(b, s),
        fits_i32(s.frame.top_left.x + crate::style::center_offset(s.frame.size.width)),
        fits_i32(s.frame.top_left.y + crate::style::center_offset(s.frame.size.height)),
    ensures
        b.frame.bounds_ok(),
        b.frame.bounds() == s.frame,
{
    crate::style::lemma_thin_stroke_bounds(s.frame, FRAME_STROKE_WIDTH, StrokeAlignment::Center);
}

/// A box `b` built next to a built box `a` (at `anchor`, `spacing` pixels
/// away, any size) leads back to `a`: a builder placed at the opposite side
/// of `b` with the same spacing and `a`'s size has exactly `a`'s frame.
pub proof fn lemma_relative_round_trip(
    a: FramedTextBox,
    sa: FramedTextBoxSettings,
    anchor: FramedTextBoxAnchor,
    spacing: i32,
    size: Size,
    b: FramedTextBox,
)
    requires
        is_built_from(a, sa),
        a.frame.bounds_ok(),
        placement_ok(a.frame.bounds(), anchor, spacing, size),
        is_built_from(b, default_settings(placed_frame(a.frame.bounds(), anchor, spacing, size))),
        b.frame.bounds_ok(),
        placement_ok(b.frame.bounds(), opposite(anchor), spacing, sa.frame.size),
        sa.frame.size.width <= i32::MAX,
        sa.frame.size.height <= i32::MAX,
        size.width <= i32::MAX,
        size.height <= i32::MAX,
    ensures
        default_settings(placed_frame(b.frame.bounds(), opposite(anchor), spacing, sa.frame.size))
            == default_settings(sa.frame),
{
    let pa = placed_frame(a.frame.bounds(), anchor, spacing, size);
    assert(a.frame.bounds() == sa.frame) by {
        crate::style::lemma_thin_stroke_bounds(sa.frame, FRAME_STROKE_WIDTH, StrokeAlignment::Center);
    }
    assert(b.frame.bounds() == pa) by {
        crate::style::lemma_thin_stroke_bounds(pa, FRAME_STROKE_WIDTH, StrokeAlignment::Center);
    }
    lemma_place_round_trip(sa.frame, anchor, spacing, size);
}

/// A fresh builder holds a red frame two pixels away from white text on
/// black, aligned top left, whatever the frame.
pub proof fn lemma_default_settings_fields(frame: Rectangle)
    ensures
        default_settings(frame).frame == frame,
        default_settings(frame).frame_thickness == 2,
        default_settings(frame).frame_color == (Rgb565 { r: 31, g: 0, b: 0 }),
        default_settings(frame).txt_color == (Rgb565 { r: 31, g: 63, b: 31 }),
        default_settings(frame).bg_color == (Rgb565 { r: 0, g: 0, b: 0 }),
        default_settings(frame).alignment == HorizontalAlignment::Left,
        default_settings(frame).alignment_vertical == VerticalAlignment::Top,
{
}

/// A built box takes its colors and alignments from the settings: the text
/// in the text color, the outline in the frame color, the fill in the
/// background color, whatever the other settings are; its text field is the
/// frame shrunk by the thickness on every side.
pub proof fn lemma_built_box_takes_settings(b: FramedTextBox, s: FramedTextBoxSettings)
    requires
        is_built_from(b, s),
        build_ok(s),
    ensures
        b.text_box.character_style.text_color == s.txt_color,
        b.frame.style.stroke_color == Some(s.frame_color),
        b.frame.style.fill_color == Some(s.bg_color),
        b.frame.primitive == s.frame,
        b.text_box.style.alignment == s.alignment,
        b.text_box.style.vertical_alignment == s.alignment_vertical,
        b.text_box.bounds.top_left.x == s.frame.top_left.x + s.frame_thickness,
        b.text_box.bounds.top_left.y == s.frame.top_left.y + s.frame_thickness,
        b.text_box.bounds.size.width + 2 * s.frame_thickness == s.frame.size.width,
        b.text_box.bounds.size.height + 2 * s.frame_thickness == s.frame.size.height,
{
}

/// A frame placed at a side of `bb` keeps the given size and is exactly
/// `spacing` pixels away from `bb`: the gap between the facing edges equals
/// the spacing, and the other coordinate is `bb`'s.
pub proof fn lemma_placed_frame_gap(bb: Rectangle, anchor: FramedTextBoxAnchor, spacing: i32, size: Size)
    requires
        placement_ok(bb, anchor, spacing, size),
        bb.size.width <= i32::MAX,
        bb.size.height <= i32::MAX,
        size.width <= i32::MAX,
        size.height <= i32::MAX,
    ensures
        placed_frame(bb, anchor, spacing, size).size == size,
        ({
            let f = placed_frame(bb, anchor, spacing, size);
            match anchor {
                FramedTextBoxAnchor::Left => bb.top_left.x - (f.top_left.x + size.width) == spacing
                    && f.top_left.y == bb.top_left.y,
                FramedTextBoxAnchor::Right => f.top_left.x - (bb.top_left.x + bb.size.width) == spacing
                    && f.top_left.y == bb.top_left.y,
                FramedTextBoxAnchor::Up => bb.top_left.y - (f.top_left.y + size.height) == spacing
                    && f.top_left.x == bb.top_left.x,
                FramedTextBoxAnchor::Down => f.top_left.y - (bb.top_left.y + bb.size.height) == spacing
                    && f.top_left.x == bb.top_left.x,
            }
        }),
{
}

} // verus!
