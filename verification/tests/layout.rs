use embedded_graphics::prelude::Dimensions;
use embedded_graphics::primitives::Primitive;
use tdisplay::framed::{FramedTextBox, FramedTextBoxAnchor, FramedTextBoxBuilder, TextBox};
use tdisplay::geometry::{screen_bounds, Point, Rectangle, Size, SCREEN_HIGHT, SCREEN_WIDTH};
use tdisplay::style::{
    black, font_10x20, red, white, HorizontalAlignment, MonoTextStyle, PrimitiveStyle, Rgb565,
    StrokeAlignment, StyledRectangle, TextBoxStyle, VerticalAlignment,
};

fn rect(x: i32, y: i32, w: u32, h: u32) -> Rectangle {
    Rectangle::new(Point::new(x, y), Size::new(w, h))
}

fn boxed(frame: Rectangle) -> FramedTextBox {
    FramedTextBoxBuilder::new(frame).build()
}

#[test]
fn screen_is_landscape() {
    assert_eq!(SCREEN_WIDTH, 320);
    assert_eq!(SCREEN_HIGHT, 170);
    assert_eq!(screen_bounds(), rect(0, 0, 320, 170));
}

#[test]
fn named_colors_come_from_the_color_type() {
    assert_eq!(red(), Rgb565 { r: 31, g: 0, b: 0 });
    assert_eq!(white(), Rgb565 { r: 31, g: 63, b: 31 });
    assert_eq!(black(), Rgb565 { r: 0, g: 0, b: 0 });
}

#[test]
fn font_is_ten_by_twenty() {
    let f = font_10x20();
    assert_eq!(f.character_size, Size::new(10, 20));
    assert_eq!(f.character_spacing, 0);
}

#[test]
fn default_build_uses_default_settings() {
    let b = boxed(rect(0, 0, 200, 170));
    assert_eq!(b.frame.primitive, rect(0, 0, 200, 170));
    assert_eq!(
        b.frame.style,
        PrimitiveStyle {
            fill_color: Some(black()),
            stroke_color: Some(red()),
            stroke_width: 1,
            stroke_alignment: StrokeAlignment::Center,
        }
    );
    assert_eq!(b.text_box.text, "");
    assert_eq!(b.text_box.bounds, rect(2, 2, 196, 166));
    assert_eq!(b.text_box.character_style, MonoTextStyle { font: font_10x20(), text_color: white() });
    assert_eq!(
        b.text_box.style,
        TextBoxStyle {
            alignment: HorizontalAlignment::Left,
            vertical_alignment: VerticalAlignment::Top,
            paragraph_spacing: 6,
        }
    );
}

#[test]
fn setters_change_the_built_box() {
    let mut builder = FramedTextBoxBuilder::new(rect(-5, 7, 50, 40));
    let green = Rgb565 { r: 0, g: 63, b: 0 };
    let blue = Rgb565 { r: 0, g: 0, b: 31 };
    builder
        .alignment(HorizontalAlignment::Right)
        .alignment_vertical(VerticalAlignment::Bottom)
        .frame_spacing(5)
        .frame_color(green)
        .txt_color(blue)
        .bg_color(white());
    let b = builder.build();
    assert_eq!(b.frame.style.stroke_color, Some(green));
    assert_eq!(b.frame.style.fill_color, Some(white()));
    assert_eq!(b.text_box.character_style.text_color, blue);
    assert_eq!(b.text_box.style.alignment, HorizontalAlignment::Right);
    assert_eq!(b.text_box.style.vertical_alignment, VerticalAlignment::Bottom);
    assert_eq!(b.text_box.bounds, rect(0, 12, 40, 30));
}

#[test]
fn zero_thickness_keeps_the_whole_frame() {
    let mut builder = FramedTextBoxBuilder::new(rect(3, 4, 10, 10));
    builder.frame_spacing(0);
    assert_eq!(builder.build().text_box.bounds, rect(3, 4, 10, 10));
}

#[test]
fn thickness_of_half_the_frame_leaves_an_empty_field() {
    let mut builder = FramedTextBoxBuilder::new(rect(0, 0, 10, 20));
    builder.frame_spacing(5);
    assert_eq!(builder.build().text_box.bounds, rect(5, 5, 0, 10));
}

#[test]
fn places_frames_on_each_side() {
    let a = boxed(rect(100, 50, 40, 30));
    let size = Size::new(20, 10);
    let left = FramedTextBoxBuilder::new_relative_to(&a, FramedTextBoxAnchor::Left, 4, size).build();
    assert_eq!(left.frame.primitive, rect(76, 50, 20, 10));
    let right = FramedTextBoxBuilder::new_relative_to(&a, FramedTextBoxAnchor::Right, 4, size).build();
    assert_eq!(right.frame.primitive, rect(144, 50, 20, 10));
    let up = FramedTextBoxBuilder::new_relative_to(&a, FramedTextBoxAnchor::Up, 4, size).build();
    assert_eq!(up.frame.primitive, rect(100, 36, 20, 10));
    let down = FramedTextBoxBuilder::new_relative_to(&a, FramedTextBoxAnchor::Down, 4, size).build();
    assert_eq!(down.frame.primitive, rect(100, 84, 20, 10));
}

#[test]
fn negative_spacing_overlaps() {
    let a = boxed(rect(0, 0, 10, 10));
    let b = FramedTextBoxBuilder::new_relative_to(&a, FramedTextBoxAnchor::Right, -3, Size::new(10, 10)).build();
    assert_eq!(b.frame.primitive, rect(7, 0, 10, 10));
}

#[test]
fn copy_keeps_the_size() {
    let a = boxed(rect(10, 10, 60, 25));
    let b = FramedTextBoxBuilder::copy_relative_to(&a, FramedTextBoxAnchor::Down, 2).build();
    assert_eq!(b.frame.primitive, rect(10, 37, 60, 25));
    let c = FramedTextBoxBuilder::copy_relative_to(&b, FramedTextBoxAnchor::Right, 0).build();
    assert_eq!(c.frame.primitive, rect(70, 37, 60, 25));
}

#[test]
fn relative_placement_round_trips() {
    let a = boxed(rect(50, 60, 40, 30));
    for anchor in [
        FramedTextBoxAnchor::Left,
        FramedTextBoxAnchor::Right,
        FramedTextBoxAnchor::Up,
        FramedTextBoxAnchor::Down,
    ] {
        let back = match anchor {
            FramedTextBoxAnchor::Left => FramedTextBoxAnchor::Right,
            FramedTextBoxAnchor::Right => FramedTextBoxAnchor::Left,
            FramedTextBoxAnchor::Up => FramedTextBoxAnchor::Down,
            FramedTextBoxAnchor::Down => FramedTextBoxAnchor::Up,
        };
        let b = FramedTextBoxBuilder::new_relative_to(&a, anchor, 7, Size::new(13, 9)).build();
        let c = FramedTextBoxBuilder::new_relative_to(&b, back, 7, Size::new(40, 30)).build();
        assert_eq!(c.frame.primitive, a.frame.primitive);
    }
}

#[test]
fn placement_follows_the_drawn_area_of_a_thick_frame() {
    let a = FramedTextBox {
        frame: StyledRectangle {
            primitive: rect(10, 20, 30, 40),
            style: PrimitiveStyle {
                fill_color: None,
                stroke_color: Some(red()),
                stroke_width: 5,
                stroke_alignment: StrokeAlignment::Center,
            },
        },
        text_box: TextBox {
            text: String::new(),
            bounds: rect(10, 20, 30, 40),
            character_style: MonoTextStyle { font: font_10x20(), text_color: white() },
            style: TextBoxStyle {
                alignment: HorizontalAlignment::Left,
                vertical_alignment: VerticalAlignment::Top,
                paragraph_spacing: 0,
            },
        },
    };
    assert_eq!(a.frame.bounding_box(), rect(8, 18, 34, 44));
    let b = FramedTextBoxBuilder::copy_relative_to(&a, FramedTextBoxAnchor::Right, 1).build();
    assert_eq!(b.frame.primitive, rect(43, 18, 34, 44));
}

fn eg_bounds(r: Rectangle, width: u32, alignment: StrokeAlignment) -> Rectangle {
    let a = match alignment {
        StrokeAlignment::Inside => embedded_graphics::primitives::StrokeAlignment::Inside,
        StrokeAlignment::Center => embedded_graphics::primitives::StrokeAlignment::Center,
        StrokeAlignment::Outside => embedded_graphics::primitives::StrokeAlignment::Outside,
    };
    let style = embedded_graphics::primitives::PrimitiveStyleBuilder::<embedded_graphics::pixelcolor::Rgb565>::new()
        .stroke_width(width)
        .stroke_alignment(a)
        .build();
    let bb = embedded_graphics::primitives::Rectangle::new(
        embedded_graphics::prelude::Point::new(r.top_left.x, r.top_left.y),
        embedded_graphics::prelude::Size::new(r.size.width, r.size.height),
    )
    .into_styled(style)
    .bounding_box();
    rect(bb.top_left.x, bb.top_left.y, bb.size.width, bb.size.height)
}

#[test]
fn styled_bounds_agree_with_embedded_graphics() {
    for (r, width, alignment, expected) in [
        (rect(10, 20, 30, 40), 1, StrokeAlignment::Center, rect(10, 20, 30, 40)),
        (rect(10, 20, 30, 40), 5, StrokeAlignment::Center, rect(8, 18, 34, 44)),
        (rect(10, 20, 30, 40), 3, StrokeAlignment::Outside, rect(7, 17, 36, 46)),
        (rect(10, 20, 30, 40), 9, StrokeAlignment::Inside, rect(10, 20, 30, 40)),
        (rect(-4, 0, 0, 1), 4, StrokeAlignment::Outside, rect(-7, -4, 8, 9)),
    ] {
        let s = StyledRectangle {
            primitive: r,
            style: PrimitiveStyle { fill_color: None, stroke_color: None, stroke_width: width, stroke_alignment: alignment },
        };
        assert_eq!(s.bounding_box(), expected);
        assert_eq!(s.bounding_box(), eg_bounds(r, width, alignment));
    }
}
