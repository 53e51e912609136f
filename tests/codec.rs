use svg_scene::codec::{
    decode_command, decode_point, decode_rotate, decode_shape, decode_svg, encode_point,
    encode_rotate, encode_shape, encode_svg, DecodeError,
};
use svg_scene::json::Json;
use svg_scene::shapes::{
    Ellipse, Group, Line, Path, PathCommand, Polygon, Polyline, Rectangle, Shape, Svg, Viewport,
};
use svg_scene::styles::{Color, Rotate, Styles};
use svg_scene::utils::Point;

fn p(x: i32, y: i32) -> Point {
    Point { x, y }
}

fn obj(entries: Vec<(&str, Json)>) -> Json {
    Json::Object(entries.into_iter().map(|(k, v)| (k.to_string(), v)).collect())
}

fn rich_scene() -> Svg {
    let styled = Styles {
        translate: p(-3, 4),
        rotate: Rotate::new_circular(359),
        fill: Color { red: 255, green: 0, blue: 7, transparency: 128 },
        outline: Color { red: 1, green: 2, blue: 3, transparency: 4 },
    };
    let inner = Shape::new_group(Group(vec![
        Box::new(Shape::new_polygon(Polygon(vec![p(0, 0), p(5, 5), p(i32::MIN, i32::MAX)]))),
        Box::new(Shape::new_group(Group::new()).with_styles(Styles { rotate: Rotate::Flipx, ..Styles::new() })),
    ]));
    let path = Path(vec![
        PathCommand::MoveTo(p(1, 1)),
        PathCommand::LineTo(p(2, 2)),
        PathCommand::HorizontalLineTo(-9),
        PathCommand::VerticalLineTo(9),
        PathCommand::CubicCurveTo(p(1, 2), p(3, 4), p(5, 6)),
        PathCommand::CubicCurveToShorthand(p(7, 8), p(9, 10)),
        PathCommand::QuadraticCurveTo(p(11, 12), p(13, 14)),
        PathCommand::QuadraticCurveToShorthand(p(15, 16)),
        PathCommand::EndOfPath,
    ]);
    Svg {
        viewport: Viewport { from: p(-10, -10), to: p(640, 480) },
        shapes: vec![
            Box::new(Shape::new_ellipse(Ellipse { origin: p(1, 2), radius_x: u32::MAX, radius_y: 0 }).with_styles(styled)),
            Box::new(Shape::new_rectangle(Rectangle { origin: p(0, 0), width: 3, height: 4 })),
            Box::new(Shape::new_line(Line { from: p(0, 0), to: p(-1, -1) }).with_styles(Styles { rotate: Rotate::Flipy, ..Styles::new() })),
            Box::new(Shape::new_polyline(Polyline(vec![p(1, 1)]))),
            Box::new(Shape::new_path(path)),
            Box::new(Shape::new_group(Group(vec![Box::new(inner)]))),
        ],
    }
}

#[test]
fn scene_round_trip() {
    let svg = rich_scene();
    let encoded = encode_svg(&svg);
    assert_eq!(decode_svg(&encoded), Ok(svg));
}

#[test]
fn empty_scene_round_trip() {
    let svg = Svg::new();
    let encoded = encode_svg(&svg);
    assert_eq!(
        encoded,
        obj(vec![
            ("viewport", obj(vec![("from", encode_point(&p(0, 0))), ("to", encode_point(&p(0, 0)))])),
            ("shapes", Json::Array(vec![])),
        ])
    );
    assert_eq!(decode_svg(&encoded), Ok(Svg::new()));
}

#[test]
fn point_encoding_is_field_tagged() {
    assert_eq!(encode_point(&p(3, -4)), obj(vec![("x", Json::Int(3)), ("y", Json::Int(-4))]));
}

#[test]
fn rotate_encoding() {
    assert_eq!(encode_rotate(&Rotate::Flipx), Json::Str("Flipx".to_string()));
    assert_eq!(encode_rotate(&Rotate::Circular(30)), obj(vec![("Circular", Json::Int(30))]));
}

#[test]
fn field_order_does_not_matter() {
    let j = obj(vec![("extra", Json::Null), ("y", Json::Int(2)), ("x", Json::Int(1))]);
    assert_eq!(decode_point(&j), Ok(p(1, 2)));
}

#[test]
fn missing_field() {
    let j = obj(vec![("x", Json::Int(1))]);
    assert_eq!(decode_point(&j), Err(DecodeError::MissingField));
}

#[test]
fn wrong_kind() {
    assert_eq!(decode_point(&Json::Array(vec![])), Err(DecodeError::WrongKind));
    let j = obj(vec![("x", Json::Str("1".to_string())), ("y", Json::Int(2))]);
    assert_eq!(decode_point(&j), Err(DecodeError::WrongKind));
    let j = obj(vec![("x", Json::OtherNumber), ("y", Json::Int(2))]);
    assert_eq!(decode_point(&j), Err(DecodeError::WrongKind));
}

#[test]
fn out_of_range_coordinate() {
    let j = obj(vec![("x", Json::Int(2147483648)), ("y", Json::Int(0))]);
    assert_eq!(decode_point(&j), Err(DecodeError::OutOfRange));
}

#[test]
fn negative_radius_is_rejected() {
    let mut j = encode_shape(&Shape::new_ellipse(Ellipse::new()));
    if let Json::Object(es) = &mut j {
        if let Json::Object(tagged) = &mut es[0].1 {
            if let Json::Object(fields) = &mut tagged[0].1 {
                fields[1].1 = Json::Int(-1);
            }
        }
    }
    assert_eq!(decode_shape(&j), Err(DecodeError::OutOfRange));
}

#[test]
fn degree_out_of_range() {
    let j = obj(vec![("Circular", Json::Int(360))]);
    assert_eq!(decode_rotate(&j), Err(DecodeError::OutOfRange));
    let j = obj(vec![("Circular", Json::Int(359))]);
    assert_eq!(decode_rotate(&j), Ok(Rotate::Circular(359)));
}

#[test]
fn unknown_variants() {
    assert_eq!(decode_rotate(&Json::Str("Spin".to_string())), Err(DecodeError::UnknownVariant));
    assert_eq!(decode_command(&obj(vec![("ArcTo", Json::Null)])), Err(DecodeError::UnknownVariant));
    assert_eq!(
        decode_command(&obj(vec![("MoveTo", encode_point(&p(0, 0))), ("LineTo", encode_point(&p(0, 0)))])),
        Err(DecodeError::UnknownVariant)
    );
}

#[test]
fn tuple_variant_needs_its_arity() {
    let j = obj(vec![("CubicCurveTo", Json::Array(vec![encode_point(&p(0, 0)), encode_point(&p(1, 1))]))]);
    assert_eq!(decode_command(&j), Err(DecodeError::WrongKind));
}

#[test]
fn first_bad_shape_gives_the_error() {
    let good = encode_shape(&Shape::new_line(Line::new()));
    let j = obj(vec![
        ("viewport", obj(vec![("from", encode_point(&p(0, 0))), ("to", encode_point(&p(1, 1)))])),
        ("shapes", Json::Array(vec![good, Json::Bool(true), obj(vec![])])),
    ]);
    assert_eq!(decode_svg(&j), Err(DecodeError::WrongKind));
}

#[test]
fn shapes_must_be_an_array() {
    let j = obj(vec![
        ("viewport", obj(vec![("from", encode_point(&p(0, 0))), ("to", encode_point(&p(1, 1)))])),
        ("shapes", Json::Null),
    ]);
    assert_eq!(decode_svg(&j), Err(DecodeError::WrongKind));
}
