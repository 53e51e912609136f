use vstd::prelude::*;

use crate::json::{
    entries_view, field, get_field, json_view, json_views, lemma_entries_view, lemma_json_views, lemma_object2,
    lemma_object3, lemma_object4, Json, JsonView,
};
use crate::shapes::{
    lemma_svg_wf_view, shape_type_view, shape_view, shape_view_wf, shapes_view, Ellipse, Line, PathCommand,
    Group, Path, Polygon, Polyline, Rectangle, Shape, ShapeType, ShapeTypeView, ShapeView, Svg,
    SvgView, Viewport,
};
use crate::styles::{Color, Rotate, Styles};
use crate::utils::Point;

verus! {

/// Why a structured value is no encoding of a scene.
#[derive(Clone, Copy, Debug, PartialEq, Eq, Structural)]
pub enum DecodeError {
    /// A value of another kind than the one the schema asks for.
    WrongKind,
    /// An object lacks a field that the schema requires.
    MissingField,
    /// A variant tag that names no variant, or a variant object that does
    /// not hold exactly one entry.
    UnknownVariant,
    /// An integer outside the range of its field.
    OutOfRange,
}

/// The bounds of the integer fields of the schema.
pub const I32_LOW: i64 = -2147483648;

pub const I32_HIGH: i64 = 2147483647;

pub const U32_HIGH: i64 = 4294967295;

pub const U8_HIGH: i64 = 255;

/// The largest degree of a circular rotation.
pub const DEGREE_HIGH: i64 = 359;

// ----- encoding -----
/// An object with a single entry: how a variant with a payload is tagged.
pub open spec fn tagged(tag: Seq<char>, payload: JsonView) -> JsonView {
    JsonView::Object(seq![(tag, payload)])
}

pub open spec fn point_json(p: Point) -> JsonView {
    JsonView::Object(seq![("x"@, JsonView::Int(p.x as i64)), ("y"@, JsonView::Int(p.y as i64))])
}

pub open spec fn color_json(c: Color) -> JsonView {
    JsonView::Object(
        seq![
            ("red"@, JsonView::Int(c.red as i64)),
            ("green"@, JsonView::Int(c.green as i64)),
            ("blue"@, JsonView::Int(c.blue as i64)),
            ("transparency"@, JsonView::Int(c.transparency as i64)),
        ],
    )
}

pub open spec fn rotate_json(r: Rotate) -> JsonView {
    match r {
        Rotate::Circular(d) => tagged("Circular"@, JsonView::Int(d as i64)),
        Rotate::Flipx => JsonView::Str("Flipx"@),
        Rotate::Flipy => JsonView::Str("Flipy"@),
    }
}

pub open spec fn styles_json(s: Styles) -> JsonView {
    JsonView::Object(
        seq![
            ("translate"@, point_json(s.translate)),
            ("rotate"@, rotate_json(s.rotate)),
            ("fill"@, color_json(s.fill)),
            ("outline"@, color_json(s.outline)),
        ],
    )
}

pub open spec fn ellipse_json(e: Ellipse) -> JsonView {
    JsonView::Object(
        seq![
            ("origin"@, point_json(e.origin)),
            ("radius_x"@, JsonView::Int(e.radius_x as i64)),
            ("radius_y"@, JsonView::Int(e.radius_y as i64)),
        ],
    )
}

pub open spec fn rectangle_json(r: Rectangle) -> JsonView {
    JsonView::Object(
        seq![
            ("origin"@, point_json(r.origin)),
            ("width"@, JsonView::Int(r.width as i64)),
            ("height"@, JsonView::Int(r.height as i64)),
        ],
    )
}

pub open spec fn line_json(l: Line) -> JsonView {
    JsonView::Object(seq![("from"@, point_json(l.from)), ("to"@, point_json(l.to))])
}

pub open spec fn points_json(ps: Seq<Point>) -> JsonView {
    JsonView::Array(ps.map_values(|p: Point| point_json(p)))
}

pub open spec fn command_json(c: PathCommand) -> JsonView {
    match c {
        PathCommand::MoveTo(p) => tagged("MoveTo"@, point_json(p)),
        PathCommand::LineTo(p) => tagged("LineTo"@, point_json(p)),
        PathCommand::HorizontalLineTo(x) => tagged("HorizontalLineTo"@, JsonView::Int(x as i64)),
        PathCommand::VerticalLineTo(y) => tagged("VerticalLineTo"@, JsonView::Int(y as i64)),
        PathCommand::CubicCurveTo(a, b, c) => tagged(
            "CubicCurveTo"@,
            JsonView::Array(seq![point_json(a), point_json(b), point_json(c)]),
        ),
        PathCommand::CubicCurveToShorthand(a, b) => tagged(
            "CubicCurveToShorthand"@,
            JsonView::Array(seq![point_json(a), point_json(b)]),
        ),
        PathCommand::QuadraticCurveTo(a, b) => tagged(
            "QuadraticCurveTo"@,
            JsonView::Array(seq![point_json(a), point_json(b)]),
        ),
        PathCommand::QuadraticCurveToShorthand(a) => tagged(
            "QuadraticCurveToShorthand"@,
            point_json(a),
        ),
        PathCommand::EndOfPath => JsonView::Str("EndOfPath"@),
    }
}

pub open spec fn commands_json(cs: Seq<PathCommand>) -> JsonView {
    JsonView::Array(cs.map_values(|c: PathCommand| command_json(c)))
}

pub open spec fn shape_type_json(t: ShapeTypeView) -> JsonView
    decreases t,
{
    match t {
        ShapeTypeView::Ellipse(e) => tagged("Ellipse"@, ellipse_json(e)),
        ShapeTypeView::Rectangle(r) => tagged("Rectangle"@, rectangle_json(r)),
        ShapeTypeView::Line(l) => tagged("Line"@, line_json(l)),
        ShapeTypeView::Polyline(ps) => tagged("Polyline"@, points_json(ps)),
        ShapeTypeView::Polygon(ps) => tagged("Polygon"@, points_json(ps)),
        ShapeTypeView::Group(g) => tagged("Group"@, JsonView::Array(shapes_json(g))),
        ShapeTypeView::Path(cs) => tagged("Path"@, commands_json(cs)),
    }
}

pub open spec fn shape_json(s: ShapeView) -> JsonView
    decreases s,
{
    JsonView::Object(seq![("shape"@, shape_type_json(s.shape)), ("styles"@, styles_json(s.styles))])
}

pub open spec fn shapes_json(v: Seq<ShapeView>) -> Seq<JsonView>
    decreases v,
{
    if v.len() == 0 {
        Seq::empty()
    } else {
        shapes_json(v.subrange(0, v.len() - 1)).push(shape_json(v[v.len() - 1]))
    }
}

pub open spec fn viewport_json(v: Viewport) -> JsonView {
    JsonView::Object(seq![("from"@, point_json(v.from)), ("to"@, point_json(v.to))])
}

/// The structured value that persists a scene.
pub open spec fn svg_json(s: SvgView) -> JsonView {
    JsonView::Object(
        seq![
            ("viewport"@, viewport_json(s.viewport)),
            ("shapes"@, JsonView::Array(shapes_json(s.shapes))),
        ],
    )
}

// ----- decoding -----
pub open spec fn field_of(es: Seq<(Seq<char>, JsonView)>, key: Seq<char>) -> Result<
    JsonView,
    DecodeError,
> {
    match field(es, key) {
        Some(v) => Ok(v),
        None => Err(DecodeError::MissingField),
    }
}

pub open spec fn int_of(j: JsonView, lo: i64, hi: i64) -> Result<i64, DecodeError> {
    match j {
        JsonView::Int(i) => if lo <= i && i <= hi {
            Ok(i)
        } else {
            Err(DecodeError::OutOfRange)
        },
        _ => Err(DecodeError::WrongKind),
    }
}

pub open spec fn int_field(es: Seq<(Seq<char>, JsonView)>, key: Seq<char>, lo: i64, hi: i64) -> Result<
    i64,
    DecodeError,
> {
    match field_of(es, key) {
        Ok(v) => int_of(v, lo, hi),
        Err(e) => Err(e),
    }
}

pub open spec fn point_of(j: JsonView) -> Result<Point, DecodeError> {
    match j {
        JsonView::Object(es) => match int_field(es, "x"@, I32_LOW, I32_HIGH) {
            Err(e) => Err(e),
            Ok(x) => match int_field(es, "y"@, I32_LOW, I32_HIGH) {
                Err(e) => Err(e),
                Ok(y) => Ok(Point { x: x as i32, y: y as i32 }),
            },
        },
        _ => Err(DecodeError::WrongKind),
    }
}

pub open spec fn point_field(es: Seq<(Seq<char>, JsonView)>, key: Seq<char>) -> Result<
    Point,
    DecodeError,
> {
    match field_of(es, key) {
        Ok(v) => point_of(v),
        Err(e) => Err(e),
    }
}

pub open spec fn color_of(j: JsonView) -> Result<Color, DecodeError> {
    match j {
        JsonView::Object(es) => match int_field(es, "red"@, 0, U8_HIGH) {
            Err(e) => Err(e),
            Ok(r) => match int_field(es, "green"@, 0, U8_HIGH) {
                Err(e) => Err(e),
                Ok(g) => match int_field(es, "blue"@, 0, U8_HIGH) {
                    Err(e) => Err(e),
                    Ok(b) => match int_field(es, "transparency"@, 0, U8_HIGH) {
                        Err(e) => Err(e),
                        Ok(t) => Ok(
                            Color { red: r as u8, green: g as u8, blue: b as u8, transparency: t as u8 },
                        ),
                    },
                },
            },
        },
        _ => Err(DecodeError::WrongKind),
    }
}

pub open spec fn color_field(es: Seq<(Seq<char>, JsonView)>, key: Seq<char>) -> Result<
    Color,
    DecodeError,
> {
    match field_of(es, key) {
        Ok(v) => color_of(v),
        Err(e) => Err(e),
    }
}

/// A rotation: the degree of a circular one must lie in `[0, 360)`.
pub open spec fn rotate_of(j: JsonView) -> Result<Rotate, DecodeError> {
    match j {
        JsonView::Str(s) => if s == "Flipx"@ {
            Ok(Rotate::Flipx)
        } else if s == "Flipy"@ {
            Ok(Rotate::Flipy)
        } else {
            Err(DecodeError::UnknownVariant)
        },
        JsonView::Object(es) => if es.len() == 1 && es[0].0 == "Circular"@ {
            match int_of(es[0].1, 0, DEGREE_HIGH) {
                Err(e) => Err(e),
                Ok(d) => Ok(Rotate::Circular(d as u16)),
            }
        } else {
            Err(DecodeError::UnknownVariant)
        },
        _ => Err(DecodeError::WrongKind),
    }
}

pub open spec fn styles_of(j: JsonView) -> Result<Styles, DecodeError> {
    match j {
        JsonView::Object(es) => match point_field(es, "translate"@) {
            Err(e) => Err(e),
            Ok(translate) => match field_of(es, "rotate"@) {
                Err(e) => Err(e),
                Ok(rj) => match rotate_of(rj) {
                    Err(e) => Err(e),
                    Ok(rotate) => match color_field(es, "fill"@) {
                        Err(e) => Err(e),
                        Ok(fill) => match color_field(es, "outline"@) {
                            Err(e) => Err(e),
                            Ok(outline) => Ok(Styles { translate, rotate, fill, outline }),
                        },
                    },
                },
            },
        },
        _ => Err(DecodeError::WrongKind),
    }
}

pub open spec fn ellipse_of(j: JsonView) -> Result<Ellipse, DecodeError> {
    match j {
        JsonView::Object(es) => match point_field(es, "origin"@) {
            Err(e) => Err(e),
            Ok(origin) => match int_field(es, "radius_x"@, 0, U32_HIGH) {
                Err(e) => Err(e),
                Ok(rx) => match int_field(es, "radius_y"@, 0, U32_HIGH) {
                    Err(e) => Err(e),
                    Ok(ry) => Ok(Ellipse { origin, radius_x: rx as u32, radius_y: ry as u32 }),
                },
            },
        },
        _ => Err(DecodeError::WrongKind),
    }
}

pub open spec fn rectangle_of(j: JsonView) -> Result<Rectangle, DecodeError> {
    match j {
        JsonView::Object(es) => match point_field(es, "origin"@) {
            Err(e) => Err(e),
            Ok(origin) => match int_field(es, "width"@, 0, U32_HIGH) {
                Err(e) => Err(e),
                Ok(w) => match int_field(es, "height"@, 0, U32_HIGH) {
                    Err(e) => Err(e),
                    Ok(h) => Ok(Rectangle { origin, width: w as u32, height: h as u32 }),
                },
            },
        },
        _ => Err(DecodeError::WrongKind),
    }
}

pub open spec fn line_of(j: JsonView) -> Result<Line, DecodeError> {
    match j {
        JsonView::Object(es) => match point_field(es, "from"@) {
            Err(e) => Err(e),
            Ok(from) => match point_field(es, "to"@) {
                Err(e) => Err(e),
                Ok(to) => Ok(Line { from, to }),
            },
        },
        _ => Err(DecodeError::WrongKind),
    }
}

pub open spec fn viewport_of(j: JsonView) -> Result<Viewport, DecodeError> {
    match j {
        JsonView::Object(es) => match point_field(es, "from"@) {
            Err(e) => Err(e),
            Ok(from) => match point_field(es, "to"@) {
                Err(e) => Err(e),
                Ok(to) => Ok(Viewport { from, to }),
            },
        },
        _ => Err(DecodeError::WrongKind),
    }
}

/// The points of an array, in order; the first element that is no point
/// gives the error.
pub open spec fn points_of(items: Seq<JsonView>) -> Result<Seq<Point>, DecodeError>
    decreases items.len(),
{
    if items.len() == 0 {
        Ok(Seq::empty())
    } else {
        match points_of(items.subrange(0, items.len() - 1)) {
            Err(e) => Err(e),
            Ok(ps) => match point_of(items[items.len() - 1]) {
                Err(e) => Err(e),
                Ok(p) => Ok(ps.push(p)),
            },
        }
    }
}

/// The payload of a variant that carries `n` points, as an array of them.
pub open spec fn point_tuple_of(j: JsonView, n: nat) -> Result<Seq<Point>, DecodeError> {
    match j {
        JsonView::Array(items) => if items.len() == n {
            points_of(items)
        } else {
            Err(DecodeError::WrongKind)
        },
        _ => Err(DecodeError::WrongKind),
    }
}

pub open spec fn command_of(j: JsonView) -> Result<PathCommand, DecodeError> {
    match j {
        JsonView::Str(s) => if s == "EndOfPath"@ {
            Ok(PathCommand::EndOfPath)
        } else {
            Err(DecodeError::UnknownVariant)
        },
        JsonView::Object(es) => if es.len() != 1 {
            Err(DecodeError::UnknownVariant)
        } else {
            let tag = es[0].0;
            let v = es[0].1;
            if tag == "MoveTo"@ {
                match point_of(v) {
                    Err(e) => Err(e),
                    Ok(p) => Ok(PathCommand::MoveTo(p)),
                }
            } else if tag == "LineTo"@ {
                match point_of(v) {
                    Err(e) => Err(e),
                    Ok(p) => Ok(PathCommand::LineTo(p)),
                }
            } else if tag == "HorizontalLineTo"@ {
                match int_of(v, I32_LOW, I32_HIGH) {
                    Err(e) => Err(e),
                    Ok(x) => Ok(PathCommand::HorizontalLineTo(x as i32)),
                }
            } else if tag == "VerticalLineTo"@ {
                match int_of(v, I32_LOW, I32_HIGH) {
                    Err(e) => Err(e),
                    Ok(y) => Ok(PathCommand::VerticalLineTo(y as i32)),
                }
            } else if tag == "CubicCurveTo"@ {
                match point_tuple_of(v, 3) {
                    Err(e) => Err(e),
                    Ok(ps) => Ok(PathCommand::CubicCurveTo(ps[0], ps[1], ps[2])),
                }
            } else if tag == "CubicCurveToShorthand"@ {
                match point_tuple_of(v, 2) {
                    Err(e) => Err(e),
                    Ok(ps) => Ok(PathCommand::CubicCurveToShorthand(ps[0], ps[1])),
                }
            } else if tag == "QuadraticCurveTo"@ {
                match point_tuple_of(v, 2) {
                    Err(e) => Err(e),
                    Ok(ps) => Ok(PathCommand::QuadraticCurveTo(ps[0], ps[1])),
                }
            } else if tag == "QuadraticCurveToShorthand"@ {
                match point_of(v) {
                    Err(e) => Err(e),
                    Ok(p) => Ok(PathCommand::QuadraticCurveToShorthand(p)),
                }
            } else {
                Err(DecodeError::UnknownVariant)
            }
        },
        _ => Err(DecodeError::WrongKind),
    }
}

/// The commands of an array, in order; the first element that is no
/// command gives the error.
pub open spec fn commands_of(items: Seq<JsonView>) -> Result<Seq<PathCommand>, DecodeError>
    decreases items.len(),
{
    if items.len() == 0 {
        Ok(Seq::empty())
    } else {
        match commands_of(items.subrange(0, items.len() - 1)) {
            Err(e) => Err(e),
            Ok(cs) => match command_of(items[items.len() - 1]) {
                Err(e) => Err(e),
                Ok(c) => Ok(cs.push(c)),
            },
        }
    }
}

/// A value found by `field` lies inside the entries it was found in.
pub proof fn lemma_field_decreases(es: Seq<(Seq<char>, JsonView)>, key: Seq<char>)
    ensures
        field(es, key) is Some ==> decreases_to!(es => field(es, key)->Some_0),
    decreases es.len(),
{
    if es.len() > 0 {
        if es[0].0 != key {
            let rest = es.subrange(1, es.len() as int);
            lemma_field_decreases(rest, key);
            assert(decreases_to!(es => rest));
        } else {
            assert(decreases_to!(es => es[0]));
        }
    }
}

pub open spec fn shape_type_of(j: JsonView) -> Result<ShapeTypeView, DecodeError>
    decreases j,
{
    match j {
        JsonView::Object(es) => if es.len() != 1 {
            Err(DecodeError::UnknownVariant)
        } else {
            let tag = es[0].0;
            let v = es[0].1;
            if tag == "Ellipse"@ {
                match ellipse_of(v) {
                    Err(e) => Err(e),
                    Ok(x) => Ok(ShapeTypeView::Ellipse(x)),
                }
            } else if tag == "Rectangle"@ {
                match rectangle_of(v) {
                    Err(e) => Err(e),
                    Ok(x) => Ok(ShapeTypeView::Rectangle(x)),
                }
            } else if tag == "Line"@ {
                match line_of(v) {
                    Err(e) => Err(e),
                    Ok(x) => Ok(ShapeTypeView::Line(x)),
                }
            } else if tag == "Polyline"@ {
                match v {
                    JsonView::Array(items) => match points_of(items) {
                        Err(e) => Err(e),
                        Ok(ps) => Ok(ShapeTypeView::Polyline(ps)),
                    },
                    _ => Err(DecodeError::WrongKind),
                }
            } else if tag == "Polygon"@ {
                match v {
                    JsonView::Array(items) => match points_of(items) {
                        Err(e) => Err(e),
                        Ok(ps) => Ok(ShapeTypeView::Polygon(ps)),
                    },
                    _ => Err(DecodeError::WrongKind),
                }
            } else if tag == "Group"@ {
                match v {
                    JsonView::Array(items) => {
                        proof {
                            assert(decreases_to!(es => es[0]));
                        }
                        match shapes_of(items) {
                            Err(e) => Err(e),
                            Ok(g) => Ok(ShapeTypeView::Group(g)),
                        }
                    },
                    _ => Err(DecodeError::WrongKind),
                }
            } else if tag == "Path"@ {
                match v {
                    JsonView::Array(items) => match commands_of(items) {
                        Err(e) => Err(e),
                        Ok(cs) => Ok(ShapeTypeView::Path(cs)),
                    },
                    _ => Err(DecodeError::WrongKind),
                }
            } else {
                Err(DecodeError::UnknownVariant)
            }
        },
        _ => Err(DecodeError::WrongKind),
    }
}

pub open spec fn shape_of(j: JsonView) -> Result<ShapeView, DecodeError>
    decreases j,
{
    match j {
        JsonView::Object(es) => match field_of(es, "shape"@) {
            Err(e) => Err(e),
            Ok(t) => {
                proof {
                    lemma_field_decreases(es, "shape"@);
                }
                match shape_type_of(t) {
                    Err(e) => Err(e),
                    Ok(shape) => match field_of(es, "styles"@) {
                        Err(e) => Err(e),
                        Ok(sj) => match styles_of(sj) {
                            Err(e) => Err(e),
                            Ok(styles) => Ok(ShapeView { shape, styles }),
                        },
                    },
                }
            },
        },
        _ => Err(DecodeError::WrongKind),
    }
}

/// The shapes of an array, in order; the first element that is no shape
/// gives the error.
pub open spec fn shapes_of(items: Seq<JsonView>) -> Result<Seq<ShapeView>, DecodeError>
    decreases items,
{
    if items.len() == 0 {
        Ok(Seq::empty())
    } else {
        match shapes_of(items.subrange(0, items.len() - 1)) {
            Err(e) => Err(e),
            Ok(v) => match shape_of(items[items.len() - 1]) {
                Err(e) => Err(e),
                Ok(s) => Ok(v.push(s)),
            },
        }
    }
}

/// The scene that a structured value persists, or why it persists none.
pub open spec fn svg_of(j: JsonView) -> Result<SvgView, DecodeError> {
    match j {
        JsonView::Object(es) => match field_of(es, "viewport"@) {
            Err(e) => Err(e),
            Ok(vj) => match viewport_of(vj) {
                Err(e) => Err(e),
                Ok(viewport) => match field_of(es, "shapes"@) {
                    Err(e) => Err(e),
                    Ok(JsonView::Array(items)) => match shapes_of(items) {
                        Err(e) => Err(e),
                        Ok(shapes) => Ok(SvgView { viewport, shapes }),
                    },
                    Ok(_) => Err(DecodeError::WrongKind),
                },
            },
        },
        _ => Err(DecodeError::WrongKind),
    }
}

// ----- the round trip -----
/// The field names of a point differ.
proof fn lemma_point_names()
    ensures
        "x"@ != "y"@,
{
    reveal_strlit("x");
    reveal_strlit("y");
    assert("x"@[0] != "y"@[0]);
}

/// The field names of a color differ.
proof fn lemma_color_names()
    ensures
        "red"@ != "green"@,
        "red"@ != "blue"@,
        "red"@ != "transparency"@,
        "green"@ != "blue"@,
        "green"@ != "transparency"@,
        "blue"@ != "transparency"@,
{
    reveal_strlit("red");
    reveal_strlit("green");
    reveal_strlit("blue");
    reveal_strlit("transparency");
    assert("red"@[0] != "green"@[0]);
    assert("red"@[0] != "blue"@[0]);
    assert("red"@[0] != "transparency"@[0]);
    assert("green"@[0] != "blue"@[0]);
    assert("green"@[0] != "transparency"@[0]);
    assert("blue"@[0] != "transparency"@[0]);
}

/// The names of the flips differ.
proof fn lemma_rotate_names()
    ensures
        "Flipx"@ != "Flipy"@,
{
    reveal_strlit("Flipx");
    reveal_strlit("Flipy");
    assert("Flipx"@[4] != "Flipy"@[4]);
}

/// The field names of styles differ.
proof fn lemma_styles_names()
    ensures
        "translate"@ != "rotate"@,
        "translate"@ != "fill"@,
        "translate"@ != "outline"@,
        "rotate"@ != "fill"@,
        "rotate"@ != "outline"@,
        "fill"@ != "outline"@,
{
    reveal_strlit("translate");
    reveal_strlit("rotate");
    reveal_strlit("fill");
    reveal_strlit("outline");
    assert("translate"@[0] != "rotate"@[0]);
    assert("translate"@[0] != "fill"@[0]);
    assert("translate"@[0] != "outline"@[0]);
    assert("rotate"@[0] != "fill"@[0]);
    assert("rotate"@[0] != "outline"@[0]);
    assert("fill"@[0] != "outline"@[0]);
}

/// The tags of the path commands differ.
proof fn lemma_command_names()
    ensures
        "MoveTo"@ != "LineTo"@,
        "MoveTo"@ != "HorizontalLineTo"@,
        "MoveTo"@ != "VerticalLineTo"@,
        "MoveTo"@ != "CubicCurveTo"@,
        "MoveTo"@ != "CubicCurveToShorthand"@,
        "MoveTo"@ != "QuadraticCurveTo"@,
        "MoveTo"@ != "QuadraticCurveToShorthand"@,
        "LineTo"@ != "HorizontalLineTo"@,
        "LineTo"@ != "VerticalLineTo"@,
        "LineTo"@ != "CubicCurveTo"@,
        "LineTo"@ != "CubicCurveToShorthand"@,
        "LineTo"@ != "QuadraticCurveTo"@,
        "LineTo"@ != "QuadraticCurveToShorthand"@,
        "HorizontalLineTo"@ != "VerticalLineTo"@,
        "HorizontalLineTo"@ != "CubicCurveTo"@,
        "HorizontalLineTo"@ != "CubicCurveToShorthand"@,
        "HorizontalLineTo"@ != "QuadraticCurveTo"@,
        "HorizontalLineTo"@ != "QuadraticCurveToShorthand"@,
        "VerticalLineTo"@ != "CubicCurveTo"@,
        "VerticalLineTo"@ != "CubicCurveToShorthand"@,
        "VerticalLineTo"@ != "QuadraticCurveTo"@,
        "VerticalLineTo"@ != "QuadraticCurveToShorthand"@,
        "CubicCurveTo"@ != "CubicCurveToShorthand"@,
        "CubicCurveTo"@ != "QuadraticCurveTo"@,
        "CubicCurveTo"@ != "QuadraticCurveToShorthand"@,
        "CubicCurveToShorthand"@ != "QuadraticCurveTo"@,
        "CubicCurveToShorthand"@ != "QuadraticCurveToShorthand"@,
        "QuadraticCurveTo"@ != "QuadraticCurveToShorthand"@,
{
    reveal_strlit("MoveTo");
    reveal_strlit("LineTo");
    reveal_strlit("HorizontalLineTo");
    reveal_strlit("VerticalLineTo");
    reveal_strlit("CubicCurveTo");
    reveal_strlit("CubicCurveToShorthand");
    reveal_strlit("QuadraticCurveTo");
    reveal_strlit("QuadraticCurveToShorthand");
    assert("MoveTo"@[0] != "LineTo"@[0]);
    assert("MoveTo"@[0] != "HorizontalLineTo"@[0]);
    assert("MoveTo"@[0] != "VerticalLineTo"@[0]);
    assert("MoveTo"@[0] != "CubicCurveTo"@[0]);
    assert("MoveTo"@[0] != "CubicCurveToShorthand"@[0]);
    assert("MoveTo"@[0] != "QuadraticCurveTo"@[0]);
    assert("MoveTo"@[0] != "QuadraticCurveToShorthand"@[0]);
    assert("LineTo"@[0] != "HorizontalLineTo"@[0]);
    assert("LineTo"@[0] != "VerticalLineTo"@[0]);
    assert("LineTo"@[0] != "CubicCurveTo"@[0]);
    assert("LineTo"@[0] != "CubicCurveToShorthand"@[0]);
    assert("LineTo"@[0] != "QuadraticCurveTo"@[0]);
    assert("LineTo"@[0] != "QuadraticCurveToShorthand"@[0]);
    assert("HorizontalLineTo"@[0] != "VerticalLineTo"@[0]);
    assert("HorizontalLineTo"@[0] != "CubicCurveTo"@[0]);
    assert("HorizontalLineTo"@[0] != "CubicCurveToShorthand"@[0]);
    assert("HorizontalLineTo"@[0] != "QuadraticCurveTo"@[0]);
    assert("HorizontalLineTo"@[0] != "QuadraticCurveToShorthand"@[0]);
    assert("VerticalLineTo"@[0] != "CubicCurveTo"@[0]);
    assert("VerticalLineTo"@[0] != "CubicCurveToShorthand"@[0]);
    assert("VerticalLineTo"@[0] != "QuadraticCurveTo"@[0]);
    assert("VerticalLineTo"@[0] != "QuadraticCurveToShorthand"@[0]);
    assert("CubicCurveTo"@.len() != "CubicCurveToShorthand"@.len());
    assert("CubicCurveTo"@[0] != "QuadraticCurveTo"@[0]);
    assert("CubicCurveTo"@[0] != "QuadraticCurveToShorthand"@[0]);
    assert("CubicCurveToShorthand"@[0] != "QuadraticCurveTo"@[0]);
    assert("CubicCurveToShorthand"@[0] != "QuadraticCurveToShorthand"@[0]);
    assert("QuadraticCurveTo"@.len() != "QuadraticCurveToShorthand"@.len());
}

/// The tags of the shape kinds differ.
proof fn lemma_shape_type_names()
    ensures
        "Ellipse"@ != "Rectangle"@,
        "Ellipse"@ != "Line"@,
        "Ellipse"@ != "Polyline"@,
        "Ellipse"@ != "Polygon"@,
        "Ellipse"@ != "Group"@,
        "Ellipse"@ != "Path"@,
        "Rectangle"@ != "Line"@,
        "Rectangle"@ != "Polyline"@,
        "Rectangle"@ != "Polygon"@,
        "Rectangle"@ != "Group"@,
        "Rectangle"@ != "Path"@,
        "Line"@ != "Polyline"@,
        "Line"@ != "Polygon"@,
        "Line"@ != "Group"@,
        "Line"@ != "Path"@,
        "Polyline"@ != "Polygon"@,
        "Polyline"@ != "Group"@,
        "Polyline"@ != "Path"@,
        "Polygon"@ != "Group"@,
        "Polygon"@ != "Path"@,
        "Group"@ != "Path"@,
{
    reveal_strlit("Ellipse");
    reveal_strlit("Rectangle");
    reveal_strlit("Line");
    reveal_strlit("Polyline");
    reveal_strlit("Polygon");
    reveal_strlit("Group");
    reveal_strlit("Path");
    assert("Ellipse"@[0] != "Rectangle"@[0]);
    assert("Ellipse"@[0] != "Line"@[0]);
    assert("Ellipse"@[0] != "Polyline"@[0]);
    assert("Ellipse"@[0] != "Polygon"@[0]);
    assert("Ellipse"@[0] != "Group"@[0]);
    assert("Ellipse"@[0] != "Path"@[0]);
    assert("Rectangle"@[0] != "Line"@[0]);
    assert("Rectangle"@[0] != "Polyline"@[0]);
    assert("Rectangle"@[0] != "Polygon"@[0]);
    assert("Rectangle"@[0] != "Group"@[0]);
    assert("Rectangle"@[0] != "Path"@[0]);
    assert("Line"@[0] != "Polyline"@[0]);
    assert("Line"@[0] != "Polygon"@[0]);
    assert("Line"@[0] != "Group"@[0]);
    assert("Line"@[0] != "Path"@[0]);
    assert("Polyline"@[4] != "Polygon"@[4]);
    assert("Polyline"@[0] != "Group"@[0]);
    assert("Polyline"@[1] != "Path"@[1]);
    assert("Polygon"@[0] != "Group"@[0]);
    assert("Polygon"@[1] != "Path"@[1]);
    assert("Group"@[0] != "Path"@[0]);
}

/// The field names of the geometries differ.
proof fn lemma_geometry_names()
    ensures
        "origin"@ != "radius_x"@,
        "origin"@ != "radius_y"@,
        "origin"@ != "width"@,
        "origin"@ != "height"@,
        "origin"@ != "from"@,
        "origin"@ != "to"@,
        "radius_x"@ != "radius_y"@,
        "radius_x"@ != "width"@,
        "radius_x"@ != "height"@,
        "radius_x"@ != "from"@,
        "radius_x"@ != "to"@,
        "radius_y"@ != "width"@,
        "radius_y"@ != "height"@,
        "radius_y"@ != "from"@,
        "radius_y"@ != "to"@,
        "width"@ != "height"@,
        "width"@ != "from"@,
        "width"@ != "to"@,
        "height"@ != "from"@,
        "height"@ != "to"@,
        "from"@ != "to"@,
{
    reveal_strlit("origin");
    reveal_strlit("radius_x");
    reveal_strlit("radius_y");
    reveal_strlit("width");
    reveal_strlit("height");
    reveal_strlit("from");
    reveal_strlit("to");
    assert("origin"@[0] != "radius_x"@[0]);
    assert("origin"@[0] != "radius_y"@[0]);
    assert("origin"@[0] != "width"@[0]);
    assert("origin"@[0] != "height"@[0]);
    assert("origin"@[0] != "from"@[0]);
    assert("origin"@[0] != "to"@[0]);
    assert("radius_x"@[7] != "radius_y"@[7]);
    assert("radius_x"@[0] != "width"@[0]);
    assert("radius_x"@[0] != "height"@[0]);
    assert("radius_x"@[0] != "from"@[0]);
    assert("radius_x"@[0] != "to"@[0]);
    assert("radius_y"@[0] != "width"@[0]);
    assert("radius_y"@[0] != "height"@[0]);
    assert("radius_y"@[0] != "from"@[0]);
    assert("radius_y"@[0] != "to"@[0]);
    assert("width"@[0] != "height"@[0]);
    assert("width"@[0] != "from"@[0]);
    assert("width"@[0] != "to"@[0]);
    assert("height"@[0] != "from"@[0]);
    assert("height"@[0] != "to"@[0]);
    assert("from"@[0] != "to"@[0]);
}

/// The field names of shapes and scenes differ.
proof fn lemma_scene_names()
    ensures
        "shape"@ != "styles"@,
        "shape"@ != "viewport"@,
        "shape"@ != "shapes"@,
        "styles"@ != "viewport"@,
        "styles"@ != "shapes"@,
        "viewport"@ != "shapes"@,
{
    reveal_strlit("shape");
    reveal_strlit("styles");
    reveal_strlit("viewport");
    reveal_strlit("shapes");
    assert("shape"@[1] != "styles"@[1]);
    assert("shape"@[0] != "viewport"@[0]);
    assert("shape"@.len() != "shapes"@.len());
    assert("styles"@[0] != "viewport"@[0]);
    assert("styles"@[1] != "shapes"@[1]);
    assert("viewport"@[0] != "shapes"@[0]);
}

proof fn lemma_point_round_trip(p: Point)
    ensures
        point_of(point_json(p)) == Ok::<Point, DecodeError>(p),
{
    lemma_point_names();
    lemma_object2("x"@, JsonView::Int(p.x as i64), "y"@, JsonView::Int(p.y as i64));
}

proof fn lemma_color_round_trip(c: Color)
    ensures
        color_of(color_json(c)) == Ok::<Color, DecodeError>(c),
{
    lemma_color_names();
    lemma_object4(
        "red"@,
        JsonView::Int(c.red as i64),
        "green"@,
        JsonView::Int(c.green as i64),
        "blue"@,
        JsonView::Int(c.blue as i64),
        "transparency"@,
        JsonView::Int(c.transparency as i64),
    );
}

proof fn lemma_rotate_round_trip(r: Rotate)
    requires
        r.wf(),
    ensures
        rotate_of(rotate_json(r)) == Ok::<Rotate, DecodeError>(r),
{
    lemma_rotate_names();
}

proof fn lemma_styles_round_trip(s: Styles)
    requires
        s.wf(),
    ensures
        styles_of(styles_json(s)) == Ok::<Styles, DecodeError>(s),
{
    lemma_styles_names();
    lemma_object4(
        "translate"@,
        point_json(s.translate),
        "rotate"@,
        rotate_json(s.rotate),
        "fill"@,
        color_json(s.fill),
        "outline"@,
        color_json(s.outline),
    );
    lemma_point_round_trip(s.translate);
    lemma_rotate_round_trip(s.rotate);
    lemma_color_round_trip(s.fill);
    lemma_color_round_trip(s.outline);
}

proof fn lemma_points_round_trip(ps: Seq<Point>)
    ensures
        points_of(ps.map_values(|p: Point| point_json(p))) == Ok::<Seq<Point>, DecodeError>(ps),
    decreases ps.len(),
{
    if ps.len() > 0 {
        let items = ps.map_values(|p: Point| point_json(p));
        let init = ps.subrange(0, ps.len() - 1);
        lemma_points_round_trip(init);
        assert(items.subrange(0, items.len() - 1) =~= init.map_values(|p: Point| point_json(p)));
        lemma_point_round_trip(ps[ps.len() - 1]);
        assert(init.push(ps[ps.len() - 1]) =~= ps);
    } else {
        assert(ps =~= Seq::<Point>::empty());
    }
}

proof fn lemma_command_round_trip(c: PathCommand)
    ensures
        command_of(command_json(c)) == Ok::<PathCommand, DecodeError>(c),
{
    lemma_command_names();
    match c {
        PathCommand::MoveTo(p) => lemma_point_round_trip(p),
        PathCommand::LineTo(p) => lemma_point_round_trip(p),
        PathCommand::CubicCurveTo(a, b, d) => {
            lemma_points_round_trip(seq![a, b, d]);
            assert(seq![a, b, d].map_values(|p: Point| point_json(p)) =~= seq![
                point_json(a),
                point_json(b),
                point_json(d),
            ]);
        },
        PathCommand::CubicCurveToShorthand(a, b) => {
            lemma_points_round_trip(seq![a, b]);
            assert(seq![a, b].map_values(|p: Point| point_json(p)) =~= seq![
                point_json(a),
                point_json(b),
            ]);
        },
        PathCommand::QuadraticCurveTo(a, b) => {
            lemma_points_round_trip(seq![a, b]);
            assert(seq![a, b].map_values(|p: Point| point_json(p)) =~= seq![
                point_json(a),
                point_json(b),
            ]);
        },
        PathCommand::QuadraticCurveToShorthand(p) => lemma_point_round_trip(p),
        _ => {},
    }
}

proof fn lemma_commands_round_trip(cs: Seq<PathCommand>)
    ensures
        commands_of(cs.map_values(|c: PathCommand| command_json(c))) == Ok::<
            Seq<PathCommand>,
            DecodeError,
        >(cs),
    decreases cs.len(),
{
    if cs.len() > 0 {
        let items = cs.map_values(|c: PathCommand| command_json(c));
        let init = cs.subrange(0, cs.len() - 1);
        lemma_commands_round_trip(init);
        assert(items.subrange(0, items.len() - 1) =~= init.map_values(
            |c: PathCommand| command_json(c),
        ));
        lemma_command_round_trip(cs[cs.len() - 1]);
        assert(init.push(cs[cs.len() - 1]) =~= cs);
    } else {
        assert(cs =~= Seq::<PathCommand>::empty());
    }
}

proof fn lemma_shape_type_round_trip(t: ShapeTypeView)
    requires
        match t {
            ShapeTypeView::Group(g) => forall|i: int| 0 <= i < g.len() ==> shape_view_wf(#[trigger] g[i]),
            _ => true,
        },
    ensures
        shape_type_of(shape_type_json(t)) == Ok::<ShapeTypeView, DecodeError>(t),
    decreases t,
{
    lemma_shape_type_names();
    lemma_geometry_names();
    match t {
        ShapeTypeView::Ellipse(e) => {
            lemma_point_round_trip(e.origin);
            lemma_object3(
                "origin"@,
                point_json(e.origin),
                "radius_x"@,
                JsonView::Int(e.radius_x as i64),
                "radius_y"@,
                JsonView::Int(e.radius_y as i64),
            );
        },
        ShapeTypeView::Rectangle(r) => {
            lemma_point_round_trip(r.origin);
            lemma_object3(
                "origin"@,
                point_json(r.origin),
                "width"@,
                JsonView::Int(r.width as i64),
                "height"@,
                JsonView::Int(r.height as i64),
            );
        },
        ShapeTypeView::Line(l) => {
            lemma_point_round_trip(l.from);
            lemma_point_round_trip(l.to);
            lemma_object2("from"@, point_json(l.from), "to"@, point_json(l.to));
        },
        ShapeTypeView::Polyline(ps) => lemma_points_round_trip(ps),
        ShapeTypeView::Polygon(ps) => lemma_points_round_trip(ps),
        ShapeTypeView::Group(g) => lemma_shapes_round_trip(g),
        ShapeTypeView::Path(cs) => lemma_commands_round_trip(cs),
    }
}

proof fn lemma_shape_round_trip(s: ShapeView)
    requires
        shape_view_wf(s),
    ensures
        shape_of(shape_json(s)) == Ok::<ShapeView, DecodeError>(s),
    decreases s,
{
    lemma_scene_names();
    lemma_shape_type_round_trip(s.shape);
    lemma_styles_round_trip(s.styles);
    lemma_object2("shape"@, shape_type_json(s.shape), "styles"@, styles_json(s.styles));
}

proof fn lemma_shapes_round_trip(v: Seq<ShapeView>)
    requires
        forall|i: int| 0 <= i < v.len() ==> shape_view_wf(#[trigger] v[i]),
    ensures
        shapes_of(shapes_json(v)) == Ok::<Seq<ShapeView>, DecodeError>(v),
    decreases v,
{
    if v.len() > 0 {
        let init = v.subrange(0, v.len() - 1);
        let items = shapes_json(v);
        lemma_shapes_round_trip(init);
        assert(items.subrange(0, items.len() - 1) =~= shapes_json(init));
        lemma_shape_round_trip(v[v.len() - 1]);
        assert(init.push(v[v.len() - 1]) =~= v);
    } else {
        assert(v =~= Seq::<ShapeView>::empty());
    }
}

/// Decoding the structured value of a well-formed scene gives back that scene.
pub proof fn lemma_svg_round_trip(s: SvgView)
    requires
        s.wf(),
    ensures
        svg_of(svg_json(s)) == Ok::<SvgView, DecodeError>(s),
{
    lemma_scene_names();
    lemma_geometry_names();
    lemma_point_round_trip(s.viewport.from);
    lemma_point_round_trip(s.viewport.to);
    lemma_shapes_round_trip(s.shapes);
    lemma_object2(
        "viewport"@,
        viewport_json(s.viewport),
        "shapes"@,
        JsonView::Array(shapes_json(s.shapes)),
    );
    lemma_object2("from"@, point_json(s.viewport.from), "to"@, point_json(s.viewport.to));
}

// ----- encoding, executable -----
fn entry(key: &str, value: Json) -> (r: (String, Json))
    ensures
        r.0@ == key@,
        r.1 == value,
{
    (String::from_str(key), value)
}

fn object2(k0: &str, v0: Json, k1: &str, v1: Json) -> (r: Json)
    ensures
        r@ == JsonView::Object(seq![(k0@, v0@), (k1@, v1@)]),
{
    let es = vec![entry(k0, v0), entry(k1, v1)];
    proof {
        lemma_entries_view(es@);
        assert(entries_view(es@) =~= seq![(k0@, v0@), (k1@, v1@)]);
    }
    Json::Object(es)
}

fn object3(k0: &str, v0: Json, k1: &str, v1: Json, k2: &str, v2: Json) -> (r: Json)
    ensures
        r@ == JsonView::Object(seq![(k0@, v0@), (k1@, v1@), (k2@, v2@)]),
{
    let es = vec![entry(k0, v0), entry(k1, v1), entry(k2, v2)];
    proof {
        lemma_entries_view(es@);
        assert(entries_view(es@) =~= seq![(k0@, v0@), (k1@, v1@), (k2@, v2@)]);
    }
    Json::Object(es)
}

fn object4(k0: &str, v0: Json, k1: &str, v1: Json, k2: &str, v2: Json, k3: &str, v3: Json) -> (r:
    Json)
    ensures
        r@ == JsonView::Object(seq![(k0@, v0@), (k1@, v1@), (k2@, v2@), (k3@, v3@)]),
{
    let es = vec![entry(k0, v0), entry(k1, v1), entry(k2, v2), entry(k3, v3)];
    proof {
        lemma_entries_view(es@);
        assert(entries_view(es@) =~= seq![(k0@, v0@), (k1@, v1@), (k2@, v2@), (k3@, v3@)]);
    }
    Json::Object(es)
}

fn tag_with(tag: &str, payload: Json) -> (r: Json)
    ensures
        r@ == tagged(tag@, payload@),
{
    let es = vec![entry(tag, payload)];
    proof {
        lemma_entries_view(es@);
        assert(entries_view(es@) =~= seq![(tag@, payload@)]);
    }
    Json::Object(es)
}

fn name(s: &str) -> (r: Json)
    ensures
        r@ == JsonView::Str(s@),
{
    Json::Str(String::from_str(s))
}

fn array_of(items: Vec<Json>) -> (r: Json)
    ensures
        r@ == JsonView::Array(json_views(items@)),
{
    Json::Array(items)
}

/// The structured value of a point: an object with `x` and `y`.
pub fn encode_point(p: &Point) -> (r: Json)
    ensures
        r@ == point_json(*p),
{
    object2("x", Json::Int(p.x as i64), "y", Json::Int(p.y as i64))
}

/// The structured value of a color: an object with its four channels.
pub fn encode_color(c: &Color) -> (r: Json)
    ensures
        r@ == color_json(*c),
{
    object4(
        "red",
        Json::Int(c.red as i64),
        "green",
        Json::Int(c.green as i64),
        "blue",
        Json::Int(c.blue as i64),
        "transparency",
        Json::Int(c.transparency as i64),
    )
}

/// The structured value of a rotation: a tag for a flip, a tagged degree
/// for a circular one.
pub fn encode_rotate(r: &Rotate) -> (j: Json)
    ensures
        j@ == rotate_json(*r),
{
    match r {
        Rotate::Circular(d) => tag_with("Circular", Json::Int(*d as i64)),
        Rotate::Flipx => name("Flipx"),
        Rotate::Flipy => name("Flipy"),
    }
}

/// The structured value of styles.
pub fn encode_styles(s: &Styles) -> (r: Json)
    ensures
        r@ == styles_json(*s),
{
    object4(
        "translate",
        encode_point(&s.translate),
        "rotate",
        encode_rotate(&s.rotate),
        "fill",
        encode_color(&s.fill),
        "outline",
        encode_color(&s.outline),
    )
}

fn encode_points(ps: &Vec<Point>) -> (r: Json)
    ensures
        r@ == points_json(ps@),
{
    let mut items: Vec<Json> = Vec::new();
    let mut i: usize = 0;
    while i < ps.len()
        invariant
            i <= ps@.len(),
            json_views(items@) =~= ps@.subrange(0, i as int).map_values(|p: Point| point_json(p)),
        decreases ps@.len() - i,
    {
        let j = encode_point(&ps[i]);
        let ghost before = items@;
        items.push(j);
        proof {
            assert(items@.subrange(0, items@.len() - 1) =~= before);
        }
        i = i + 1;
    }
    assert(ps@.subrange(0, ps@.len() as int) =~= ps@);
    array_of(items)
}

/// The structured value of a path command, tagged with its name.
pub fn encode_command(c: &PathCommand) -> (r: Json)
    ensures
        r@ == command_json(*c),
{
    match c {
        PathCommand::MoveTo(p) => tag_with("MoveTo", encode_point(p)),
        PathCommand::LineTo(p) => tag_with("LineTo", encode_point(p)),
        PathCommand::HorizontalLineTo(x) => tag_with("HorizontalLineTo", Json::Int(*x as i64)),
        PathCommand::VerticalLineTo(y) => tag_with("VerticalLineTo", Json::Int(*y as i64)),
        PathCommand::CubicCurveTo(a, b, d) => {
            let items = vec![encode_point(a), encode_point(b), encode_point(d)];
            proof {
                lemma_json_views(items@);
                assert(json_views(items@) =~= seq![point_json(*a), point_json(*b), point_json(*d)]);
            }
            tag_with("CubicCurveTo", array_of(items))
        },
        PathCommand::CubicCurveToShorthand(a, b) => {
            let items = vec![encode_point(a), encode_point(b)];
            proof {
                lemma_json_views(items@);
                assert(json_views(items@) =~= seq![point_json(*a), point_json(*b)]);
            }
            tag_with("CubicCurveToShorthand", array_of(items))
        },
        PathCommand::QuadraticCurveTo(a, b) => {
            let items = vec![encode_point(a), encode_point(b)];
            proof {
                lemma_json_views(items@);
                assert(json_views(items@) =~= seq![point_json(*a), point_json(*b)]);
            }
            tag_with("QuadraticCurveTo", array_of(items))
        },
        PathCommand::QuadraticCurveToShorthand(p) => tag_with(
            "QuadraticCurveToShorthand",
            encode_point(p),
        ),
        PathCommand::EndOfPath => name("EndOfPath"),
    }
}

fn encode_commands(cs: &Vec<PathCommand>) -> (r: Json)
    ensures
        r@ == commands_json(cs@),
{
    let mut items: Vec<Json> = Vec::new();
    let mut i: usize = 0;
    while i < cs.len()
        invariant
            i <= cs@.len(),
            json_views(items@) =~= cs@.subrange(0, i as int).map_values(
                |c: PathCommand| command_json(c),
            ),
        decreases cs@.len() - i,
    {
        let j = encode_command(&cs[i]);
        let ghost before = items@;
        items.push(j);
        proof {
            assert(items@.subrange(0, items@.len() - 1) =~= before);
        }
        i = i + 1;
    }
    assert(cs@.subrange(0, cs@.len() as int) =~= cs@);
    array_of(items)
}

fn encode_shape_type(t: &ShapeType) -> (r: Json)
    ensures
        r@ == shape_type_json(shape_type_view(*t)),
    decreases t,
{
    match t {
        ShapeType::Ellipse(e) => tag_with(
            "Ellipse",
            object3(
                "origin",
                encode_point(&e.origin),
                "radius_x",
                Json::Int(e.radius_x as i64),
                "radius_y",
                Json::Int(e.radius_y as i64),
            ),
        ),
        ShapeType::Rectangle(r) => tag_with(
            "Rectangle",
            object3(
                "origin",
                encode_point(&r.origin),
                "width",
                Json::Int(r.width as i64),
                "height",
                Json::Int(r.height as i64),
            ),
        ),
        ShapeType::Line(l) => tag_with(
            "Line",
            object2("from", encode_point(&l.from), "to", encode_point(&l.to)),
        ),
        ShapeType::Polyline(p) => tag_with("Polyline", encode_points(&p.0)),
        ShapeType::Polygon(p) => tag_with("Polygon", encode_points(&p.0)),
        ShapeType::Group(g) => {
            let items = encode_shapes(&g.0);
            tag_with("Group", array_of(items))
        },
        ShapeType::Path(p) => tag_with("Path", encode_commands(&p.0)),
    }
}

/// The structured value of a shape.
pub fn encode_shape(s: &Shape) -> (r: Json)
    ensures
        r@ == shape_json(shape_view(*s)),
    decreases s,
{
    object2("shape", encode_shape_type(&s.shape), "styles", encode_styles(&s.styles))
}

fn encode_shapes(v: &Vec<Box<Shape>>) -> (r: Vec<Json>)
    ensures
        json_views(r@) == shapes_json(shapes_view(v@)),
    decreases v,
{
    let mut items: Vec<Json> = Vec::new();
    let mut i: usize = 0;
    while i < v.len()
        invariant
            i <= v@.len(),
            json_views(items@) == shapes_json(shapes_view(v@.subrange(0, i as int))),
        decreases v@.len() - i,
    {
        proof {
            assert(decreases_to!(v@ => v@[i as int]));
        }
        let j = encode_shape(&v[i]);
        let ghost before = items@;
        items.push(j);
        proof {
            let next = v@.subrange(0, i + 1);
            assert(next.subrange(0, i as int) =~= v@.subrange(0, i as int));
            assert(items@.subrange(0, items@.len() - 1) =~= before);
            let a = shapes_view(v@.subrange(0, i as int));
            let w = a.push(shape_view(*v@[i as int]));
            assert(next[i as int] == v@[i as int]);
            assert(shapes_view(next) == w);
            assert(w.subrange(0, w.len() - 1) =~= a);
            assert(shapes_json(w) == shapes_json(a).push(shape_json(shape_view(*v@[i as int]))));
        }
        i = i + 1;
    }
    assert(v@.subrange(0, v@.len() as int) =~= v@);
    items
}

/// The structured value that persists a scene.
pub fn encode_svg(svg: &Svg) -> (r: Json)
    ensures
        r@ == svg_json(svg@),
{
    let viewport = object2(
        "from",
        encode_point(&svg.viewport.from),
        "to",
        encode_point(&svg.viewport.to),
    );
    let items = encode_shapes(&svg.shapes);
    object2("viewport", viewport, "shapes", array_of(items))
}

// ----- decoding, executable -----
fn is_name(s: &String, n: &str) -> (r: bool)
    ensures
        r == (s@ == n@),
{
    let wanted = String::from_str(n);
    *s == wanted
}

fn field_value<'a>(es: &'a Vec<(String, Json)>, key: &str) -> (r: Result<&'a Json, DecodeError>)
    ensures
        match r {
            Ok(j) => field_of(entries_view(es@), key@) == Ok::<JsonView, DecodeError>(j@),
            Err(e) => field_of(entries_view(es@), key@) == Err::<JsonView, DecodeError>(e),
        },
{
    match get_field(es, key) {
        Some(j) => Ok(j),
        None => Err(DecodeError::MissingField),
    }
}

fn decode_int(j: &Json, lo: i64, hi: i64) -> (r: Result<i64, DecodeError>)
    ensures
        r == int_of(j@, lo, hi),
{
    match j {
        Json::Int(i) => if lo <= *i && *i <= hi {
            Ok(*i)
        } else {
            Err(DecodeError::OutOfRange)
        },
        _ => Err(DecodeError::WrongKind),
    }
}

fn int_field_value(es: &Vec<(String, Json)>, key: &str, lo: i64, hi: i64) -> (r: Result<
    i64,
    DecodeError,
>)
    ensures
        r == int_field(entries_view(es@), key@, lo, hi),
{
    match field_value(es, key) {
        Ok(j) => decode_int(j, lo, hi),
        Err(e) => Err(e),
    }
}

/// Decodes a point.
pub fn decode_point(j: &Json) -> (r: Result<Point, DecodeError>)
    ensures
        r == point_of(j@),
{
    match j {
        Json::Object(es) => {
            let x = match int_field_value(es, "x", I32_LOW, I32_HIGH) {
                Ok(x) => x,
                Err(e) => return Err(e),
            };
            let y = match int_field_value(es, "y", I32_LOW, I32_HIGH) {
                Ok(y) => y,
                Err(e) => return Err(e),
            };
            Ok(Point { x: x as i32, y: y as i32 })
        },
        _ => Err(DecodeError::WrongKind),
    }
}

fn point_field_value(es: &Vec<(String, Json)>, key: &str) -> (r: Result<Point, DecodeError>)
    ensures
        r == point_field(entries_view(es@), key@),
{
    match field_value(es, key) {
        Ok(j) => decode_point(j),
        Err(e) => Err(e),
    }
}

/// Decodes a color; each channel must fit a byte.
pub fn decode_color(j: &Json) -> (r: Result<Color, DecodeError>)
    ensures
        r == color_of(j@),
{
    match j {
        Json::Object(es) => {
            let red = match int_field_value(es, "red", 0, U8_HIGH) {
                Ok(v) => v,
                Err(e) => return Err(e),
            };
            let green = match int_field_value(es, "green", 0, U8_HIGH) {
                Ok(v) => v,
                Err(e) => return Err(e),
            };
            let blue = match int_field_value(es, "blue", 0, U8_HIGH) {
                Ok(v) => v,
                Err(e) => return Err(e),
            };
            let transparency = match int_field_value(es, "transparency", 0, U8_HIGH) {
                Ok(v) => v,
                Err(e) => return Err(e),
            };
            Ok(
                Color {
                    red: red as u8,
                    green: green as u8,
                    blue: blue as u8,
                    transparency: transparency as u8,
                },
            )
        },
        _ => Err(DecodeError::WrongKind),
    }
}

fn color_field_value(es: &Vec<(String, Json)>, key: &str) -> (r: Result<Color, DecodeError>)
    ensures
        r == color_field(entries_view(es@), key@),
{
    match field_value(es, key) {
        Ok(j) => decode_color(j),
        Err(e) => Err(e),
    }
}

/// Decodes a rotation; a circular degree must lie in `[0, 360)`.
pub fn decode_rotate(j: &Json) -> (r: Result<Rotate, DecodeError>)
    ensures
        r == rotate_of(j@),
{
    match j {
        Json::Str(s) => if is_name(s, "Flipx") {
            Ok(Rotate::Flipx)
        } else if is_name(s, "Flipy") {
            Ok(Rotate::Flipy)
        } else {
            Err(DecodeError::UnknownVariant)
        },
        Json::Object(es) => {
            proof {
                lemma_entries_view(es@);
            }
            if es.len() == 1 && is_name(&es[0].0, "Circular") {
                match decode_int(&es[0].1, 0, DEGREE_HIGH) {
                    Ok(d) => Ok(Rotate::Circular(d as u16)),
                    Err(e) => Err(e),
                }
            } else {
                Err(DecodeError::UnknownVariant)
            }
        },
        _ => Err(DecodeError::WrongKind),
    }
}

/// Decodes styles.
pub fn decode_styles(j: &Json) -> (r: Result<Styles, DecodeError>)
    ensures
        r == styles_of(j@),
{
    match j {
        Json::Object(es) => {
            let translate = match point_field_value(es, "translate") {
                Ok(v) => v,
                Err(e) => return Err(e),
            };
            let rotate = match field_value(es, "rotate") {
                Ok(rj) => match decode_rotate(rj) {
                    Ok(v) => v,
                    Err(e) => return Err(e),
                },
                Err(e) => return Err(e),
            };
            let fill = match color_field_value(es, "fill") {
                Ok(v) => v,
                Err(e) => return Err(e),
            };
            let outline = match color_field_value(es, "outline") {
                Ok(v) => v,
                Err(e) => return Err(e),
            };
            Ok(Styles { translate, rotate, fill, outline })
        },
        _ => Err(DecodeError::WrongKind),
    }
}

fn decode_ellipse(j: &Json) -> (r: Result<Ellipse, DecodeError>)
    ensures
        r == ellipse_of(j@),
{
    match j {
        Json::Object(es) => {
            let origin = match point_field_value(es, "origin") {
                Ok(v) => v,
                Err(e) => return Err(e),
            };
            let rx = match int_field_value(es, "radius_x", 0, U32_HIGH) {
                Ok(v) => v,
                Err(e) => return Err(e),
            };
            let ry = match int_field_value(es, "radius_y", 0, U32_HIGH) {
                Ok(v) => v,
                Err(e) => return Err(e),
            };
            Ok(Ellipse { origin, radius_x: rx as u32, radius_y: ry as u32 })
        },
        _ => Err(DecodeError::WrongKind),
    }
}

fn decode_rectangle(j: &Json) -> (r: Result<Rectangle, DecodeError>)
    ensures
        r == rectangle_of(j@),
{
    match j {
        Json::Object(es) => {
            let origin = match point_field_value(es, "origin") {
                Ok(v) => v,
                Err(e) => return Err(e),
            };
            let w = match int_field_value(es, "width", 0, U32_HIGH) {
                Ok(v) => v,
                Err(e) => return Err(e),
            };
            let h = match int_field_value(es, "height", 0, U32_HIGH) {
                Ok(v) => v,
                Err(e) => return Err(e),
            };
            Ok(Rectangle { origin, width: w as u32, height: h as u32 })
        },
        _ => Err(DecodeError::WrongKind),
    }
}

fn decode_line(j: &Json) -> (r: Result<Line, DecodeError>)
    ensures
        r == line_of(j@),
{
    match j {
        Json::Object(es) => {
            let from = match point_field_value(es, "from") {
                Ok(v) => v,
                Err(e) => return Err(e),
            };
            let to = match point_field_value(es, "to") {
                Ok(v) => v,
                Err(e) => return Err(e),
            };
            Ok(Line { from, to })
        },
        _ => Err(DecodeError::WrongKind),
    }
}

fn decode_viewport(j: &Json) -> (r: Result<Viewport, DecodeError>)
    ensures
        r == viewport_of(j@),
{
    match j {
        Json::Object(es) => {
            let from = match point_field_value(es, "from") {
                Ok(v) => v,
                Err(e) => return Err(e),
            };
            let to = match point_field_value(es, "to") {
                Ok(v) => v,
                Err(e) => return Err(e),
            };
            Ok(Viewport { from, to })
        },
        _ => Err(DecodeError::WrongKind),
    }
}

proof fn lemma_points_err_extends(xs: Seq<JsonView>, k: int)
    requires
        0 <= k <= xs.len(),
        points_of(xs.subrange(0, k)) is Err,
    ensures
        points_of(xs) == points_of(xs.subrange(0, k)),
    decreases xs.len() - k,
{
    if k < xs.len() {
        let next = xs.subrange(0, k + 1);
        assert(next.subrange(0, k) =~= xs.subrange(0, k));
        lemma_points_err_extends(xs, k + 1);
    } else {
        assert(xs.subrange(0, k) =~= xs);
    }
}

proof fn lemma_commands_err_extends(xs: Seq<JsonView>, k: int)
    requires
        0 <= k <= xs.len(),
        commands_of(xs.subrange(0, k)) is Err,
    ensures
        commands_of(xs) == commands_of(xs.subrange(0, k)),
    decreases xs.len() - k,
{
    if k < xs.len() {
        let next = xs.subrange(0, k + 1);
        assert(next.subrange(0, k) =~= xs.subrange(0, k));
        lemma_commands_err_extends(xs, k + 1);
    } else {
        assert(xs.subrange(0, k) =~= xs);
    }
}

proof fn lemma_shapes_err_extends(xs: Seq<JsonView>, k: int)
    requires
        0 <= k <= xs.len(),
        shapes_of(xs.subrange(0, k)) is Err,
    ensures
        shapes_of(xs) == shapes_of(xs.subrange(0, k)),
    decreases xs.len() - k,
{
    if k < xs.len() {
        let next = xs.subrange(0, k + 1);
        assert(next.subrange(0, k) =~= xs.subrange(0, k));
        lemma_shapes_err_extends(xs, k + 1);
    } else {
        assert(xs.subrange(0, k) =~= xs);
    }
}

fn decode_points(items: &Vec<Json>) -> (r: Result<Vec<Point>, DecodeError>)
    ensures
        match r {
            Ok(ps) => points_of(json_views(items@)) == Ok::<Seq<Point>, DecodeError>(ps@)
                && ps@.len() == items@.len(),
            Err(e) => points_of(json_views(items@)) == Err::<Seq<Point>, DecodeError>(e),
        },
{
    let ghost xs = json_views(items@);
    proof {
        lemma_json_views(items@);
        assert(xs.subrange(0, 0) =~= Seq::<JsonView>::empty());
    }
    let mut ps: Vec<Point> = Vec::new();
    let mut i: usize = 0;
    while i < items.len()
        invariant
            i <= items@.len(),
            xs == json_views(items@),
            xs.len() == items@.len(),
            ps@.len() == i,
            points_of(xs.subrange(0, i as int)) == Ok::<Seq<Point>, DecodeError>(ps@),
        decreases items@.len() - i,
    {
        proof {
            lemma_json_views(items@);
            let next = xs.subrange(0, i + 1);
            assert(next.subrange(0, i as int) =~= xs.subrange(0, i as int));
            assert(next[i as int] == json_view(items@[i as int]));
        }
        match decode_point(&items[i]) {
            Ok(p) => ps.push(p),
            Err(e) => {
                proof {
                    lemma_points_err_extends(xs, i + 1);
                }
                return Err(e);
            },
        }
        i = i + 1;
    }
    assert(xs.subrange(0, xs.len() as int) =~= xs);
    Ok(ps)
}

fn decode_point_tuple(j: &Json, n: usize) -> (r: Result<Vec<Point>, DecodeError>)
    ensures
        match r {
            Ok(ps) => point_tuple_of(j@, n as nat) == Ok::<Seq<Point>, DecodeError>(ps@)
                && ps@.len() == n,
            Err(e) => point_tuple_of(j@, n as nat) == Err::<Seq<Point>, DecodeError>(e),
        },
{
    match j {
        Json::Array(items) => {
            proof {
                lemma_json_views(items@);
            }
            if items.len() == n {
                decode_points(items)
            } else {
                Err(DecodeError::WrongKind)
            }
        },
        _ => Err(DecodeError::WrongKind),
    }
}

/// Decodes a path command.
pub fn decode_command(j: &Json) -> (r: Result<PathCommand, DecodeError>)
    ensures
        r == command_of(j@),
{
    match j {
        Json::Str(s) => if is_name(s, "EndOfPath") {
            Ok(PathCommand::EndOfPath)
        } else {
            Err(DecodeError::UnknownVariant)
        },
        Json::Object(es) => {
            proof {
                lemma_entries_view(es@);
            }
            if es.len() != 1 {
                return Err(DecodeError::UnknownVariant);
            }
            let tag = &es[0].0;
            let v = &es[0].1;
            if is_name(tag, "MoveTo") {
                match decode_point(v) {
                    Ok(p) => Ok(PathCommand::MoveTo(p)),
                    Err(e) => Err(e),
                }
            } else if is_name(tag, "LineTo") {
                match decode_point(v) {
                    Ok(p) => Ok(PathCommand::LineTo(p)),
                    Err(e) => Err(e),
                }
            } else if is_name(tag, "HorizontalLineTo") {
                match decode_int(v, I32_LOW, I32_HIGH) {
                    Ok(x) => Ok(PathCommand::HorizontalLineTo(x as i32)),
                    Err(e) => Err(e),
                }
            } else if is_name(tag, "VerticalLineTo") {
                match decode_int(v, I32_LOW, I32_HIGH) {
                    Ok(y) => Ok(PathCommand::VerticalLineTo(y as i32)),
                    Err(e) => Err(e),
                }
            } else if is_name(tag, "CubicCurveTo") {
                match decode_point_tuple(v, 3) {
                    Ok(ps) => Ok(PathCommand::CubicCurveTo(ps[0], ps[1], ps[2])),
                    Err(e) => Err(e),
                }
            } else if is_name(tag, "CubicCurveToShorthand") {
                match decode_point_tuple(v, 2) {
                    Ok(ps) => Ok(PathCommand::CubicCurveToShorthand(ps[0], ps[1])),
                    Err(e) => Err(e),
                }
            } else if is_name(tag, "QuadraticCurveTo") {
                match decode_point_tuple(v, 2) {
                    Ok(ps) => Ok(PathCommand::QuadraticCurveTo(ps[0], ps[1])),
                    Err(e) => Err(e),
                }
            } else if is_name(tag, "QuadraticCurveToShorthand") {
                match decode_point(v) {
                    Ok(p) => Ok(PathCommand::QuadraticCurveToShorthand(p)),
                    Err(e) => Err(e),
                }
            } else {
                Err(DecodeError::UnknownVariant)
            }
        },
        _ => Err(DecodeError::WrongKind),
    }
}

fn decode_commands(items: &Vec<Json>) -> (r: Result<Vec<PathCommand>, DecodeError>)
    ensures
        match r {
            Ok(cs) => commands_of(json_views(items@)) == Ok::<Seq<PathCommand>, DecodeError>(cs@),
            Err(e) => commands_of(json_views(items@)) == Err::<Seq<PathCommand>, DecodeError>(e),
        },
{
    let ghost xs = json_views(items@);
    proof {
        lemma_json_views(items@);
        assert(xs.subrange(0, 0) =~= Seq::<JsonView>::empty());
    }
    let mut cs: Vec<PathCommand> = Vec::new();
    let mut i: usize = 0;
    while i < items.len()
        invariant
            i <= items@.len(),
            xs == json_views(items@),
            xs.len() == items@.len(),
            commands_of(xs.subrange(0, i as int)) == Ok::<Seq<PathCommand>, DecodeError>(cs@),
        decreases items@.len() - i,
    {
        proof {
            lemma_json_views(items@);
            let next = xs.subrange(0, i + 1);
            assert(next.subrange(0, i as int) =~= xs.subrange(0, i as int));
            assert(next[i as int] == json_view(items@[i as int]));
        }
        match decode_command(&items[i]) {
            Ok(c) => cs.push(c),
            Err(e) => {
                proof {
                    lemma_commands_err_extends(xs, i + 1);
                }
                return Err(e);
            },
        }
        i = i + 1;
    }
    assert(xs.subrange(0, xs.len() as int) =~= xs);
    Ok(cs)
}

fn decode_shape_type(j: &Json) -> (r: Result<ShapeType, DecodeError>)
    ensures
        match r {
            Ok(t) => shape_type_of(j@) == Ok::<ShapeTypeView, DecodeError>(shape_type_view(t)),
            Err(e) => shape_type_of(j@) == Err::<ShapeTypeView, DecodeError>(e),
        },
    decreases j@,
{
    match j {
        Json::Object(es) => {
            proof {
                lemma_entries_view(es@);
            }
            if es.len() != 1 {
                return Err(DecodeError::UnknownVariant);
            }
            let tag = &es[0].0;
            let v = &es[0].1;
            if is_name(tag, "Ellipse") {
                match decode_ellipse(v) {
                    Ok(x) => Ok(ShapeType::Ellipse(x)),
                    Err(e) => Err(e),
                }
            } else if is_name(tag, "Rectangle") {
                match decode_rectangle(v) {
                    Ok(x) => Ok(ShapeType::Rectangle(x)),
                    Err(e) => Err(e),
                }
            } else if is_name(tag, "Line") {
                match decode_line(v) {
                    Ok(x) => Ok(ShapeType::Line(x)),
                    Err(e) => Err(e),
                }
            } else if is_name(tag, "Polyline") {
                match v {
                    Json::Array(items) => match decode_points(items) {
                        Ok(ps) => Ok(ShapeType::Polyline(Polyline(ps))),
                        Err(e) => Err(e),
                    },
                    _ => Err(DecodeError::WrongKind),
                }
            } else if is_name(tag, "Polygon") {
                match v {
                    Json::Array(items) => match decode_points(items) {
                        Ok(ps) => Ok(ShapeType::Polygon(Polygon(ps))),
                        Err(e) => Err(e),
                    },
                    _ => Err(DecodeError::WrongKind),
                }
            } else if is_name(tag, "Group") {
                match v {
                    Json::Array(items) => {
                        proof {
                            let ev = entries_view(es@);
                            assert(ev[0] == (es@[0].0@, json_view(es@[0].1)));
                            assert(decreases_to!(ev => ev[0]));
                        }
                        match decode_shapes(items) {
                            Ok(g) => Ok(ShapeType::Group(Group(g))),
                            Err(e) => Err(e),
                        }
                    },
                    _ => Err(DecodeError::WrongKind),
                }
            } else if is_name(tag, "Path") {
                match v {
                    Json::Array(items) => match decode_commands(items) {
                        Ok(cs) => Ok(ShapeType::Path(Path(cs))),
                        Err(e) => Err(e),
                    },
                    _ => Err(DecodeError::WrongKind),
                }
            } else {
                Err(DecodeError::UnknownVariant)
            }
        },
        _ => Err(DecodeError::WrongKind),
    }
}

/// Decodes a shape from its structured value.
pub fn decode_shape(j: &Json) -> (r: Result<Shape, DecodeError>)
    ensures
        match r {
            Ok(s) => shape_of(j@) == Ok::<ShapeView, DecodeError>(shape_view(s)),
            Err(e) => shape_of(j@) == Err::<ShapeView, DecodeError>(e),
        },
    decreases j@,
{
    match j {
        Json::Object(es) => {
            let t = match field_value(es, "shape") {
                Ok(t) => t,
                Err(e) => return Err(e),
            };
            proof {
                lemma_field_decreases(entries_view(es@), "shape"@);
            }
            let shape = match decode_shape_type(t) {
                Ok(x) => x,
                Err(e) => return Err(e),
            };
            let styles = match field_value(es, "styles") {
                Ok(sj) => match decode_styles(sj) {
                    Ok(x) => x,
                    Err(e) => return Err(e),
                },
                Err(e) => return Err(e),
            };
            Ok(Shape { shape, styles })
        },
        _ => Err(DecodeError::WrongKind),
    }
}

fn decode_shapes(items: &Vec<Json>) -> (r: Result<Vec<Box<Shape>>, DecodeError>)
    ensures
        match r {
            Ok(v) => shapes_of(json_views(items@)) == Ok::<Seq<ShapeView>, DecodeError>(
                shapes_view(v@),
            ),
            Err(e) => shapes_of(json_views(items@)) == Err::<Seq<ShapeView>, DecodeError>(e),
        },
    decreases json_views(items@),
{
    let ghost xs = json_views(items@);
    proof {
        lemma_json_views(items@);
        assert(xs.subrange(0, 0) =~= Seq::<JsonView>::empty());
    }
    let mut v: Vec<Box<Shape>> = Vec::new();
    let mut i: usize = 0;
    while i < items.len()
        invariant
            i <= items@.len(),
            xs == json_views(items@),
            xs.len() == items@.len(),
            shapes_of(xs.subrange(0, i as int)) == Ok::<Seq<ShapeView>, DecodeError>(
                shapes_view(v@),
            ),
        decreases items@.len() - i,
    {
        proof {
            lemma_json_views(items@);
            let next = xs.subrange(0, i + 1);
            assert(next.subrange(0, i as int) =~= xs.subrange(0, i as int));
            assert(next[i as int] == json_view(items@[i as int]));
            assert(decreases_to!(xs => xs[i as int]));
        }
        match decode_shape(&items[i]) {
            Ok(s) => {
                let ghost before = v@;
                v.push(Box::new(s));
                proof {
                    assert(v@.subrange(0, v@.len() - 1) =~= before);
                }
            },
            Err(e) => {
                proof {
                    lemma_shapes_err_extends(xs, i + 1);
                }
                return Err(e);
            },
        }
        i = i + 1;
    }
    assert(xs.subrange(0, xs.len() as int) =~= xs);
    Ok(v)
}

/// Decodes a scene from its structured value.
pub fn decode_svg(j: &Json) -> (r: Result<Svg, DecodeError>)
    ensures
        match r {
            Ok(s) => svg_of(j@) == Ok::<SvgView, DecodeError>(s@) && s.wf(),
            Err(e) => svg_of(j@) == Err::<SvgView, DecodeError>(e),
        },
{
    proof {
        lemma_svg_of_wf(j@);
    }
    match j {
        Json::Object(es) => {
            let viewport = match field_value(es, "viewport") {
                Ok(vj) => match decode_viewport(vj) {
                    Ok(x) => x,
                    Err(e) => return Err(e),
                },
                Err(e) => return Err(e),
            };
            let shapes = match field_value(es, "shapes") {
                Ok(Json::Array(items)) => match decode_shapes(items) {
                    Ok(x) => x,
                    Err(e) => return Err(e),
                },
                Ok(_) => return Err(DecodeError::WrongKind),
                Err(e) => return Err(e),
            };
            let svg = Svg { viewport, shapes };
            proof {
                lemma_svg_wf_view(svg);
            }
            Ok(svg)
        },
        _ => Err(DecodeError::WrongKind),
    }
}

// ----- what decoding yields is well formed -----
proof fn lemma_styles_of_wf(j: JsonView)
    ensures
        styles_of(j) is Ok ==> styles_of(j)->Ok_0.wf(),
{
}

proof fn lemma_shape_type_of_wf(j: JsonView)
    ensures
        shape_type_of(j) matches Ok(ShapeTypeView::Group(g)) ==> forall|i: int|
            0 <= i < g.len() ==> shape_view_wf(#[trigger] g[i]),
    decreases j,
{
    if let JsonView::Object(es) = j {
        if es.len() == 1 {
            if let JsonView::Array(items) = es[0].1 {
                assert(decreases_to!(es => es[0]));
                lemma_shapes_of_wf(items);
            }
        }
    }
}

proof fn lemma_shape_of_wf(j: JsonView)
    ensures
        shape_of(j) is Ok ==> shape_view_wf(shape_of(j)->Ok_0),
    decreases j,
{
    if let JsonView::Object(es) = j {
        if let Some(t) = field(es, "shape"@) {
            lemma_field_decreases(es, "shape"@);
            lemma_shape_type_of_wf(t);
        }
        if let Some(sj) = field(es, "styles"@) {
            lemma_styles_of_wf(sj);
        }
    }
}

proof fn lemma_shapes_of_wf(items: Seq<JsonView>)
    ensures
        shapes_of(items) is Ok ==> forall|i: int|
            0 <= i < shapes_of(items)->Ok_0.len() ==> shape_view_wf(
                #[trigger] shapes_of(items)->Ok_0[i],
            ),
    decreases items,
{
    if items.len() > 0 {
        lemma_shapes_of_wf(items.subrange(0, items.len() - 1));
        lemma_shape_of_wf(items[items.len() - 1]);
    }
}

/// A scene that decoding yields is well formed.
pub proof fn lemma_svg_of_wf(j: JsonView)
    ensures
        svg_of(j) is Ok ==> svg_of(j)->Ok_0.wf(),
{
    if let JsonView::Object(es) = j {
        if let Some(JsonView::Array(items)) = field(es, "shapes"@) {
            lemma_shapes_of_wf(items);
        }
    }
}

/// Round trip: for every well-formed scene `s`, decoding the structured
/// value that `encode_svg` gives for `s` succeeds and yields a scene equal
/// to `s`, field for field, sequences in order and groups at every depth.
pub proof fn lemma_round_trip(s: Svg)
    requires
        s.wf(),
    ensures
        svg_of(svg_json(s@)) == Ok::<SvgView, DecodeError>(s@),
{
    lemma_svg_wf_view(s);
    lemma_svg_round_trip(s@);
}

} // verus!
