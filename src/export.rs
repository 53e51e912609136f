use vstd::prelude::*;

use crate::shapes::{
    lemma_shapes_view, shape_height, shape_type_view, shape_view, shapes_height, shapes_view,
    ShapeTypeView, Ellipse, Group, Line, Path, PathCommand, Polygon, Polyline,
    Rectangle, Shape, ShapeType, Svg, SvgView,
};
use crate::codec::{lemma_round_trip, svg_json, svg_of, DecodeError};
use crate::styles::{Color, Rotate, Styles};
use crate::utils::{int_text, nat_text, write_int, write_nat, Point};

verus! {

broadcast use vstd::std_specs::vec::axiom_vec_decreases_to_view;

/// Two spaces for each level of depth.
pub open spec fn tabs_text(n: nat) -> Seq<char>
    decreases n,
{
    if n == 0 {
        Seq::empty()
    } else {
        tabs_text((n - 1) as nat) + "  "@
    }
}

/// A point as markup: `x y`.
pub open spec fn point_text(p: Point) -> Seq<char> {
    int_text(p.x as int) + " "@ + int_text(p.y as int)
}

/// A color as markup: `rgba(r,g,b,a)`.
pub open spec fn color_text(c: Color) -> Seq<char> {
    "rgba("@ + nat_text(c.red as nat) + ","@ + nat_text(c.green as nat) + ","@ + nat_text(
        c.blue as nat,
    ) + ","@ + nat_text(c.transparency as nat) + ")"@
}

/// A rotation as a transform function.
pub open spec fn rotate_text(r: Rotate) -> Seq<char> {
    match r {
        Rotate::Circular(d) => "rotate("@ + nat_text(d as nat) + " deg)"@,
        Rotate::Flipx => "rotateX(180)"@,
        Rotate::Flipy => "rotateY(180)"@,
    }
}

/// The style attributes of an element.
pub open spec fn styles_text(s: Styles) -> Seq<char> {
    "fill=\""@ + color_text(s.fill) + "\" outline=\""@ + color_text(s.outline)
        + "\" transform=\"translate("@ + point_text(s.translate) + ") "@ + rotate_text(s.rotate)
        + "\""@
}

/// The closing of an element line: its styles, then ` />` and a newline.
pub open spec fn element_end_text(st: Styles) -> Seq<char> {
    styles_text(st) + " />\n"@
}

pub open spec fn ellipse_text(e: Ellipse, st: Styles, d: nat) -> Seq<char> {
    tabs_text(d) + "<ellipse cx=\""@ + int_text(e.origin.x as int) + "\" cy=\""@ + int_text(
        e.origin.y as int,
    ) + "\" rx=\""@ + nat_text(e.radius_x as nat) + "\" ry=\""@ + nat_text(e.radius_y as nat)
        + "\" "@ + element_end_text(st)
}

pub open spec fn rectangle_text(r: Rectangle, st: Styles, d: nat) -> Seq<char> {
    tabs_text(d) + "<rect x=\""@ + int_text(r.origin.x as int) + "\" y=\""@ + int_text(
        r.origin.y as int,
    ) + "\" width=\""@ + nat_text(r.width as nat) + "\" height=\""@ + nat_text(r.height as nat)
        + "\" "@ + element_end_text(st)
}

pub open spec fn line_text(l: Line, st: Styles, d: nat) -> Seq<char> {
    tabs_text(d) + "<line x1=\""@ + int_text(l.from.x as int) + "\" y1=\""@ + int_text(
        l.from.y as int,
    ) + "\" x2=\""@ + int_text(l.to.x as int) + "\" y2=\""@ + int_text(l.to.y as int) + "\" "@
        + element_end_text(st)
}

/// Points separated by single spaces.
pub open spec fn points_text(ps: Seq<Point>) -> Seq<char>
    decreases ps.len(),
{
    if ps.len() == 0 {
        Seq::empty()
    } else if ps.len() == 1 {
        point_text(ps[0])
    } else {
        points_text(ps.subrange(0, ps.len() - 1)) + " "@ + point_text(ps[ps.len() - 1])
    }
}

pub open spec fn polyline_text(p: Polyline, st: Styles, d: nat) -> Seq<char> {
    tabs_text(d) + "<polyline points=\""@ + points_text(p.0@) + "\" "@ + element_end_text(st)
}

pub open spec fn polygon_text(p: Polygon, st: Styles, d: nat) -> Seq<char> {
    tabs_text(d) + "<polygon points=\""@ + points_text(p.0@) + "\" "@ + element_end_text(st)
}

/// A path command: its letter, then its numbers.
pub open spec fn command_text(c: PathCommand) -> Seq<char> {
    match c {
        PathCommand::MoveTo(p) => "M "@ + point_text(p),
        PathCommand::LineTo(p) => "L "@ + point_text(p),
        PathCommand::HorizontalLineTo(x) => "H "@ + int_text(x as int),
        PathCommand::VerticalLineTo(y) => "V "@ + int_text(y as int),
        PathCommand::CubicCurveTo(a, b, c) => "C "@ + point_text(a) + " "@ + point_text(b) + " "@
            + point_text(c),
        PathCommand::CubicCurveToShorthand(a, b) => "S "@ + point_text(a) + " "@ + point_text(b),
        PathCommand::QuadraticCurveTo(a, b) => "Q "@ + point_text(a) + " "@ + point_text(b),
        PathCommand::QuadraticCurveToShorthand(a) => "T "@ + point_text(a),
        PathCommand::EndOfPath => "Z"@,
    }
}

/// Path commands separated by single spaces.
pub open spec fn commands_text(cs: Seq<PathCommand>) -> Seq<char>
    decreases cs.len(),
{
    if cs.len() == 0 {
        Seq::empty()
    } else if cs.len() == 1 {
        command_text(cs[0])
    } else {
        commands_text(cs.subrange(0, cs.len() - 1)) + " "@ + command_text(cs[cs.len() - 1])
    }
}

pub open spec fn path_text(p: Path, st: Styles, d: nat) -> Seq<char> {
    tabs_text(d) + "<path d=\""@ + commands_text(p.0@) + "\" "@ + element_end_text(st)
}

/// A group: its opening tag, its shapes one level deeper, its closing tag.
pub open spec fn group_text(g: Group, st: Styles, d: nat) -> Seq<char>
    decreases g,
{
    tabs_text(d) + "<g "@ + styles_text(st) + ">\n"@ + shapes_text(g.0@, d + 1) + tabs_text(d)
        + "</g>\n"@
}

/// The markup of a shape at depth `d`.
pub open spec fn shape_text(s: Shape, d: nat) -> Seq<char>
    decreases s,
{
    match s.shape {
        ShapeType::Ellipse(e) => ellipse_text(e, s.styles, d),
        ShapeType::Rectangle(r) => rectangle_text(r, s.styles, d),
        ShapeType::Line(l) => line_text(l, s.styles, d),
        ShapeType::Polyline(p) => polyline_text(p, s.styles, d),
        ShapeType::Polygon(p) => polygon_text(p, s.styles, d),
        ShapeType::Group(g) => group_text(g, s.styles, d),
        ShapeType::Path(p) => path_text(p, s.styles, d),
    }
}

/// The markup of a sequence of shapes at depth `d`, one after the other.
pub open spec fn shapes_text(v: Seq<Box<Shape>>, d: nat) -> Seq<char>
    decreases v,
{
    if v.len() == 0 {
        Seq::empty()
    } else {
        shapes_text(v.subrange(0, v.len() - 1), d) + shape_text(*v[v.len() - 1], d)
    }
}

/// The opening tag of a scene.
pub open spec fn svg_open_text(svg: Svg) -> Seq<char> {
    "<svg xmlns=\"http://www.w3.org/2000/svg\" viewport=\""@ + point_text(svg.viewport.from)
        + " "@ + point_text(svg.viewport.to) + "\">\n"@
}

/// The markup of a whole scene.
pub open spec fn svg_text(svg: Svg) -> Seq<char> {
    svg_open_text(svg) + shapes_text(svg.shapes@, 1) + "</svg>\n"@
}

/// Appends the markup of a point: `x y`.
pub fn write_point(out: &mut String, p: &Point)
    ensures
        final(out)@ == old(out)@ + point_text(*p),
{
    write_int(out, p.x);
    out.append(" ");
    write_int(out, p.y);
    assert(out@ =~= old(out)@ + point_text(*p));
}

/// Appends the markup of a color.
pub fn write_color(out: &mut String, color: &Color)
    ensures
        final(out)@ == old(out)@ + color_text(*color),
{
    out.append("rgba(");
    write_nat(out, color.red as u64);
    out.append(",");
    write_nat(out, color.green as u64);
    out.append(",");
    write_nat(out, color.blue as u64);
    out.append(",");
    write_nat(out, color.transparency as u64);
    out.append(")");
    assert(out@ =~= old(out)@ + color_text(*color));
}

/// Appends the markup of a rotation.
pub fn write_rotate(out: &mut String, rotate: &Rotate)
    ensures
        final(out)@ == old(out)@ + rotate_text(*rotate),
{
    match rotate {
        Rotate::Circular(degree) => {
            out.append("rotate(");
            write_nat(out, *degree as u64);
            out.append(" deg)");
        },
        Rotate::Flipx => out.append("rotateX(180)"),
        Rotate::Flipy => out.append("rotateY(180)"),
    }
    assert(out@ =~= old(out)@ + rotate_text(*rotate));
}

/// Appends the style attributes of an element.
pub fn export_styles(out: &mut String, styles: &Styles)
    ensures
        final(out)@ == old(out)@ + styles_text(*styles),
{
    out.append("fill=\"");
    write_color(out, &styles.fill);
    out.append("\" outline=\"");
    write_color(out, &styles.outline);
    out.append("\" transform=\"translate(");
    write_point(out, &styles.translate);
    out.append(") ");
    write_rotate(out, &styles.rotate);
    out.append("\"");
    assert(out@ =~= old(out)@ + styles_text(*styles));
}

/// Appends two spaces `tabs` times.
fn write_tabs(out: &mut String, tabs: usize)
    ensures
        final(out)@ == old(out)@ + tabs_text(tabs as nat),
{
    let mut i: usize = 0;
    while i < tabs
        invariant
            i <= tabs,
            out@ == old(out)@ + tabs_text(i as nat),
        decreases tabs - i,
    {
        out.append("  ");
        i = i + 1;
        assert(out@ =~= old(out)@ + tabs_text(i as nat));
    }
}

fn write_element_end(out: &mut String, styles: &Styles)
    ensures
        final(out)@ == old(out)@ + element_end_text(*styles),
{
    export_styles(out, styles);
    out.append(" />\n");
    assert(out@ =~= old(out)@ + element_end_text(*styles));
}

/// Appends the markup of an ellipse at depth `tabs`.
pub fn export_ellipse(out: &mut String, ellipse: &Ellipse, styles: &Styles, tabs: usize)
    ensures
        final(out)@ == old(out)@ + ellipse_text(*ellipse, *styles, tabs as nat),
{
    write_tabs(out, tabs);
    out.append("<ellipse cx=\"");
    write_int(out, ellipse.origin.x);
    out.append("\" cy=\"");
    write_int(out, ellipse.origin.y);
    out.append("\" rx=\"");
    write_nat(out, ellipse.radius_x as u64);
    out.append("\" ry=\"");
    write_nat(out, ellipse.radius_y as u64);
    out.append("\" ");
    write_element_end(out, styles);
    assert(out@ =~= old(out)@ + ellipse_text(*ellipse, *styles, tabs as nat));
}

/// Appends the markup of a rectangle at depth `tabs`.
pub fn export_rectangle(out: &mut String, rectangle: &Rectangle, styles: &Styles, tabs: usize)
    ensures
        final(out)@ == old(out)@ + rectangle_text(*rectangle, *styles, tabs as nat),
{
    write_tabs(out, tabs);
    out.append("<rect x=\"");
    write_int(out, rectangle.origin.x);
    out.append("\" y=\"");
    write_int(out, rectangle.origin.y);
    out.append("\" width=\"");
    write_nat(out, rectangle.width as u64);
    out.append("\" height=\"");
    write_nat(out, rectangle.height as u64);
    out.append("\" ");
    write_element_end(out, styles);
    assert(out@ =~= old(out)@ + rectangle_text(*rectangle, *styles, tabs as nat));
}

/// Appends the markup of a line at depth `tabs`.
pub fn export_line(out: &mut String, line: &Line, styles: &Styles, tabs: usize)
    ensures
        final(out)@ == old(out)@ + line_text(*line, *styles, tabs as nat),
{
    write_tabs(out, tabs);
    out.append("<line x1=\"");
    write_int(out, line.from.x);
    out.append("\" y1=\"");
    write_int(out, line.from.y);
    out.append("\" x2=\"");
    write_int(out, line.to.x);
    out.append("\" y2=\"");
    write_int(out, line.to.y);
    out.append("\" ");
    write_element_end(out, styles);
    assert(out@ =~= old(out)@ + line_text(*line, *styles, tabs as nat));
}

/// Appends the points of a polyline or polygon, separated by spaces.
pub fn export_point_vector(out: &mut String, points: &Vec<Point>)
    ensures
        final(out)@ == old(out)@ + points_text(points@),
{
    let mut i: usize = 0;
    while i < points.len()
        invariant
            i <= points@.len(),
            out@ == old(out)@ + points_text(points@.subrange(0, i as int)),
        decreases points@.len() - i,
    {
        let ghost before = out@;
        if i > 0 {
            out.append(" ");
        }
        write_point(out, &points[i]);
        proof {
            let next = points@.subrange(0, i + 1);
            assert(next.subrange(0, i as int) =~= points@.subrange(0, i as int));
            assert(next[i as int] == points@[i as int]);
        }
        i = i + 1;
        assert(out@ =~= old(out)@ + points_text(points@.subrange(0, i as int)));
    }
    assert(points@.subrange(0, points@.len() as int) =~= points@);
}

/// Appends the markup of a polyline at depth `tabs`.
pub fn export_polyline(out: &mut String, polyline: &Polyline, styles: &Styles, tabs: usize)
    ensures
        final(out)@ == old(out)@ + polyline_text(*polyline, *styles, tabs as nat),
{
    write_tabs(out, tabs);
    out.append("<polyline points=\"");
    export_point_vector(out, &polyline.0);
    out.append("\" ");
    write_element_end(out, styles);
    assert(out@ =~= old(out)@ + polyline_text(*polyline, *styles, tabs as nat));
}

/// Appends the markup of a polygon at depth `tabs`.
pub fn export_polygon(out: &mut String, polygon: &Polygon, styles: &Styles, tabs: usize)
    ensures
        final(out)@ == old(out)@ + polygon_text(*polygon, *styles, tabs as nat),
{
    write_tabs(out, tabs);
    out.append("<polygon points=\"");
    export_point_vector(out, &polygon.0);
    out.append("\" ");
    write_element_end(out, styles);
    assert(out@ =~= old(out)@ + polygon_text(*polygon, *styles, tabs as nat));
}

/// Appends one path command: its letter and its numbers.
pub fn export_path_element(out: &mut String, element: &PathCommand)
    ensures
        final(out)@ == old(out)@ + command_text(*element),
{
    match element {
        PathCommand::MoveTo(point) => {
            out.append("M ");
            write_point(out, point);
        },
        PathCommand::LineTo(point) => {
            out.append("L ");
            write_point(out, point);
        },
        PathCommand::HorizontalLineTo(pos) => {
            out.append("H ");
            write_int(out, *pos);
        },
        PathCommand::VerticalLineTo(pos) => {
            out.append("V ");
            write_int(out, *pos);
        },
        PathCommand::CubicCurveTo(point, point1, point2) => {
            out.append("C ");
            write_point(out, point);
            out.append(" ");
            write_point(out, point1);
            out.append(" ");
            write_point(out, point2);
        },
        PathCommand::CubicCurveToShorthand(point, point1) => {
            out.append("S ");
            write_point(out, point);
            out.append(" ");
            write_point(out, point1);
        },
        PathCommand::QuadraticCurveTo(point, point1) => {
            out.append("Q ");
            write_point(out, point);
            out.append(" ");
            write_point(out, point1);
        },
        PathCommand::QuadraticCurveToShorthand(point) => {
            out.append("T ");
            write_point(out, point);
        },
        PathCommand::EndOfPath => {
            out.append("Z");
        },
    }
    assert(out@ =~= old(out)@ + command_text(*element));
}

/// Appends the markup of a path at depth `tabs`.
pub fn export_path(out: &mut String, path: &Path, styles: &Styles, tabs: usize)
    ensures
        final(out)@ == old(out)@ + path_text(*path, *styles, tabs as nat),
{
    write_tabs(out, tabs);
    out.append("<path d=\"");
    let ghost start = out@;
    let mut i: usize = 0;
    while i < path.0.len()
        invariant
            i <= path.0@.len(),
            out@ == start + commands_text(path.0@.subrange(0, i as int)),
        decreases path.0@.len() - i,
    {
        if i > 0 {
            out.append(" ");
        }
        export_path_element(out, &path.0[i]);
        proof {
            let next = path.0@.subrange(0, i + 1);
            assert(next.subrange(0, i as int) =~= path.0@.subrange(0, i as int));
            assert(next[i as int] == path.0@[i as int]);
        }
        i = i + 1;
        assert(out@ =~= start + commands_text(path.0@.subrange(0, i as int)));
    }
    assert(path.0@.subrange(0, path.0@.len() as int) =~= path.0@);
    out.append("\" ");
    write_element_end(out, styles);
    assert(out@ =~= old(out)@ + path_text(*path, *styles, tabs as nat));
}

/// The height of a sequence of shapes bounds that of each of them.
pub proof fn lemma_shapes_height_bounds(v: Seq<Box<Shape>>, i: int)
    requires
        0 <= i < v.len(),
    ensures
        shape_height(*v[i]) <= shapes_height(v),
    decreases v.len(),
{
    if i < v.len() - 1 {
        let w = v.subrange(0, v.len() - 1);
        lemma_shapes_height_bounds(w, i);
        assert(w[i] == v[i]);
    }
}

/// Appends the markup of a sequence of shapes, each at depth `tabs`.
pub fn export_shape_list(out: &mut String, shapes: &Vec<Box<Shape>>, tabs: usize)
    requires
        tabs + shapes_height(shapes@) <= usize::MAX,
    ensures
        final(out)@ == old(out)@ + shapes_text(shapes@, tabs as nat),
    decreases shapes@,
{
    let mut i: usize = 0;
    while i < shapes.len()
        invariant
            i <= shapes@.len(),
            tabs + shapes_height(shapes@) <= usize::MAX,
            out@ == old(out)@ + shapes_text(shapes@.subrange(0, i as int), tabs as nat),
        decreases shapes@.len() - i,
    {
        proof {
            lemma_shapes_height_bounds(shapes@, i as int);
            assert(decreases_to!(shapes@ => shapes@[i as int]));
        }
        export_shape(out, &shapes[i], tabs);
        proof {
            let next = shapes@.subrange(0, i + 1);
            assert(next.subrange(0, i as int) =~= shapes@.subrange(0, i as int));
            assert(next[i as int] == shapes@[i as int]);
        }
        i = i + 1;
    }
    assert(shapes@.subrange(0, shapes@.len() as int) =~= shapes@);
}

/// Appends the markup of a group at depth `tabs`, its shapes one level deeper.
pub fn export_group(out: &mut String, group: &Group, styles: &Styles, tabs: usize)
    requires
        tabs + 1 + shapes_height(group.0@) <= usize::MAX,
    ensures
        final(out)@ == old(out)@ + group_text(*group, *styles, tabs as nat),
    decreases group,
{
    let ghost head = tabs_text(tabs as nat) + "<g "@ + styles_text(*styles) + ">\n"@;
    let ghost body = shapes_text(group.0@, tabs as nat + 1);
    let ghost tail = tabs_text(tabs as nat) + "</g>\n"@;
    write_tabs(out, tabs);
    out.append("<g ");
    export_styles(out, styles);
    out.append(">\n");
    assert(out@ =~= old(out)@ + head);
    let ghost mid = out@;
    export_shape_list(out, &group.0, tabs + 1);
    assert(out@ == mid + body);
    write_tabs(out, tabs);
    out.append("</g>\n");
    assert(out@ =~= old(out)@ + head + body + tail);
    assert(group_text(*group, *styles, tabs as nat) =~= head + body + tail);
}

/// Appends the markup of a shape at depth `tabs`.
pub fn export_shape(out: &mut String, shape: &Shape, tabs: usize)
    requires
        tabs + shape_height(*shape) <= usize::MAX,
    ensures
        final(out)@ == old(out)@ + shape_text(*shape, tabs as nat),
    decreases shape,
{
    match &shape.shape {
        ShapeType::Ellipse(ellipse) => export_ellipse(out, ellipse, &shape.styles, tabs),
        ShapeType::Rectangle(rectangle) => export_rectangle(out, rectangle, &shape.styles, tabs),
        ShapeType::Line(line) => export_line(out, line, &shape.styles, tabs),
        ShapeType::Polyline(polyline) => export_polyline(out, polyline, &shape.styles, tabs),
        ShapeType::Polygon(polygon) => export_polygon(out, polygon, &shape.styles, tabs),
        ShapeType::Group(group) => export_group(out, group, &shape.styles, tabs),
        ShapeType::Path(path) => export_path(out, path, &shape.styles, tabs),
    }
}

/// Appends the markup of a whole scene.
pub fn export_svg(out: &mut String, svg: &Svg)
    requires
        1 + shapes_height(svg.shapes@) <= usize::MAX,
    ensures
        final(out)@ == old(out)@ + svg_text(*svg),
{
    out.append("<svg xmlns=\"http://www.w3.org/2000/svg\" viewport=\"");
    write_point(out, &svg.viewport.from);
    out.append(" ");
    write_point(out, &svg.viewport.to);
    out.append("\">\n");
    export_shape_list(out, &svg.shapes, 1);
    out.append("</svg>\n");
    assert(out@ =~= old(out)@ + svg_text(*svg));
}

// ----- laws of the markup -----
proof fn lemma_shape_text_by_value(a: Shape, b: Shape, d: nat)
    requires
        shape_view(a) == shape_view(b),
    ensures
        shape_text(a, d) == shape_text(b, d),
    decreases a,
{
    match (a.shape, b.shape) {
        (ShapeType::Group(ga), ShapeType::Group(gb)) => {
            assert(shape_type_view(a.shape) == ShapeTypeView::Group(shapes_view(ga.0@)));
            assert(shape_type_view(b.shape) == ShapeTypeView::Group(shapes_view(gb.0@)));
            lemma_shapes_text_by_value(ga.0@, gb.0@, d + 1);
        },
        (ShapeType::Polyline(pa), ShapeType::Polyline(pb)) => {
            assert(pa.0@ == pb.0@);
        },
        (ShapeType::Polygon(pa), ShapeType::Polygon(pb)) => {
            assert(pa.0@ == pb.0@);
        },
        (ShapeType::Path(pa), ShapeType::Path(pb)) => {
            assert(pa.0@ == pb.0@);
        },
        _ => {},
    }
}

proof fn lemma_shapes_text_by_value(a: Seq<Box<Shape>>, b: Seq<Box<Shape>>, d: nat)
    requires
        shapes_view(a) == shapes_view(b),
    ensures
        shapes_text(a, d) == shapes_text(b, d),
    decreases a,
{
    lemma_shapes_view(a);
    lemma_shapes_view(b);
    if a.len() > 0 {
        let n = a.len() - 1;
        let ia = a.subrange(0, n);
        let ib = b.subrange(0, n);
        lemma_shapes_view(ia);
        lemma_shapes_view(ib);
        assert(shapes_view(ia) =~= shapes_view(ib)) by {
            assert forall|i: int| 0 <= i < n implies shapes_view(ia)[i] == shapes_view(ib)[i] by {
                assert(ia[i] == a[i] && ib[i] == b[i]);
                assert(shapes_view(a)[i] == shapes_view(b)[i]);
                assert(shapes_view(a)[i] == shape_view(*a[i]));
                assert(shapes_view(b)[i] == shape_view(*b[i]));
                assert(shapes_view(ia)[i] == shape_view(*ia[i]));
                assert(shapes_view(ib)[i] == shape_view(*ib[i]));
            }
        }
        lemma_shapes_text_by_value(ia, ib, d);
        assert(shapes_view(a)[n] == shapes_view(b)[n]);
        assert(shapes_view(a)[n] == shape_view(*a[n]));
        assert(shapes_view(b)[n] == shape_view(*b[n]));
        lemma_shape_text_by_value(*a[n], *b[n], d);
    }
}

/// Emission depends on nothing but the scene: two scenes that are equal
/// field for field (in particular, one scene emitted twice) give
/// byte-identical markup.
pub proof fn lemma_emission_deterministic(a: Svg, b: Svg)
    requires
        a@ == b@,
    ensures
        svg_text(a) == svg_text(b),
{
    lemma_shapes_text_by_value(a.shapes@, b.shapes@, 1);
}

/// A group that holds one shape emits its opening tag at its own depth, the
/// shape one level (two spaces) deeper, and its closing tag at its own depth.
pub proof fn lemma_group_nesting(g: Group, styles: Styles, d: nat)
    requires
        g.0@.len() == 1,
    ensures
        group_text(g, styles, d) == tabs_text(d) + "<g "@ + styles_text(styles) + ">\n"@
            + shape_text(*g.0@[0], d + 1) + tabs_text(d) + "</g>\n"@,
        tabs_text(d + 1) == tabs_text(d) + "  "@,
{
    assert(g.0@.subrange(0, 0) =~= Seq::<Box<Shape>>::empty());
    assert(shapes_text(g.0@.subrange(0, 0), d + 1) == Seq::<char>::empty());
    assert(shapes_text(g.0@, d + 1) =~= shape_text(*g.0@[0], d + 1));
}

/// A scene without shapes emits its opening tag directly followed by its
/// closing tag, and its structured value decodes back to it.
pub proof fn lemma_empty_scene(s: Svg)
    requires
        s.shapes@.len() == 0,
    ensures
        svg_text(s) == svg_open_text(s) + "</svg>\n"@,
        svg_of(svg_json(s@)) == Ok::<SvgView, DecodeError>(s@),
{
    assert(svg_open_text(s) + Seq::<char>::empty() =~= svg_open_text(s));
    assert(s.wf());
    lemma_round_trip(s);
}

} // verus!
