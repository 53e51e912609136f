use vstd::prelude::*;

use crate::export::{command_text, point_text, tabs_text, write_point};
use crate::export::export_path_element;
use crate::shapes::{
    shape_height, shapes_height, Ellipse, Group, Line, Path, PathCommand, Polygon, Polyline,
    Rectangle, Shape, ShapeType, Svg, Viewport,
};
use crate::styles::{Color, Rotate, Styles};
use crate::utils::{nat_text, write_nat, Point};

verus! {

broadcast use vstd::std_specs::vec::axiom_vec_decreases_to_view;

/// The short text that the editor shows for a value while it is edited.
pub trait Print {
    /// The text, for a value shown at nesting depth `depth`.
    spec fn preview(&self, depth: nat) -> Seq<char>;

    /// How deep groups nest inside the value.
    spec fn nesting(&self) -> nat;

    fn print(&self, depth: u32) -> (r: String)
        requires
            depth + self.nesting() <= u32::MAX,
        ensures
            r@ == self.preview(depth as nat),
    ;
}

pub open spec fn color_preview(c: Color) -> Seq<char> {
    "rgba("@ + nat_text(c.red as nat) + ", "@ + nat_text(c.green as nat) + ", "@ + nat_text(
        c.blue as nat,
    ) + ", "@ + nat_text(c.transparency as nat) + ")"@
}

pub open spec fn rotate_preview(r: Rotate) -> Seq<char> {
    match r {
        Rotate::Circular(d) => nat_text(d as nat),
        Rotate::Flipx => "x"@,
        Rotate::Flipy => "y"@,
    }
}

pub open spec fn styles_preview(s: Styles) -> Seq<char> {
    "fill=\""@ + color_preview(s.fill) + "\" outline=\""@ + color_preview(s.outline)
        + "\" translate=\""@ + point_text(s.translate) + "\" rotate=\""@ + rotate_preview(s.rotate)
        + "\""@
}

pub open spec fn ellipse_preview(e: Ellipse) -> Seq<char> {
    "<ellipse origin=\""@ + point_text(e.origin) + "\" radius_x=\""@ + nat_text(e.radius_x as nat)
        + "\" radius_y=\""@ + nat_text(e.radius_y as nat) + "\" "@
}

pub open spec fn rectangle_preview(r: Rectangle) -> Seq<char> {
    "<rectangle origin=\""@ + point_text(r.origin) + "\" width=\""@ + nat_text(r.width as nat)
        + "\" height=\""@ + nat_text(r.height as nat) + "\" "@
}

pub open spec fn line_preview(l: Line) -> Seq<char> {
    "<line from=\""@ + point_text(l.from) + "\" to=\""@ + point_text(l.to) + "\" "@
}

/// Each point followed by `, `.
pub open spec fn point_list_preview(ps: Seq<Point>) -> Seq<char>
    decreases ps.len(),
{
    if ps.len() == 0 {
        Seq::empty()
    } else {
        point_list_preview(ps.subrange(0, ps.len() - 1)) + point_text(ps[ps.len() - 1]) + ", "@
    }
}

/// Each command followed by a space.
pub open spec fn command_list_preview(cs: Seq<PathCommand>) -> Seq<char>
    decreases cs.len(),
{
    if cs.len() == 0 {
        Seq::empty()
    } else {
        command_list_preview(cs.subrange(0, cs.len() - 1)) + command_text(cs[cs.len() - 1])
            + " "@
    }
}

pub open spec fn path_preview(p: Path, depth: nat) -> Seq<char> {
    tabs_text(depth) + "<path d=\""@ + command_list_preview(p.0@) + "\" "@
}

pub open spec fn shape_preview(s: Shape, depth: nat) -> Seq<char>
    decreases s,
{
    match s.shape {
        ShapeType::Group(g) => tabs_text(depth) + "<group "@ + styles_preview(s.styles) + ">\n"@
            + shapes_preview(g.0@, depth + 1) + tabs_text(depth) + "<group />\n"@,
        _ => tabs_text(depth) + item_preview(s.shape, depth) + styles_preview(s.styles)
            + " />\n"@,
    }
}

pub open spec fn shapes_preview(v: Seq<Box<Shape>>, depth: nat) -> Seq<char>
    decreases v,
{
    if v.len() == 0 {
        Seq::empty()
    } else {
        shapes_preview(v.subrange(0, v.len() - 1), depth) + shape_preview(*v[v.len() - 1], depth)
    }
}

pub open spec fn viewport_preview(v: Viewport) -> Seq<char> {
    "viewport=\""@ + point_text(v.from) + " "@ + point_text(v.to) + "\""@
}

pub open spec fn svg_preview(s: Svg) -> Seq<char> {
    "<svg "@ + viewport_preview(s.viewport) + " />\n"@ + shapes_preview(s.shapes@, 1) + "</svg>\n"@
}

/// Appends two spaces `depth` times.
pub fn print_tabs(out: &mut String, depth: u32)
    ensures
        final(out)@ == old(out)@ + tabs_text(depth as nat),
{
    let mut i: u32 = 0;
    while i < depth
        invariant
            i <= depth,
            out@ == old(out)@ + tabs_text(i as nat),
        decreases depth - i,
    {
        out.append("  ");
        i = i + 1;
        assert(out@ =~= old(out)@ + tabs_text(i as nat));
    }
}

fn write_color_preview(out: &mut String, c: &Color)
    ensures
        final(out)@ == old(out)@ + color_preview(*c),
{
    out.append("rgba(");
    write_nat(out, c.red as u64);
    out.append(", ");
    write_nat(out, c.green as u64);
    out.append(", ");
    write_nat(out, c.blue as u64);
    out.append(", ");
    write_nat(out, c.transparency as u64);
    out.append(")");
    assert(out@ =~= old(out)@ + color_preview(*c));
}

fn write_rotate_preview(out: &mut String, r: &Rotate)
    ensures
        final(out)@ == old(out)@ + rotate_preview(*r),
{
    match r {
        Rotate::Circular(d) => write_nat(out, *d as u64),
        Rotate::Flipx => out.append("x"),
        Rotate::Flipy => out.append("y"),
    }
}

fn write_styles_preview(out: &mut String, s: &Styles)
    ensures
        final(out)@ == old(out)@ + styles_preview(*s),
{
    out.append("fill=\"");
    write_color_preview(out, &s.fill);
    out.append("\" outline=\"");
    write_color_preview(out, &s.outline);
    out.append("\" translate=\"");
    write_point(out, &s.translate);
    out.append("\" rotate=\"");
    write_rotate_preview(out, &s.rotate);
    out.append("\"");
    assert(out@ =~= old(out)@ + styles_preview(*s));
}

fn write_point_list_preview(out: &mut String, ps: &Vec<Point>)
    ensures
        final(out)@ == old(out)@ + point_list_preview(ps@),
{
    let mut i: usize = 0;
    while i < ps.len()
        invariant
            i <= ps@.len(),
            out@ == old(out)@ + point_list_preview(ps@.subrange(0, i as int)),
        decreases ps@.len() - i,
    {
        write_point(out, &ps[i]);
        out.append(", ");
        proof {
            let next = ps@.subrange(0, i + 1);
            assert(next.subrange(0, i as int) =~= ps@.subrange(0, i as int));
        }
        i = i + 1;
        assert(out@ =~= old(out)@ + point_list_preview(ps@.subrange(0, i as int)));
    }
    assert(ps@.subrange(0, ps@.len() as int) =~= ps@);
}

fn write_path_preview(out: &mut String, p: &Path, depth: u32)
    ensures
        final(out)@ == old(out)@ + path_preview(*p, depth as nat),
{
    print_tabs(out, depth);
    out.append("<path d=\"");
    let ghost start = out@;
    let mut i: usize = 0;
    while i < p.0.len()
        invariant
            i <= p.0@.len(),
            out@ == start + command_list_preview(p.0@.subrange(0, i as int)),
        decreases p.0@.len() - i,
    {
        export_path_element(out, &p.0[i]);
        out.append(" ");
        proof {
            let next = p.0@.subrange(0, i + 1);
            assert(next.subrange(0, i as int) =~= p.0@.subrange(0, i as int));
        }
        i = i + 1;
        assert(out@ =~= start + command_list_preview(p.0@.subrange(0, i as int)));
    }
    assert(p.0@.subrange(0, p.0@.len() as int) =~= p.0@);
    out.append("\" ");
    assert(out@ =~= old(out)@ + path_preview(*p, depth as nat));
}

/// The preview of a shape's geometry, for a shape that is no group.
pub open spec fn item_preview(t: ShapeType, depth: nat) -> Seq<char> {
    match t {
        ShapeType::Ellipse(e) => ellipse_preview(e),
        ShapeType::Rectangle(r) => rectangle_preview(r),
        ShapeType::Line(l) => line_preview(l),
        ShapeType::Polyline(p) => "<polyline points=\""@ + point_list_preview(p.0@) + "\" "@,
        ShapeType::Polygon(p) => "<polygon points=\""@ + point_list_preview(p.0@) + "\" "@,
        ShapeType::Path(p) => path_preview(p, depth),
        ShapeType::Group(_) => Seq::empty(),
    }
}

fn write_item_preview(out: &mut String, t: &ShapeType, depth: u32)
    ensures
        final(out)@ == old(out)@ + item_preview(*t, depth as nat),
{
    match t {
        ShapeType::Ellipse(e) => {
            out.append("<ellipse origin=\"");
            write_point(out, &e.origin);
            out.append("\" radius_x=\"");
            write_nat(out, e.radius_x as u64);
            out.append("\" radius_y=\"");
            write_nat(out, e.radius_y as u64);
            out.append("\" ");
            assert(out@ =~= old(out)@ + item_preview(*t, depth as nat));
        },
        ShapeType::Rectangle(r) => {
            out.append("<rectangle origin=\"");
            write_point(out, &r.origin);
            out.append("\" width=\"");
            write_nat(out, r.width as u64);
            out.append("\" height=\"");
            write_nat(out, r.height as u64);
            out.append("\" ");
            assert(out@ =~= old(out)@ + item_preview(*t, depth as nat));
        },
        ShapeType::Line(l) => {
            out.append("<line from=\"");
            write_point(out, &l.from);
            out.append("\" to=\"");
            write_point(out, &l.to);
            out.append("\" ");
            assert(out@ =~= old(out)@ + item_preview(*t, depth as nat));
        },
        ShapeType::Polyline(p) => {
            out.append("<polyline points=\"");
            write_point_list_preview(out, &p.0);
            out.append("\" ");
            assert(out@ =~= old(out)@ + item_preview(*t, depth as nat));
        },
        ShapeType::Polygon(p) => {
            out.append("<polygon points=\"");
            write_point_list_preview(out, &p.0);
            out.append("\" ");
            assert(out@ =~= old(out)@ + item_preview(*t, depth as nat));
        },
        ShapeType::Path(p) => write_path_preview(out, p, depth),
        ShapeType::Group(_) => assert(out@ =~= old(out)@ + item_preview(*t, depth as nat)),
    }
}

fn write_shape_preview(out: &mut String, s: &Shape, depth: u32)
    requires
        depth + shape_height(*s) <= u32::MAX,
    ensures
        final(out)@ == old(out)@ + shape_preview(*s, depth as nat),
    decreases s,
{
    print_tabs(out, depth);
    match &s.shape {
        ShapeType::Group(g) => {
            out.append("<group ");
            write_styles_preview(out, &s.styles);
            out.append(">\n");
            write_shapes_preview(out, &g.0, depth + 1);
            print_tabs(out, depth);
            out.append("<group />\n");
        },
        _ => {
            write_item_preview(out, &s.shape, depth);
            write_styles_preview(out, &s.styles);
            out.append(" />\n");
        },
    }
    assert(out@ =~= old(out)@ + shape_preview(*s, depth as nat));
}

fn write_shapes_preview(out: &mut String, v: &Vec<Box<Shape>>, depth: u32)
    requires
        depth + shapes_height(v@) <= u32::MAX,
    ensures
        final(out)@ == old(out)@ + shapes_preview(v@, depth as nat),
    decreases v@,
{
    let mut i: usize = 0;
    while i < v.len()
        invariant
            i <= v@.len(),
            depth + shapes_height(v@) <= u32::MAX,
            out@ == old(out)@ + shapes_preview(v@.subrange(0, i as int), depth as nat),
        decreases v@.len() - i,
    {
        proof {
            crate::export::lemma_shapes_height_bounds(v@, i as int);
            assert(decreases_to!(v@ => v@[i as int]));
        }
        write_shape_preview(out, &v[i], depth);
        proof {
            let next = v@.subrange(0, i + 1);
            assert(next.subrange(0, i as int) =~= v@.subrange(0, i as int));
            assert(next[i as int] == v@[i as int]);
        }
        i = i + 1;
    }
    assert(v@.subrange(0, v@.len() as int) =~= v@);
}

impl Print for Point {
    open spec fn preview(&self, depth: nat) -> Seq<char> {
        point_text(*self)
    }

    open spec fn nesting(&self) -> nat {
        0
    }

    fn print(&self, depth: u32) -> (r: String) {
        let mut out = String::new();
        write_point(&mut out, self);
        out
    }
}

impl Print for Color {
    open spec fn preview(&self, depth: nat) -> Seq<char> {
        color_preview(*self)
    }

    open spec fn nesting(&self) -> nat {
        0
    }

    fn print(&self, depth: u32) -> (r: String) {
        let mut out = String::new();
        write_color_preview(&mut out, self);
        out
    }
}

impl Print for Rotate {
    open spec fn preview(&self, depth: nat) -> Seq<char> {
        rotate_preview(*self)
    }

    open spec fn nesting(&self) -> nat {
        0
    }

    fn print(&self, depth: u32) -> (r: String) {
        let mut out = String::new();
        write_rotate_preview(&mut out, self);
        out
    }
}

impl Print for Styles {
    open spec fn preview(&self, depth: nat) -> Seq<char> {
        styles_preview(*self)
    }

    open spec fn nesting(&self) -> nat {
        0
    }

    fn print(&self, depth: u32) -> (r: String) {
        let mut out = String::new();
        write_styles_preview(&mut out, self);
        out
    }
}

impl Print for Ellipse {
    open spec fn preview(&self, depth: nat) -> Seq<char> {
        item_preview(ShapeType::Ellipse(*self), depth)
    }

    open spec fn nesting(&self) -> nat {
        0
    }

    fn print(&self, depth: u32) -> (r: String) {
        let mut out = String::new();
        write_item_preview(&mut out, &ShapeType::Ellipse(*self), depth);
        out
    }
}

impl Print for Rectangle {
    open spec fn preview(&self, depth: nat) -> Seq<char> {
        item_preview(ShapeType::Rectangle(*self), depth)
    }

    open spec fn nesting(&self) -> nat {
        0
    }

    fn print(&self, depth: u32) -> (r: String) {
        let mut out = String::new();
        write_item_preview(&mut out, &ShapeType::Rectangle(*self), depth);
        out
    }
}

impl Print for Line {
    open spec fn preview(&self, depth: nat) -> Seq<char> {
        item_preview(ShapeType::Line(*self), depth)
    }

    open spec fn nesting(&self) -> nat {
        0
    }

    fn print(&self, depth: u32) -> (r: String) {
        let mut out = String::new();
        write_item_preview(&mut out, &ShapeType::Line(*self), depth);
        out
    }
}

impl Print for Polyline {
    open spec fn preview(&self, depth: nat) -> Seq<char> {
        "<polyline points=\""@ + point_list_preview(self.0@) + "\" "@
    }

    open spec fn nesting(&self) -> nat {
        0
    }

    fn print(&self, depth: u32) -> (r: String) {
        let mut out = String::new();
        out.append("<polyline points=\"");
        write_point_list_preview(&mut out, &self.0);
        out.append("\" ");
        assert(out@ =~= self.preview(depth as nat));
        out
    }
}

impl Print for Polygon {
    open spec fn preview(&self, depth: nat) -> Seq<char> {
        "<polygon points=\""@ + point_list_preview(self.0@) + "\" "@
    }

    open spec fn nesting(&self) -> nat {
        0
    }

    fn print(&self, depth: u32) -> (r: String) {
        let mut out = String::new();
        out.append("<polygon points=\"");
        write_point_list_preview(&mut out, &self.0);
        out.append("\" ");
        assert(out@ =~= self.preview(depth as nat));
        out
    }
}

impl Print for PathCommand {
    open spec fn preview(&self, depth: nat) -> Seq<char> {
        command_text(*self)
    }

    open spec fn nesting(&self) -> nat {
        0
    }

    fn print(&self, depth: u32) -> (r: String) {
        let mut out = String::new();
        export_path_element(&mut out, self);
        out
    }
}

impl Print for Path {
    open spec fn preview(&self, depth: nat) -> Seq<char> {
        path_preview(*self, depth)
    }

    open spec fn nesting(&self) -> nat {
        0
    }

    fn print(&self, depth: u32) -> (r: String) {
        let mut out = String::new();
        write_path_preview(&mut out, self, depth);
        out
    }
}

impl Print for Group {
    open spec fn preview(&self, depth: nat) -> Seq<char> {
        shapes_preview(self.0@, depth + 1)
    }

    open spec fn nesting(&self) -> nat {
        1 + shapes_height(self.0@)
    }

    fn print(&self, depth: u32) -> (r: String) {
        let mut out = String::new();
        write_shapes_preview(&mut out, &self.0, depth + 1);
        out
    }
}

impl Print for Shape {
    open spec fn preview(&self, depth: nat) -> Seq<char> {
        shape_preview(*self, depth)
    }

    open spec fn nesting(&self) -> nat {
        shape_height(*self)
    }

    fn print(&self, depth: u32) -> (r: String) {
        let mut out = String::new();
        write_shape_preview(&mut out, self, depth);
        out
    }
}

impl Print for Viewport {
    open spec fn preview(&self, depth: nat) -> Seq<char> {
        viewport_preview(*self)
    }

    open spec fn nesting(&self) -> nat {
        0
    }

    fn print(&self, depth: u32) -> (r: String) {
        let mut out = String::new();
        out.append("viewport=\"");
        write_point(&mut out, &self.from);
        out.append(" ");
        write_point(&mut out, &self.to);
        out.append("\"");
        assert(out@ =~= self.preview(depth as nat));
        out
    }
}

impl Print for Svg {
    open spec fn preview(&self, depth: nat) -> Seq<char> {
        svg_preview(*self)
    }

    open spec fn nesting(&self) -> nat {
        1 + shapes_height(self.shapes@)
    }

    fn print(&self, depth: u32) -> (r: String) {
        let mut out = String::new();
        out.append("<svg ");
        out.append("viewport=\"");
        write_point(&mut out, &self.viewport.from);
        out.append(" ");
        write_point(&mut out, &self.viewport.to);
        out.append("\"");
        out.append(" />\n");
        write_shapes_preview(&mut out, &self.shapes, 1);
        out.append("</svg>\n");
        assert(out@ =~= self.preview(depth as nat));
        out
    }
}

} // verus!
