use vstd::prelude::*;

use crate::styles::{default_styles, Styles};
use crate::utils::Point;

verus! {

broadcast use vstd::std_specs::vec::axiom_vec_decreases_to_view;

/// An ellipse given by its center and its two radii.
#[derive(Clone, Copy, Debug, PartialEq, Eq, Structural)]
pub struct Ellipse {
    pub origin: Point,
    pub radius_x: u32,
    pub radius_y: u32,
}

/// An axis-aligned rectangle given by its corner and its size.
#[derive(Clone, Copy, Debug, PartialEq, Eq, Structural)]
pub struct Rectangle {
    pub origin: Point,
    pub width: u32,
    pub height: u32,
}

/// A straight segment.
#[derive(Clone, Copy, Debug, PartialEq, Eq, Structural)]
pub struct Line {
    pub from: Point,
    pub to: Point,
}

/// An open chain of segments through its points, in order.
#[derive(Clone, Debug, PartialEq, Eq)]
pub struct Polyline(pub Vec<Point>);

/// A closed chain of segments through its points, in order.
#[derive(Clone, Debug, PartialEq, Eq)]
pub struct Polygon(pub Vec<Point>);

/// One drawing command of a path.
#[derive(Clone, Copy, Debug, PartialEq, Eq, Structural)]
pub enum PathCommand {
    MoveTo(Point),
    LineTo(Point),
    /// A horizontal line to an absolute x coordinate.
    HorizontalLineTo(i32),
    /// A vertical line to an absolute y coordinate.
    VerticalLineTo(i32),
    CubicCurveTo(Point, Point, Point),
    CubicCurveToShorthand(Point, Point),
    QuadraticCurveTo(Point, Point),
    QuadraticCurveToShorthand(Point),
    EndOfPath,
}

/// A path: its commands in drawing order.
#[derive(Clone, Debug, PartialEq, Eq)]
pub struct Path(pub Vec<PathCommand>);

/// A group of shapes that share the group's styles.
#[derive(Debug, PartialEq, Eq)]
pub struct Group(pub Vec<Box<Shape>>);

/// The kind of a shape with its geometry.
#[derive(Debug, PartialEq, Eq)]
pub enum ShapeType {
    Ellipse(Ellipse),
    Rectangle(Rectangle),
    Line(Line),
    Polyline(Polyline),
    Polygon(Polygon),
    Group(Group),
    Path(Path),
}

/// A shape: its geometry and its styles.
#[derive(Debug, PartialEq, Eq)]
pub struct Shape {
    pub shape: ShapeType,
    pub styles: Styles,
}

/// The window of the plane that a viewer shows.
#[derive(Clone, Copy, Debug, PartialEq, Eq, Structural)]
pub struct Viewport {
    pub from: Point,
    pub to: Point,
}

/// A scene: its viewport and its shapes, in drawing order.
#[derive(Debug, PartialEq, Eq)]
pub struct Svg {
    pub viewport: Viewport,
    pub shapes: Vec<Box<Shape>>,
}

/// A shape is well formed when its styles and those of every shape nested
/// in it are.
pub open spec fn shape_wf(s: Shape) -> bool
    decreases s,
{
    &&& s.styles.wf()
    &&& match s.shape {
        ShapeType::Group(g) => shapes_wf(g.0@),
        _ => true,
    }
}

/// Every shape of the sequence is well formed.
pub open spec fn shapes_wf(v: Seq<Box<Shape>>) -> bool
    decreases v,
{
    if v.len() == 0 {
        true
    } else {
        shapes_wf(v.subrange(0, v.len() - 1)) && shape_wf(*v[v.len() - 1])
    }
}

/// How deep groups nest inside a shape: zero for a shape that is no group.
pub open spec fn shape_height(s: Shape) -> nat
    decreases s,
{
    match s.shape {
        ShapeType::Group(g) => 1 + shapes_height(g.0@),
        _ => 0,
    }
}

/// The largest height of the shapes of a sequence.
pub open spec fn shapes_height(v: Seq<Box<Shape>>) -> nat
    decreases v,
{
    if v.len() == 0 {
        0
    } else {
        let a = shapes_height(v.subrange(0, v.len() - 1));
        let b = shape_height(*v[v.len() - 1]);
        if a >= b {
            a
        } else {
            b
        }
    }
}

impl Svg {
    /// A scene is well formed when all its shapes are.
    pub open spec fn wf(&self) -> bool {
        shapes_wf(self.shapes@)
    }
}

/// Every shape of the sequence is well formed, stated element by element.
pub proof fn lemma_shapes_wf_forall(v: Seq<Box<Shape>>)
    ensures
        shapes_wf(v) <==> forall|i: int| 0 <= i < v.len() ==> shape_wf(*#[trigger] v[i]),
    decreases v.len(),
{
    if v.len() > 0 {
        let w = v.subrange(0, v.len() - 1);
        lemma_shapes_wf_forall(w);
        assert forall|i: int| 0 <= i < w.len() implies w[i] == v[i] by {}
    }
}

/// A sequence of shapes nests no deeper than `room`, stated element by element.
pub proof fn lemma_shapes_height_forall(v: Seq<Box<Shape>>, room: nat)
    ensures
        shapes_height(v) <= room <==> forall|i: int|
            0 <= i < v.len() ==> shape_height(*#[trigger] v[i]) <= room,
    decreases v.len(),
{
    if v.len() > 0 {
        let w = v.subrange(0, v.len() - 1);
        lemma_shapes_height_forall(w, room);
        assert forall|i: int| 0 <= i < w.len() implies w[i] == v[i] by {}
    }
}

/// Tells whether a shape nests groups no deeper than `room`.
pub fn shape_fits_depth(shape: &Shape, room: usize) -> (r: bool)
    ensures
        r == (shape_height(*shape) <= room),
    decreases shape,
{
    match &shape.shape {
        ShapeType::Group(g) => room > 0 && shapes_fit_depth(&g.0, room - 1),
        _ => true,
    }
}

/// Tells whether a sequence of shapes nests groups no deeper than `room`.
pub fn shapes_fit_depth(shapes: &Vec<Box<Shape>>, room: usize) -> (r: bool)
    ensures
        r == (shapes_height(shapes@) <= room),
    decreases shapes@,
{
    proof {
        lemma_shapes_height_forall(shapes@, room as nat);
    }
    let mut i: usize = 0;
    while i < shapes.len()
        invariant
            i <= shapes@.len(),
            forall|j: int| 0 <= j < i ==> shape_height(*#[trigger] shapes@[j]) <= room,
        decreases shapes@.len() - i,
    {
        proof {
            assert(decreases_to!(shapes@ => shapes@[i as int]));
        }
        if !shape_fits_depth(&shapes[i], room) {
            proof {
                lemma_shapes_height_forall(shapes@, room as nat);
                assert(shape_height(*shapes@[i as int]) > room);
            }
            return false;
        }
        i = i + 1;
    }
    true
}

/// The error of an index that lies outside the sequence it is meant for.
#[derive(Clone, Copy, Debug, PartialEq, Eq, Structural)]
pub struct IndexError {
    pub index: usize,
    pub len: usize,
}

/// Inserts `item` before position `index`; `index` may equal the length,
/// which appends. A larger index leaves `items` unchanged and is an error.
pub fn insert_at<T>(items: &mut Vec<T>, index: usize, item: T) -> (r: Result<(), IndexError>)
    ensures
        index <= old(items)@.len() ==> r is Ok && final(items)@ == old(items)@.insert(
            index as int,
            item,
        ),
        index > old(items)@.len() ==> r == Err::<(), IndexError>(
            IndexError { index, len: old(items)@.len() as usize },
        ) && final(items)@ == old(items)@,
{
    if index <= items.len() {
        items.insert(index, item);
        Ok(())
    } else {
        Err(IndexError { index, len: items.len() })
    }
}

/// Replaces the item at `index` and hands back the one it held. An index
/// that is not below the length leaves `items` unchanged and is an error.
pub fn replace_at<T>(items: &mut Vec<T>, index: usize, item: T) -> (r: Result<T, IndexError>)
    ensures
        index < old(items)@.len() ==> r == Ok::<T, IndexError>(old(items)@[index as int])
            && final(items)@ == old(items)@.update(index as int, item),
        index >= old(items)@.len() ==> r == Err::<T, IndexError>(
            IndexError { index, len: old(items)@.len() as usize },
        ) && final(items)@ == old(items)@,
{
    if index < items.len() {
        let previous = items.remove(index);
        items.insert(index, item);
        assert(items@ =~= old(items)@.update(index as int, item));
        Ok(previous)
    } else {
        Err(IndexError { index, len: items.len() })
    }
}

/// Removes the item at `index` and hands it back. An index that is not
/// below the length leaves `items` unchanged and is an error.
pub fn remove_at<T>(items: &mut Vec<T>, index: usize) -> (r: Result<T, IndexError>)
    ensures
        index < old(items)@.len() ==> r == Ok::<T, IndexError>(old(items)@[index as int])
            && final(items)@ == old(items)@.remove(index as int),
        index >= old(items)@.len() ==> r == Err::<T, IndexError>(
            IndexError { index, len: old(items)@.len() as usize },
        ) && final(items)@ == old(items)@,
{
    if index < items.len() {
        Ok(items.remove(index))
    } else {
        Err(IndexError { index, len: items.len() })
    }
}

impl Svg {
    /// The empty scene with the zero viewport.
    pub fn new() -> (r: Self)
        ensures
            r.viewport == (Viewport { from: Point { x: 0, y: 0 }, to: Point { x: 0, y: 0 } }),
            r.shapes@.len() == 0,
            r.wf(),
    {
        Svg { viewport: Viewport::default(), shapes: Vec::new() }
    }

    /// Inserts a shape before position `index` (which may equal the number
    /// of shapes, to append).
    pub fn insert_shape(&mut self, index: usize, shape: Shape) -> (r: Result<(), IndexError>)
        ensures
            final(self).viewport == old(self).viewport,
            index <= old(self).shapes@.len() ==> r is Ok && final(self).shapes@ == old(
                self,
            ).shapes@.insert(index as int, Box::new(shape)),
            index > old(self).shapes@.len() ==> r == Err::<(), IndexError>(
                IndexError { index, len: old(self).shapes@.len() as usize },
            ) && final(self).shapes@ == old(self).shapes@,
            old(self).wf() && shape_wf(shape) ==> final(self).wf(),
    {
        let r = insert_at(&mut self.shapes, index, Box::new(shape));
        proof {
            lemma_shapes_wf_forall(old(self).shapes@);
            lemma_shapes_wf_forall(self.shapes@);
            if old(self).wf() && shape_wf(shape) && r is Ok {
                assert forall|i: int| 0 <= i < self.shapes@.len() implies shape_wf(
                    *#[trigger] self.shapes@[i],
                ) by {
                    if i > index {
                        assert(self.shapes@[i] == old(self).shapes@[i - 1]);
                    }
                }
            }
        }
        r
    }

    /// Replaces the shape at `index` and hands back the one it held.
    pub fn replace_shape(&mut self, index: usize, shape: Shape) -> (r: Result<
        Box<Shape>,
        IndexError,
    >)
        ensures
            final(self).viewport == old(self).viewport,
            index < old(self).shapes@.len() ==> r == Ok::<Box<Shape>, IndexError>(
                old(self).shapes@[index as int],
            ) && final(self).shapes@ == old(self).shapes@.update(index as int, Box::new(shape)),
            index >= old(self).shapes@.len() ==> r == Err::<Box<Shape>, IndexError>(
                IndexError { index, len: old(self).shapes@.len() as usize },
            ) && final(self).shapes@ == old(self).shapes@,
            old(self).wf() && shape_wf(shape) ==> final(self).wf(),
    {
        let r = replace_at(&mut self.shapes, index, Box::new(shape));
        proof {
            lemma_shapes_wf_forall(old(self).shapes@);
            lemma_shapes_wf_forall(self.shapes@);
        }
        r
    }

    /// Removes the shape at `index` and hands it back.
    pub fn remove_shape(&mut self, index: usize) -> (r: Result<Box<Shape>, IndexError>)
        ensures
            final(self).viewport == old(self).viewport,
            index < old(self).shapes@.len() ==> r == Ok::<Box<Shape>, IndexError>(
                old(self).shapes@[index as int],
            ) && final(self).shapes@ == old(self).shapes@.remove(index as int),
            index >= old(self).shapes@.len() ==> r == Err::<Box<Shape>, IndexError>(
                IndexError { index, len: old(self).shapes@.len() as usize },
            ) && final(self).shapes@ == old(self).shapes@,
            old(self).wf() ==> final(self).wf(),
    {
        let r = remove_at(&mut self.shapes, index);
        proof {
            lemma_shapes_wf_forall(old(self).shapes@);
            lemma_shapes_wf_forall(self.shapes@);
            if old(self).wf() && r is Ok {
                assert forall|i: int| 0 <= i < self.shapes@.len() implies shape_wf(
                    *#[trigger] self.shapes@[i],
                ) by {
                    if i >= index {
                        assert(self.shapes@[i] == old(self).shapes@[i + 1]);
                    }
                }
            }
        }
        r
    }
}

impl Default for Viewport {
    fn default() -> (r: Self)
        ensures
            r == (Viewport { from: Point { x: 0, y: 0 }, to: Point { x: 0, y: 0 } }),
    {
        Viewport { from: Point::new(), to: Point::new() }
    }
}

impl Default for Svg {
    fn default() -> (r: Self)
        ensures
            r.viewport == (Viewport { from: Point { x: 0, y: 0 }, to: Point { x: 0, y: 0 } }),
            r.shapes@.len() == 0,
    {
        Svg::new()
    }
}

/// The zero point.
pub open spec fn origin() -> Point {
    Point { x: 0, y: 0 }
}

impl Ellipse {
    /// The ellipse at the origin with both radii zero.
    pub fn new() -> (r: Self)
        ensures
            r == (Ellipse { origin: origin(), radius_x: 0, radius_y: 0 }),
    {
        Ellipse { origin: Point::new(), radius_x: 0, radius_y: 0 }
    }
}

impl Default for Ellipse {
    fn default() -> (r: Self)
        ensures
            r == (Ellipse { origin: origin(), radius_x: 0, radius_y: 0 }),
    {
        Ellipse::new()
    }
}

impl Rectangle {
    /// The rectangle at the origin with zero width and height.
    pub fn new() -> (r: Self)
        ensures
            r == (Rectangle { origin: origin(), width: 0, height: 0 }),
    {
        Rectangle { origin: Point::new(), width: 0, height: 0 }
    }
}

impl Default for Rectangle {
    fn default() -> (r: Self)
        ensures
            r == (Rectangle { origin: origin(), width: 0, height: 0 }),
    {
        Rectangle::new()
    }
}

impl Line {
    /// The line from the origin to the origin.
    pub fn new() -> (r: Self)
        ensures
            r == (Line { from: origin(), to: origin() }),
    {
        Line { from: Point::new(), to: Point::new() }
    }
}

impl Default for Line {
    fn default() -> (r: Self)
        ensures
            r == (Line { from: origin(), to: origin() }),
    {
        Line::new()
    }
}

impl Polyline {
    /// The polyline without points.
    pub fn new() -> (r: Self)
        ensures
            r.0@.len() == 0,
    {
        Polyline(Vec::new())
    }
}

impl Default for Polyline {
    fn default() -> (r: Self)
        ensures
            r.0@.len() == 0,
    {
        Polyline::new()
    }
}

impl Polygon {
    /// The polygon without points.
    pub fn new() -> (r: Self)
        ensures
            r.0@.len() == 0,
    {
        Polygon(Vec::new())
    }
}

impl Default for Polygon {
    fn default() -> (r: Self)
        ensures
            r.0@.len() == 0,
    {
        Polygon::new()
    }
}

impl PathCommand {
    /// A move to the origin.
    pub fn new_move_to() -> (r: Self)
        ensures
            r == PathCommand::MoveTo(origin()),
    {
        PathCommand::MoveTo(Point::new())
    }

    /// A line to the origin.
    pub fn new_line_to() -> (r: Self)
        ensures
            r == PathCommand::LineTo(origin()),
    {
        PathCommand::LineTo(Point::new())
    }

    /// A horizontal line to x = 0.
    pub fn new_horizontal_line_to() -> (r: Self)
        ensures
            r == PathCommand::HorizontalLineTo(0),
    {
        PathCommand::HorizontalLineTo(0)
    }

    /// A vertical line to y = 0.
    pub fn new_vertical_line_to() -> (r: Self)
        ensures
            r == PathCommand::VerticalLineTo(0),
    {
        PathCommand::VerticalLineTo(0)
    }

    /// A cubic curve with every point at the origin.
    pub fn new_cubic_curve_to() -> (r: Self)
        ensures
            r == PathCommand::CubicCurveTo(origin(), origin(), origin()),
    {
        PathCommand::CubicCurveTo(Point::new(), Point::new(), Point::new())
    }

    /// A smooth cubic curve with every point at the origin.
    pub fn new_cubic_curve_to_shorthand() -> (r: Self)
        ensures
            r == PathCommand::CubicCurveToShorthand(origin(), origin()),
    {
        PathCommand::CubicCurveToShorthand(Point::new(), Point::new())
    }

    /// A quadratic curve with every point at the origin.
    pub fn new_quadratic_curve_to() -> (r: Self)
        ensures
            r == PathCommand::QuadraticCurveTo(origin(), origin()),
    {
        PathCommand::QuadraticCurveTo(Point::new(), Point::new())
    }

    /// A smooth quadratic curve to the origin.
    pub fn new_quadratic_curve_to_shorthand() -> (r: Self)
        ensures
            r == PathCommand::QuadraticCurveToShorthand(origin()),
    {
        PathCommand::QuadraticCurveToShorthand(Point::new())
    }

    /// The command that closes the path.
    pub fn new_end_of_path() -> (r: Self)
        ensures
            r == PathCommand::EndOfPath,
    {
        PathCommand::EndOfPath
    }
}

impl Path {
    /// The path without commands.
    pub fn new() -> (r: Self)
        ensures
            r.0@.len() == 0,
    {
        Path(Vec::new())
    }
}

impl Default for Path {
    fn default() -> (r: Self)
        ensures
            r.0@.len() == 0,
    {
        Path::new()
    }
}

impl Group {
    /// The group without shapes.
    pub fn new() -> (r: Self)
        ensures
            r.0@.len() == 0,
    {
        Group(Vec::new())
    }
}

impl Default for Group {
    fn default() -> (r: Self)
        ensures
            r.0@.len() == 0,
    {
        Group::new()
    }
}

impl Shape {
    /// An ellipse with the default styles.
    pub fn new_ellipse(ellipse: Ellipse) -> (r: Self)
        ensures
            r == (Shape { shape: ShapeType::Ellipse(ellipse), styles: default_styles() }),
    {
        Shape { shape: ShapeType::Ellipse(ellipse), styles: Styles::new() }
    }

    /// A rectangle with the default styles.
    pub fn new_rectangle(rectangle: Rectangle) -> (r: Self)
        ensures
            r == (Shape { shape: ShapeType::Rectangle(rectangle), styles: default_styles() }),
    {
        Shape { shape: ShapeType::Rectangle(rectangle), styles: Styles::new() }
    }

    /// A line with the default styles.
    pub fn new_line(line: Line) -> (r: Self)
        ensures
            r == (Shape { shape: ShapeType::Line(line), styles: default_styles() }),
    {
        Shape { shape: ShapeType::Line(line), styles: Styles::new() }
    }

    /// A polyline with the default styles.
    pub fn new_polyline(polyline: Polyline) -> (r: Self)
        ensures
            r == (Shape { shape: ShapeType::Polyline(polyline), styles: default_styles() }),
    {
        Shape { shape: ShapeType::Polyline(polyline), styles: Styles::new() }
    }

    /// A polygon with the default styles.
    pub fn new_polygon(polygon: Polygon) -> (r: Self)
        ensures
            r == (Shape { shape: ShapeType::Polygon(polygon), styles: default_styles() }),
    {
        Shape { shape: ShapeType::Polygon(polygon), styles: Styles::new() }
    }

    /// A group with the default styles.
    pub fn new_group(group: Group) -> (r: Self)
        ensures
            r == (Shape { shape: ShapeType::Group(group), styles: default_styles() }),
    {
        Shape { shape: ShapeType::Group(group), styles: Styles::new() }
    }

    /// A path with the default styles.
    pub fn new_path(path: Path) -> (r: Self)
        ensures
            r == (Shape { shape: ShapeType::Path(path), styles: default_styles() }),
    {
        Shape { shape: ShapeType::Path(path), styles: Styles::new() }
    }

    /// The same shape with other styles.
    pub fn with_styles(self, styles: Styles) -> (r: Self)
        ensures
            r == (Shape { shape: self.shape, styles }),
    {
        Shape { shape: self.shape, styles }
    }
}

/// The mathematical value of a shape's geometry: its sequences as `Seq`.
pub enum ShapeTypeView {
    Ellipse(Ellipse),
    Rectangle(Rectangle),
    Line(Line),
    Polyline(Seq<Point>),
    Polygon(Seq<Point>),
    Group(Seq<ShapeView>),
    Path(Seq<PathCommand>),
}

/// The mathematical value of a shape.
pub struct ShapeView {
    pub shape: ShapeTypeView,
    pub styles: Styles,
}

/// The mathematical value of a scene.
pub struct SvgView {
    pub viewport: Viewport,
    pub shapes: Seq<ShapeView>,
}

/// The value of a shape's geometry.
pub open spec fn shape_type_view(t: ShapeType) -> ShapeTypeView
    decreases t,
{
    match t {
        ShapeType::Ellipse(e) => ShapeTypeView::Ellipse(e),
        ShapeType::Rectangle(r) => ShapeTypeView::Rectangle(r),
        ShapeType::Line(l) => ShapeTypeView::Line(l),
        ShapeType::Polyline(p) => ShapeTypeView::Polyline(p.0@),
        ShapeType::Polygon(p) => ShapeTypeView::Polygon(p.0@),
        ShapeType::Group(g) => ShapeTypeView::Group(shapes_view(g.0@)),
        ShapeType::Path(p) => ShapeTypeView::Path(p.0@),
    }
}

/// The value of a shape.
pub open spec fn shape_view(s: Shape) -> ShapeView
    decreases s,
{
    ShapeView { shape: shape_type_view(s.shape), styles: s.styles }
}

/// The values of a sequence of shapes, in order.
pub open spec fn shapes_view(v: Seq<Box<Shape>>) -> Seq<ShapeView>
    decreases v,
{
    if v.len() == 0 {
        Seq::empty()
    } else {
        shapes_view(v.subrange(0, v.len() - 1)).push(shape_view(*v[v.len() - 1]))
    }
}

/// The values of a sequence of shapes, stated element by element.
pub proof fn lemma_shapes_view(v: Seq<Box<Shape>>)
    ensures
        shapes_view(v).len() == v.len(),
        forall|i: int| 0 <= i < v.len() ==> #[trigger] shapes_view(v)[i] == shape_view(*v[i]),
    decreases v.len(),
{
    if v.len() > 0 {
        let w = v.subrange(0, v.len() - 1);
        lemma_shapes_view(w);
        assert forall|i: int| 0 <= i < w.len() implies w[i] == v[i] by {}
    }
}

/// A shape value is well formed when its styles and those of every shape
/// nested in it are.
pub open spec fn shape_view_wf(s: ShapeView) -> bool
    decreases s,
{
    &&& s.styles.wf()
    &&& match s.shape {
        ShapeTypeView::Group(g) => forall|i: int| 0 <= i < g.len() ==> shape_view_wf(#[trigger] g[i]),
        _ => true,
    }
}

impl SvgView {
    pub open spec fn wf(self) -> bool {
        forall|i: int| 0 <= i < self.shapes.len() ==> shape_view_wf(#[trigger] self.shapes[i])
    }
}

impl View for Shape {
    type V = ShapeView;

    open spec fn view(&self) -> ShapeView {
        shape_view(*self)
    }
}

impl View for Svg {
    type V = SvgView;

    open spec fn view(&self) -> SvgView {
        SvgView { viewport: self.viewport, shapes: shapes_view(self.shapes@) }
    }
}

/// A shape is well formed exactly when its value is.
pub proof fn lemma_shape_wf_view(s: Shape)
    ensures
        shape_wf(s) == shape_view_wf(shape_view(s)),
    decreases s,
{
    if let ShapeType::Group(g) = s.shape {
        lemma_shapes_wf_forall(g.0@);
        lemma_shapes_view(g.0@);
        assert forall|i: int| 0 <= i < g.0@.len() implies shape_wf(*g.0@[i]) == shape_view_wf(
            shapes_view(g.0@)[i],
        ) by {
            assert(decreases_to!(s => g.0@[i]));
            lemma_shape_wf_view(*g.0@[i]);
        }
        if shape_wf(s) != shape_view_wf(shape_view(s)) {
            if shape_wf(s) {
                let i = choose|i: int|
                    0 <= i < g.0@.len() && !shape_view_wf(#[trigger] shapes_view(g.0@)[i]);
                assert(shape_wf(*g.0@[i]));
            } else {
                let i = choose|i: int| 0 <= i < g.0@.len() && !shape_wf(*#[trigger] g.0@[i]);
                assert(shape_view_wf(shapes_view(g.0@)[i]));
            }
        }
    }
}

/// A scene is well formed exactly when its value is.
pub proof fn lemma_svg_wf_view(s: Svg)
    ensures
        s.wf() == s@.wf(),
{
    lemma_shapes_wf_forall(s.shapes@);
    lemma_shapes_view(s.shapes@);
    assert forall|i: int| 0 <= i < s.shapes@.len() implies shape_wf(*s.shapes@[i])
        == shape_view_wf(s@.shapes[i]) by {
        lemma_shape_wf_view(*s.shapes@[i]);
    }
    if s.wf() != s@.wf() {
        if s.wf() {
            let i = choose|i: int| 0 <= i < s@.shapes.len() && !shape_view_wf(#[trigger] s@.shapes[i]);
            assert(shape_wf(*s.shapes@[i]));
        } else {
            let i = choose|i: int| 0 <= i < s.shapes@.len() && !shape_wf(*#[trigger] s.shapes@[i]);
            assert(shape_view_wf(s@.shapes[i]));
        }
    }
}

// ----- copies -----
fn copy_vec<T: Copy>(v: &Vec<T>) -> (r: Vec<T>)
    ensures
        r@ == v@,
{
    let mut r: Vec<T> = Vec::new();
    let mut i: usize = 0;
    while i < v.len()
        invariant
            i <= v@.len(),
            r@ == v@.subrange(0, i as int),
        decreases v@.len() - i,
    {
        r.push(v[i]);
        i = i + 1;
        assert(r@ =~= v@.subrange(0, i as int));
    }
    assert(v@.subrange(0, v@.len() as int) =~= v@);
    r
}

fn copy_shape_type(t: &ShapeType) -> (r: ShapeType)
    ensures
        shape_type_view(r) == shape_type_view(*t),
    decreases t,
{
    match t {
        ShapeType::Ellipse(e) => ShapeType::Ellipse(*e),
        ShapeType::Rectangle(x) => ShapeType::Rectangle(*x),
        ShapeType::Line(l) => ShapeType::Line(*l),
        ShapeType::Polyline(p) => ShapeType::Polyline(Polyline(copy_vec(&p.0))),
        ShapeType::Polygon(p) => ShapeType::Polygon(Polygon(copy_vec(&p.0))),
        ShapeType::Group(g) => ShapeType::Group(Group(copy_shapes(&g.0))),
        ShapeType::Path(p) => ShapeType::Path(Path(copy_vec(&p.0))),
    }
}

fn copy_shape(s: &Shape) -> (r: Shape)
    ensures
        shape_view(r) == shape_view(*s),
    decreases s,
{
    Shape { shape: copy_shape_type(&s.shape), styles: s.styles }
}

fn copy_shapes(v: &Vec<Box<Shape>>) -> (r: Vec<Box<Shape>>)
    ensures
        shapes_view(r@) == shapes_view(v@),
    decreases v,
{
    let mut r: Vec<Box<Shape>> = Vec::new();
    let mut i: usize = 0;
    while i < v.len()
        invariant
            i <= v@.len(),
            shapes_view(r@) == shapes_view(v@.subrange(0, i as int)),
        decreases v@.len() - i,
    {
        proof {
            assert(decreases_to!(v@ => v@[i as int]));
        }
        let s = copy_shape(&v[i]);
        let ghost before = r@;
        r.push(Box::new(s));
        proof {
            let next = v@.subrange(0, i + 1);
            assert(next.subrange(0, i as int) =~= v@.subrange(0, i as int));
            assert(next[i as int] == v@[i as int]);
            assert(r@.subrange(0, r@.len() - 1) =~= before);
        }
        i = i + 1;
    }
    assert(v@.subrange(0, v@.len() as int) =~= v@);
    r
}

impl Clone for ShapeType {
    fn clone(&self) -> (r: Self)
        ensures
            shape_type_view(r) == shape_type_view(*self),
    {
        copy_shape_type(self)
    }
}

impl Clone for Shape {
    fn clone(&self) -> (r: Self)
        ensures
            r@ == self@,
    {
        copy_shape(self)
    }
}

impl Clone for Group {
    fn clone(&self) -> (r: Self)
        ensures
            shapes_view(r.0@) == shapes_view(self.0@),
    {
        Group(copy_shapes(&self.0))
    }
}

} // verus!
