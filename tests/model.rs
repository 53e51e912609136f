use svg_scene::shapes::{
    insert_at, remove_at, replace_at, shapes_fit_depth, Ellipse, Group, IndexError, Line, Path,
    PathCommand, Polygon, Polyline, Rectangle, Shape, ShapeType, Svg,
};
use svg_scene::styles::{Color, Rotate, Styles};
use svg_scene::utils::Point;

#[test]
fn circular_degrees_are_reduced() {
    assert_eq!(Rotate::new_circular(370), Rotate::Circular(10));
    assert_eq!(Rotate::new_circular(360), Rotate::Circular(0));
    assert_eq!(Rotate::new_circular(359), Rotate::Circular(359));
    assert_eq!(Rotate::new_circular(0), Rotate::Circular(0));
    assert_eq!(Rotate::new_circular(u16::MAX), Rotate::Circular(15));
}

#[test]
fn flips() {
    assert_eq!(Rotate::new_flip_x(), Rotate::Flipx);
    assert_eq!(Rotate::new_flip_y(), Rotate::Flipy);
}

#[test]
fn default_styles_are_zero() {
    let zero = Color { red: 0, green: 0, blue: 0, transparency: 0 };
    let styles = Styles::new();
    assert_eq!(styles.translate, Point { x: 0, y: 0 });
    assert_eq!(styles.rotate, Rotate::Circular(0));
    assert_eq!(styles.fill, zero);
    assert_eq!(styles.outline, zero);
    assert_eq!(Styles::default(), styles);
    assert_eq!(Color::default(), zero);
    assert_eq!(Rotate::default(), Rotate::Circular(0));
}

#[test]
fn constructors_start_at_zero() {
    let o = Point::new();
    assert_eq!(o, Point { x: 0, y: 0 });
    assert_eq!(Ellipse::new(), Ellipse { origin: o, radius_x: 0, radius_y: 0 });
    assert_eq!(Rectangle::new(), Rectangle { origin: o, width: 0, height: 0 });
    assert_eq!(Line::new(), Line { from: o, to: o });
    assert!(Polyline::new().0.is_empty());
    assert!(Polygon::new().0.is_empty());
    assert!(Path::new().0.is_empty());
    assert!(Group::new().0.is_empty());
    assert_eq!(PathCommand::new_horizontal_line_to(), PathCommand::HorizontalLineTo(0));
    assert_eq!(PathCommand::new_vertical_line_to(), PathCommand::VerticalLineTo(0));
    assert_eq!(PathCommand::new_line_to(), PathCommand::LineTo(o));
    assert_eq!(PathCommand::new_cubic_curve_to(), PathCommand::CubicCurveTo(o, o, o));
    assert_eq!(PathCommand::new_cubic_curve_to_shorthand(), PathCommand::CubicCurveToShorthand(o, o));
    assert_eq!(PathCommand::new_quadratic_curve_to(), PathCommand::QuadraticCurveTo(o, o));
    assert_eq!(PathCommand::new_quadratic_curve_to_shorthand(), PathCommand::QuadraticCurveToShorthand(o));
}

#[test]
fn shape_constructors_use_default_styles() {
    let s = Shape::new_rectangle(Rectangle::new());
    assert_eq!(s.shape, ShapeType::Rectangle(Rectangle::new()));
    assert_eq!(s.styles, Styles::new());
    let styled = Shape::new_polyline(Polyline(vec![Point { x: 1, y: 1 }]))
        .with_styles(Styles { rotate: Rotate::Flipy, ..Styles::new() });
    assert_eq!(styled.styles.rotate, Rotate::Flipy);
    assert_eq!(styled.shape, ShapeType::Polyline(Polyline(vec![Point { x: 1, y: 1 }])));
}

#[test]
fn insert_at_length_appends() {
    let mut v = vec![1, 2];
    assert_eq!(insert_at(&mut v, 2, 3), Ok(()));
    assert_eq!(v, vec![1, 2, 3]);
    assert_eq!(insert_at(&mut v, 0, 0), Ok(()));
    assert_eq!(v, vec![0, 1, 2, 3]);
}

#[test]
fn insert_past_length_fails() {
    let mut v = vec![1, 2];
    assert_eq!(insert_at(&mut v, 3, 9), Err(IndexError { index: 3, len: 2 }));
    assert_eq!(v, vec![1, 2]);
}

#[test]
fn remove_and_replace_at_length_fail() {
    let mut v = vec![1, 2];
    assert_eq!(remove_at(&mut v, 2), Err(IndexError { index: 2, len: 2 }));
    assert_eq!(replace_at(&mut v, 2, 5), Err(IndexError { index: 2, len: 2 }));
    assert_eq!(v, vec![1, 2]);
    assert_eq!(replace_at(&mut v, 1, 5), Ok(2));
    assert_eq!(v, vec![1, 5]);
    assert_eq!(remove_at(&mut v, 0), Ok(1));
    assert_eq!(v, vec![5]);
}

#[test]
fn empty_sequence_bounds() {
    let mut v: Vec<Point> = Vec::new();
    assert_eq!(remove_at(&mut v, 0), Err(IndexError { index: 0, len: 0 }));
    assert_eq!(insert_at(&mut v, 0, Point::new()), Ok(()));
    assert_eq!(v.len(), 1);
}

#[test]
fn scene_shape_edits() {
    let mut svg = Svg::new();
    assert_eq!(svg.insert_shape(1, Shape::new_line(Line::new())), Err(IndexError { index: 1, len: 0 }));
    assert_eq!(svg.insert_shape(0, Shape::new_line(Line::new())), Ok(()));
    assert_eq!(svg.insert_shape(1, Shape::new_ellipse(Ellipse::new())), Ok(()));
    let old = svg.replace_shape(0, Shape::new_path(Path::new())).unwrap();
    assert_eq!(old.shape, ShapeType::Line(Line::new()));
    assert!(svg.replace_shape(2, Shape::new_path(Path::new())).is_err());
    assert!(svg.remove_shape(2).is_err());
    let removed = svg.remove_shape(1).unwrap();
    assert_eq!(removed.shape, ShapeType::Ellipse(Ellipse::new()));
    assert_eq!(svg.shapes.len(), 1);
    assert_eq!(svg.shapes[0].shape, ShapeType::Path(Path::new()));
}

#[test]
fn group_children_edits() {
    let mut group = Group::new();
    assert!(insert_at(&mut group.0, 0, Box::new(Shape::new_line(Line::new()))).is_ok());
    assert!(insert_at(&mut group.0, 5, Box::new(Shape::new_line(Line::new()))).is_err());
    assert_eq!(group.0.len(), 1);
}

#[test]
fn nesting_depth() {
    let inner = Shape::new_group(Group(vec![Box::new(Shape::new_ellipse(Ellipse::new()))]));
    let outer = Shape::new_group(Group(vec![Box::new(inner)]));
    let shapes = vec![Box::new(outer), Box::new(Shape::new_line(Line::new()))];
    assert!(shapes_fit_depth(&shapes, 2));
    assert!(!shapes_fit_depth(&shapes, 1));
    assert!(shapes_fit_depth(&vec![], 0));
}
