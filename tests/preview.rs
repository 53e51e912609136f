use svg_scene::preview::Print;
use svg_scene::shapes::{
    Ellipse, Group, Line, Path, PathCommand, Polygon, Polyline, Rectangle, Shape, Svg, Viewport,
};
use svg_scene::styles::{Color, Rotate, Styles};
use svg_scene::utils::Point;

const PLAIN: &str = "fill=\"rgba(0, 0, 0, 0)\" outline=\"rgba(0, 0, 0, 0)\" translate=\"0 0\" rotate=\"0\"";

#[test]
fn value_previews() {
    assert_eq!(Point { x: -1, y: 2 }.print(0), "-1 2");
    assert_eq!(Color { red: 1, green: 2, blue: 3, transparency: 4 }.print(0), "rgba(1, 2, 3, 4)");
    assert_eq!(Rotate::Circular(30).print(0), "30");
    assert_eq!(Rotate::Flipx.print(0), "x");
    assert_eq!(Rotate::Flipy.print(0), "y");
    assert_eq!(Styles::new().print(0), PLAIN);
    let v = Viewport { from: Point { x: 0, y: 1 }, to: Point { x: 2, y: 3 } };
    assert_eq!(v.print(0), "viewport=\"0 1 2 3\"");
}

#[test]
fn geometry_previews() {
    assert_eq!(
        Ellipse { origin: Point { x: 1, y: 2 }, radius_x: 3, radius_y: 4 }.print(0),
        "<ellipse origin=\"1 2\" radius_x=\"3\" radius_y=\"4\" "
    );
    assert_eq!(Rectangle::new().print(0), "<rectangle origin=\"0 0\" width=\"0\" height=\"0\" ");
    assert_eq!(Line::new().print(0), "<line from=\"0 0\" to=\"0 0\" ");
    assert_eq!(
        Polyline(vec![Point { x: 1, y: 1 }, Point { x: 2, y: 2 }]).print(0),
        "<polyline points=\"1 1, 2 2, \" "
    );
    assert_eq!(Polygon::new().print(0), "<polygon points=\"\" ");
    assert_eq!(PathCommand::HorizontalLineTo(5).print(0), "H 5");
    assert_eq!(
        Path(vec![PathCommand::new_move_to(), PathCommand::new_end_of_path()]).print(1),
        "  <path d=\"M 0 0 Z \" "
    );
}

#[test]
fn shape_and_scene_previews() {
    let group = Group(vec![Box::new(Shape::new_line(Line::new()))]);
    let line = format!("<line from=\"0 0\" to=\"0 0\" {} />\n", PLAIN);
    assert_eq!(group.print(0), format!("  {}", line));
    let shape = Shape::new_group(group.clone());
    assert_eq!(
        shape.print(0),
        format!("<group {}>\n  {}<group />\n", PLAIN, line)
    );
    let mut svg = Svg::new();
    svg.insert_shape(0, Shape::new_line(Line::new())).unwrap();
    assert_eq!(svg.print(0), format!("<svg viewport=\"0 0 0 0\" />\n  {}</svg>\n", line));
}

#[test]
fn clones_are_equal() {
    let inner = Shape::new_group(Group(vec![Box::new(Shape::new_polygon(Polygon(vec![Point { x: 1, y: 2 }])))]));
    let shape = Shape::new_group(Group(vec![Box::new(inner), Box::new(Shape::new_path(Path(vec![PathCommand::new_end_of_path()])))]));
    assert_eq!(shape.clone(), shape);
    assert_eq!(shape.shape.clone(), shape.shape);
}
