use svg_scene::export::{
    export_ellipse, export_group, export_path, export_path_element, export_point_vector,
    export_polygon, export_polyline, export_rectangle, export_line, export_shape, export_styles,
    export_svg, write_color, write_point, write_rotate,
};
use svg_scene::shapes::{
    Ellipse, Group, Line, Path, PathCommand, Polygon, Polyline, Rectangle, Shape, Svg, Viewport,
};
use svg_scene::styles::{Color, Rotate, Styles};
use svg_scene::utils::Point;

const PLAIN: &str =
    "fill=\"rgba(0,0,0,0)\" outline=\"rgba(0,0,0,0)\" transform=\"translate(0 0) rotate(0 deg)\"";

fn p(x: i32, y: i32) -> Point {
    Point { x, y }
}

fn emit_svg(svg: &Svg) -> String {
    let mut out = String::new();
    export_svg(&mut out, svg);
    out
}

#[test]
fn point_is_two_numbers() {
    let mut out = String::new();
    write_point(&mut out, &p(-5, 12));
    assert_eq!(out, "-5 12");
}

#[test]
fn extreme_coordinates() {
    let mut out = String::new();
    write_point(&mut out, &p(i32::MIN, i32::MAX));
    assert_eq!(out, "-2147483648 2147483647");
}

#[test]
fn color_channels_in_rgba_order() {
    let mut out = String::new();
    write_color(&mut out, &Color { red: 1, green: 2, blue: 3, transparency: 255 });
    assert_eq!(out, "rgba(1,2,3,255)");
}

#[test]
fn rotations() {
    let mut out = String::new();
    write_rotate(&mut out, &Rotate::new_circular(90));
    out.push('|');
    write_rotate(&mut out, &Rotate::Flipx);
    out.push('|');
    write_rotate(&mut out, &Rotate::Flipy);
    assert_eq!(out, "rotate(90 deg)|rotateX(180)|rotateY(180)");
}

#[test]
fn styles_attributes() {
    let styles = Styles {
        translate: p(3, -4),
        rotate: Rotate::new_circular(45),
        fill: Color { red: 10, green: 20, blue: 30, transparency: 40 },
        outline: Color { red: 50, green: 60, blue: 70, transparency: 80 },
    };
    let mut out = String::new();
    export_styles(&mut out, &styles);
    assert_eq!(
        out,
        "fill=\"rgba(10,20,30,40)\" outline=\"rgba(50,60,70,80)\" transform=\"translate(3 -4) rotate(45 deg)\""
    );
}

#[test]
fn ellipse_line() {
    let mut out = String::new();
    let e = Ellipse { origin: p(1, 2), radius_x: 3, radius_y: 4 };
    export_ellipse(&mut out, &e, &Styles::new(), 1);
    assert_eq!(out, format!("  <ellipse cx=\"1\" cy=\"2\" rx=\"3\" ry=\"4\" {} />\n", PLAIN));
}

#[test]
fn rectangle_line() {
    let mut out = String::new();
    let r = Rectangle { origin: p(-1, 0), width: 4294967295, height: 7 };
    export_rectangle(&mut out, &r, &Styles::new(), 0);
    assert_eq!(
        out,
        format!("<rect x=\"-1\" y=\"0\" width=\"4294967295\" height=\"7\" {} />\n", PLAIN)
    );
}

#[test]
fn line_line() {
    let mut out = String::new();
    let l = Line { from: p(0, 1), to: p(2, 3) };
    export_line(&mut out, &l, &Styles::new(), 2);
    assert_eq!(out, format!("    <line x1=\"0\" y1=\"1\" x2=\"2\" y2=\"3\" {} />\n", PLAIN));
}

#[test]
fn points_are_space_separated() {
    let mut out = String::new();
    export_point_vector(&mut out, &vec![p(1, 2), p(3, 4), p(5, 6)]);
    assert_eq!(out, "1 2 3 4 5 6");
    let mut empty = String::new();
    export_point_vector(&mut empty, &vec![]);
    assert_eq!(empty, "");
}

#[test]
fn polyline_and_polygon() {
    let mut out = String::new();
    export_polyline(&mut out, &Polyline(vec![p(0, 0), p(1, 1)]), &Styles::new(), 0);
    export_polygon(&mut out, &Polygon(vec![p(2, 2)]), &Styles::new(), 0);
    assert_eq!(
        out,
        format!(
            "<polyline points=\"0 0 1 1\" {} />\n<polygon points=\"2 2\" {} />\n",
            PLAIN, PLAIN
        )
    );
}

#[test]
fn path_command_fidelity() {
    let path = Path(vec![
        PathCommand::MoveTo(p(0, 0)),
        PathCommand::LineTo(p(10, 10)),
        PathCommand::EndOfPath,
    ]);
    let mut out = String::new();
    export_path(&mut out, &path, &Styles::new(), 0);
    assert_eq!(out, format!("<path d=\"M 0 0 L 10 10 Z\" {} />\n", PLAIN));
}

#[test]
fn every_path_command_letter() {
    let commands = [
        (PathCommand::new_move_to(), "M 0 0"),
        (PathCommand::LineTo(p(1, 2)), "L 1 2"),
        (PathCommand::HorizontalLineTo(-7), "H -7"),
        (PathCommand::VerticalLineTo(8), "V 8"),
        (PathCommand::CubicCurveTo(p(1, 2), p(3, 4), p(5, 6)), "C 1 2 3 4 5 6"),
        (PathCommand::CubicCurveToShorthand(p(1, 2), p(3, 4)), "S 1 2 3 4"),
        (PathCommand::QuadraticCurveTo(p(1, 2), p(3, 4)), "Q 1 2 3 4"),
        (PathCommand::QuadraticCurveToShorthand(p(9, 9)), "T 9 9"),
        (PathCommand::new_end_of_path(), "Z"),
    ];
    for (command, text) in commands.iter() {
        let mut out = String::new();
        export_path_element(&mut out, command);
        assert_eq!(&out, text);
    }
}

#[test]
fn group_wraps_its_shapes() {
    let group = Group(vec![Box::new(Shape::new_ellipse(Ellipse::new()))]);
    let mut out = String::new();
    export_group(&mut out, &group, &Styles::new(), 1);
    assert_eq!(
        out,
        format!(
            "  <g {}>\n    <ellipse cx=\"0\" cy=\"0\" rx=\"0\" ry=\"0\" {} />\n  </g>\n",
            PLAIN, PLAIN
        )
    );
}

#[test]
fn nested_groups_three_levels() {
    let inner = Shape::new_group(Group(vec![Box::new(Shape::new_ellipse(Ellipse::new()))]));
    let middle = Shape::new_group(Group(vec![Box::new(inner)]));
    let outer = Shape::new_group(Group(vec![Box::new(middle)]));
    let mut out = String::new();
    export_shape(&mut out, &outer, 0);
    let expected = format!(
        "<g {s}>\n  <g {s}>\n    <g {s}>\n      <ellipse cx=\"0\" cy=\"0\" rx=\"0\" ry=\"0\" {s} />\n    </g>\n  </g>\n</g>\n",
        s = PLAIN
    );
    assert_eq!(out, expected);
}

#[test]
fn empty_scene_markup() {
    let svg = Svg::new();
    assert_eq!(
        emit_svg(&svg),
        "<svg xmlns=\"http://www.w3.org/2000/svg\" viewport=\"0 0 0 0\">\n</svg>\n"
    );
}

#[test]
fn scene_markup() {
    let mut svg = Svg::new();
    svg.viewport = Viewport { from: p(0, 0), to: p(100, 50) };
    svg.insert_shape(0, Shape::new_line(Line::new())).unwrap();
    svg.insert_shape(1, Shape::new_rectangle(Rectangle::new())).unwrap();
    assert_eq!(
        emit_svg(&svg),
        format!(
            "<svg xmlns=\"http://www.w3.org/2000/svg\" viewport=\"0 0 100 50\">\n  <line x1=\"0\" y1=\"0\" x2=\"0\" y2=\"0\" {s} />\n  <rect x=\"0\" y=\"0\" width=\"0\" height=\"0\" {s} />\n</svg>\n",
            s = PLAIN
        )
    );
}

#[test]
fn emission_is_deterministic() {
    let mut svg = Svg::new();
    svg.insert_shape(0, Shape::new_polygon(Polygon(vec![p(1, 1), p(2, 3)]))).unwrap();
    svg.insert_shape(0, Shape::new_path(Path(vec![PathCommand::new_cubic_curve_to()]))).unwrap();
    assert_eq!(emit_svg(&svg), emit_svg(&svg));
}
