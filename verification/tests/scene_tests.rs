use grapher::bezier::BezierCurve;
use grapher::cartesian::Cartesian;
use grapher::cartesian3::Cartesian3D;
use grapher::mathenv::MathEnvironment;
use grapher::object3::{parse_object, Object3D};
use grapher::{App, Scene};

#[test]
fn parse_object_point() {
    let r = parse_object("P = (1, 2, 3)");
    assert_eq!(
        r,
        Some(Object3D::Point {
            name: 'P',
            x: "1".to_string(),
            y: "2".to_string(),
            z: "3".to_string(),
        })
    );
}

#[test]
fn parse_object_point_wrong_arity_or_text() {
    assert_eq!(parse_object("P = (1, 2)"), None);
    assert_eq!(parse_object("P = (1, 2, foo)"), None);
    assert_eq!(parse_object("just text"), None);
}

#[test]
fn parse_object_line_uses_first_argument_as_label() {
    let r = parse_object("line(0, 0, 0, 1, 1, 1)");
    assert_eq!(
        r,
        Some(Object3D::Line {
            name: "0".to_string(),
            x0: "0".to_string(),
            y0: "0".to_string(),
            z0: "0".to_string(),
            x1: "1".to_string(),
            y1: "1".to_string(),
            z1: "1".to_string(),
        })
    );
}

#[test]
fn parse_object_line_needs_six_numeric_arguments() {
    assert_eq!(parse_object("line(0, 0, 0, 1, 1)"), None);
    assert_eq!(parse_object("line(a, 0, 0, 1, 1, 1)"), None);
}

#[test]
fn parse_object_plane() {
    let r = parse_object("plane(base, 1, 2, 3, 4)");
    assert_eq!(
        r,
        Some(Object3D::Plane {
            name: "base".to_string(),
            a: "1".to_string(),
            b: "2".to_string(),
            c: "3".to_string(),
            d: "4".to_string(),
        })
    );
}

#[test]
fn math_environment_lookup_and_update() {
    let mut env = MathEnvironment::new();
    env.add_variable("a", (3.0f64).to_bits());
    env.add_variable("a", (4.0f64).to_bits());
    env.add_point("P", (1.0f64).to_bits(), (2.0f64).to_bits());

    // the first entry with the name wins
    assert_eq!(env.get_value("a").map(f64::from_bits), Some(3.0));
    assert_eq!(env.get_value("b"), None);

    let (x, y) = env.get_point("P").expect("point expected");
    assert_eq!((f64::from_bits(x), f64::from_bits(y)), (1.0, 2.0));
    assert_eq!(env.get_point("Q"), None);

    env.update_point("P", (5.0f64).to_bits(), (6.0f64).to_bits());
    let (x, y) = env.get_point("P").expect("point expected");
    assert_eq!((f64::from_bits(x), f64::from_bits(y)), (5.0, 6.0));

    // updating an absent point changes nothing
    env.update_point("Q", 0, 0);
    assert_eq!(env.get_point("Q"), None);
    assert_eq!(env.points.len(), 1);
    assert_eq!(env.variables.len(), 2);
}

#[test]
fn bezier_segments_grow_and_shrink_in_pairs() {
    let mut bez = BezierCurve::default();
    assert_eq!(bez.n_points, 3);
    bez.add_segment();
    assert_eq!(bez.n_points, 5);
    bez.remove_segment();
    assert_eq!(bez.n_points, 3);
    // the initial three control points never go
    bez.remove_segment();
    assert_eq!(bez.n_points, 3);
    bez.toggle_lines();
    assert!(!bez.lines_on);
    bez.toggle_points();
    assert!(!bez.points_on);
}

#[test]
fn scene_switch_requests_fire_once_and_clear() {
    let mut app = App::default();
    assert_eq!(app.scene, Scene::Cartesian);

    app.cartesian.switch = 2;
    app.update();
    assert_eq!(app.scene, Scene::Cartesian3D);
    assert_eq!(app.cartesian.switch, 0);

    app.cartesian.switch = 3;
    app.update();
    assert_eq!(app.scene, Scene::Bezier);

    app.bezier.switch = 1;
    app.update();
    assert_eq!(app.scene, Scene::Cartesian);
    assert_eq!(app.bezier.switch, 0);

    app.cartesian3.switch = 1;
    app.update();
    assert_eq!(app.scene, Scene::Cartesian);
    assert_eq!(app.cartesian3.switch, 0);
}

#[test]
fn plane_plotter_request_precedes_curve_editor_request() {
    let mut app = App::new(
        BezierCurve::default(),
        Cartesian { inputs: Vec::new(), switch: 3 },
        Cartesian3D { inputs: Vec::new(), switch: 0 },
        Scene::Cartesian,
    );
    app.bezier.switch = 1;
    app.update();
    // the plane plotter's request fired; the curve editor's is still
    // pending
    assert_eq!(app.scene, Scene::Bezier);
    assert_eq!(app.cartesian.switch, 0);
    assert_eq!(app.bezier.switch, 1);
}

#[test]
fn no_pending_request_changes_nothing() {
    let mut app = App::default();
    // the spatial plotter's starting code is ignored by the dispatcher
    app.update();
    assert_eq!(app.scene, Scene::Cartesian);
    assert_eq!(app.cartesian3.switch, 2);
}

#[test]
fn spatial_inputs_can_be_added_and_removed() {
    let mut c3 = Cartesian3D::default();
    c3.add_input();
    assert_eq!(c3.inputs, vec!["".to_string()]);
    c3.remove_input(0);
    assert!(c3.inputs.is_empty());
}
