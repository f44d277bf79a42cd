use maplibre_legend::drawing::{draw_list, Drawing, Shape, Strokes, SwatchKind};
use maplibre_legend::error::{ErrorKind, LegendError};
use maplibre_legend::json::{Json, JsonNumber};
use maplibre_legend::layer::Layer;
use maplibre_legend::render::{
    render_circle, render_default, render_fill, render_heatmap, render_label, render_line,
    render_raster, render_separator, render_symbol,
};

fn s(text: &str) -> Json {
    Json::String(text.to_string())
}

fn n(value: i32) -> Json {
    Json::Number(JsonNumber::from_i32(value))
}

fn decimal(literal: &str, plain: &str) -> Json {
    Json::Number(JsonNumber { literal: literal.to_string(), plain: plain.to_string() })
}

fn arr(items: Vec<Json>) -> Json {
    Json::Array(items)
}

fn members(pairs: Vec<(&str, Json)>) -> Vec<(String, Json)> {
    pairs.into_iter().map(|(k, v)| (k.to_string(), v)).collect()
}

fn obj(pairs: Vec<(&str, Json)>) -> Json {
    Json::Object(members(pairs))
}

fn get(name: &str) -> Json {
    arr(vec![s("get"), s(name)])
}

fn layer(id: &str, legend: Option<Json>) -> Layer {
    Layer {
        id: id.to_string(),
        layer_type: "fill".to_string(),
        paint: None,
        layout: None,
        metadata: legend.map(|l| obj(vec![("legend", l)])),
    }
}

fn symbol_layer(layout: Json) -> Layer {
    Layer {
        id: "poi".to_string(),
        layer_type: "symbol".to_string(),
        paint: None,
        layout: Some(layout),
        metadata: None,
    }
}

fn text(x: u32, y: u32, bold: Option<bool>, content: &str) -> Shape {
    Shape::Text { x, y, size: 14, bold, content: content.to_string() }
}

fn rect(y: u32, fill: &str, opacity: &str, stroke: Option<&str>) -> Shape {
    Shape::Rect {
        x: 10,
        y,
        width: 30,
        height: 20,
        fill: fill.to_string(),
        opacity: opacity.to_string(),
        outline: stroke.map(|c| c.to_string()),
    }
}

fn image(y: u32, icon: &str) -> Shape {
    Shape::Image { x: 10, y, width: 20, height: 20, icon: icon.to_string() }
}

fn two_way_match() -> Json {
    arr(vec![s("match"), get("s"), s("a"), s("#111"), s("#999")])
}

#[test]
fn fill_list_without_title() {
    let paint = members(vec![("fill-color", two_way_match()), ("fill-opacity", decimal("0.50", "0.5"))]);
    let (drawing, width, height) = render_fill(&layer("L", None), &paint, 250, 40, false).unwrap();
    assert_eq!((width, height), (250, 80));
    assert_eq!(
        drawing,
        Drawing {
            width: 250,
            height: Some(80),
            shapes: vec![
                rect(10, "#111", "0.5", None),
                text(45, 25, None, "a"),
                rect(40, "#999", "0.5", None),
                text(45, 55, None, "L"),
            ],
        }
    );
}

#[test]
fn fill_list_with_title() {
    let paint = members(vec![("fill-color", two_way_match())]);
    let titled = layer("L", Some(obj(vec![("label", s("Land use"))])));
    let (drawing, width, height) = render_fill(&titled, &paint, 250, 40, true).unwrap();
    assert_eq!((width, height), (250, 100));
    assert_eq!(
        drawing,
        Drawing {
            width: 250,
            height: Some(100),
            shapes: vec![
                text(10, 20, Some(true), "Land use"),
                Shape::Separator { width: 250, x: 0, y: 10 },
                rect(40, "#111", "1", None),
                text(45, 55, None, "a"),
                rect(70, "#999", "1", None),
                text(45, 85, None, "L"),
            ],
        }
    );
}

#[test]
fn fill_with_a_literal_colour_is_a_list_of_one() {
    let paint = members(vec![("fill-color", s("#abc"))]);
    let (drawing, _, height) = render_fill(&layer("L", None), &paint, 200, 40, false).unwrap();
    assert_eq!(height, 50);
    assert_eq!(drawing.shapes, vec![rect(10, "#abc", "1", None), text(45, 25, None, "L")]);
}

#[test]
fn fill_single_swatch() {
    let paint = members(vec![
        ("fill-color", arr(vec![s("case")])),
        ("fill-outline-color", s("#222")),
        ("fill-opacity", s("not a number")),
    ]);
    let (drawing, width, height) = render_fill(&layer("L", None), &paint, 200, 40, true).unwrap();
    assert_eq!((width, height), (200, 40));
    assert_eq!(
        drawing,
        Drawing {
            width: 200,
            height: Some(40),
            shapes: vec![
                rect(10, "#cccccc", "1", Some("#222")),
                text(55, 25, Some(false), "L"),
            ],
        }
    );
    let paint = members(vec![("fill-color", arr(vec![s("case")]))]);
    let (drawing, _, _) = render_fill(&layer("L", None), &paint, 200, 40, false).unwrap();
    assert_eq!(drawing.shapes, vec![rect(10, "#cccccc", "1", Some("black"))]);
    let paint = members(vec![
        ("fill-color", arr(vec![s("case")])),
        ("fill-outline-color", two_way_match()),
    ]);
    let (drawing, _, _) = render_fill(&layer("L", None), &paint, 200, 40, false).unwrap();
    assert_eq!(drawing.shapes, vec![rect(10, "#cccccc", "1", Some("#cccccc"))]);
}

#[test]
fn fill_errors() {
    let plain = layer("L", None);
    let e = render_fill(&plain, &members(vec![]), 200, 40, true).unwrap_err();
    assert_eq!(e, LegendError::InvalidJson("Missing the 'fill-color' field in paint".to_string()));
    let paint = members(vec![("fill-color", arr(vec![s("foo")]))]);
    let e = render_fill(&plain, &paint, 200, 40, true).unwrap_err();
    assert_eq!(e.kind(), ErrorKind::InvalidExpression);
    let broken = layer("L", Some(s("x")));
    let paint = members(vec![("fill-color", s("#abc"))]);
    let e = render_fill(&broken, &paint, 200, 40, false).unwrap_err();
    assert_eq!(e, LegendError::InvalidJson("The 'legend' field is not an object".to_string()));
}

#[test]
fn line_list_and_single() {
    let paint = members(vec![("line-color", two_way_match()), ("line-width", n(7))]);
    let (drawing, width, height) = render_line(&layer("L", None), &paint, 250, 40, true).unwrap();
    assert_eq!((width, height), (250, 100));
    let stroke = |y: u32, color: &str| Shape::Line {
        x1: 10,
        y1: y,
        x2: 40,
        y2: y,
        stroke: color.to_string(),
        stroke_width: "4".to_string(),
    };
    assert_eq!(
        drawing.shapes,
        vec![
            text(10, 20, Some(true), "L"),
            Shape::Separator { width: 250, x: 0, y: 10 },
            stroke(50, "#111"),
            text(45, 55, None, "a"),
            stroke(80, "#999"),
            text(45, 85, None, "L"),
        ]
    );
    let (drawing, _, height) = render_line(&layer("L", None), &paint, 250, 40, false).unwrap();
    assert_eq!(height, 80);
    assert_eq!(drawing.shapes[0], stroke(20, "#111"));
    assert_eq!(drawing.shapes[3], text(45, 55, None, "L"));

    let paint = members(vec![
        ("line-color", arr(vec![s("case")])),
        ("line-width", decimal("2.5", "2.5")),
    ]);
    let (drawing, width, height) = render_line(&layer("L", None), &paint, 250, 40, true).unwrap();
    assert_eq!((width, height), (250, 40));
    assert_eq!(
        drawing,
        Drawing {
            width: 250,
            height: Some(40),
            shapes: vec![
                Shape::Line {
                    x1: 10,
                    y1: 20,
                    x2: 40,
                    y2: 20,
                    stroke: "#cccccc".to_string(),
                    stroke_width: "2.5".to_string(),
                },
                text(55, 25, Some(false), "L"),
            ],
        }
    );
    let paint = members(vec![("line-color", arr(vec![s("case")]))]);
    let (drawing, _, _) = render_line(&layer("L", None), &paint, 250, 40, false).unwrap();
    assert_eq!(
        drawing.shapes,
        vec![Shape::Line {
            x1: 10,
            y1: 20,
            x2: 40,
            y2: 20,
            stroke: "#cccccc".to_string(),
            stroke_width: "3".to_string(),
        }]
    );
    let e = render_line(&layer("L", None), &members(vec![]), 250, 40, false).unwrap_err();
    assert_eq!(e, LegendError::InvalidJson("Missing the 'line-color' field in paint".to_string()));
}

#[test]
fn circle_list() {
    let paint = members(vec![
        ("circle-color", two_way_match()),
        ("circle-opacity", decimal("0.8", "0.8")),
        ("circle-stroke-color", s("#fff")),
        ("circle-stroke-width", n(2)),
        ("circle-radius", n(40)),
    ]);
    let disc = |cy: u32, color: &str| Shape::Circle {
        cx: 20,
        cy,
        radius: "10".to_string(),
        fill: color.to_string(),
        opacity: "0.8".to_string(),
        stroke: "#fff".to_string(),
        stroke_width: "2".to_string(),
    };
    let (drawing, width, height) = render_circle(&layer("L", None), &paint, 250, 40, false).unwrap();
    assert_eq!((width, height), (250, 80));
    assert_eq!(
        drawing.shapes,
        vec![disc(20, "#111"), text(40, 25, None, "a"), disc(50, "#999"), text(40, 55, None, "L")]
    );
    let e = render_circle(&layer("L", None), &members(vec![]), 250, 40, true).unwrap_err();
    assert_eq!(e, LegendError::InvalidJson("Missing the 'circle-color' field in paint".to_string()));
}

fn single_circle(radius: Option<Json>, default_height: u32) -> Result<(Drawing, u32, u32), LegendError> {
    let mut paint = members(vec![("circle-color", arr(vec![s("case")]))]);
    if let Some(radius) = radius {
        paint.push(("circle-radius".to_string(), radius));
    }
    render_circle(&layer("L", None), &paint, 250, default_height, true)
}

fn disc_of(drawing: &Drawing) -> (u32, String) {
    match &drawing.shapes[0] {
        Shape::Circle { cy, radius, .. } => (*cy, radius.clone()),
        other => panic!("no disc: {other:?}"),
    }
}

#[test]
fn circle_single_with_default_radius() {
    let (drawing, width, height) = single_circle(None, 40).unwrap();
    assert_eq!((width, height), (250, 40));
    assert_eq!(
        drawing,
        Drawing {
            width: 250,
            height: Some(40),
            shapes: vec![
                Shape::Circle {
                    cx: 26,
                    cy: 20,
                    radius: "10".to_string(),
                    fill: "#cccccc".to_string(),
                    opacity: "1".to_string(),
                    stroke: "black".to_string(),
                    stroke_width: "0".to_string(),
                },
                text(55, 25, Some(false), "L"),
            ],
        }
    );
    let (drawing, _, height) = single_circle(Some(s("12")), 40).unwrap();
    assert_eq!(height, 40);
    assert_eq!(disc_of(&drawing), (20, "10".to_string()));
}

#[test]
fn circle_single_grows_with_its_radius() {
    let cases = [
        (decimal("5", "5"), 40, "5"),
        (decimal("19.9", "19.9"), 40, "19.9"),
        (decimal("20", "20"), 60, "20"),
        (decimal("22.5", "22.5"), 62, "22.5"),
        (decimal("25", "25"), 65, "25"),
        (decimal("25.5", "25.5"), 65, "25"),
        (decimal("26", "26"), 65, "25"),
        (decimal("1e3", "1000"), 65, "25"),
        (decimal("1e30", "1000000000000000000000000000000"), 65, "25"),
        (decimal("0.5", "0.5"), 40, "0.5"),
        (decimal("-30", "-30"), 40, "-30"),
        (decimal("0", "0"), 40, "0"),
    ];
    for (radius, expected_height, expected_text) in cases {
        let (drawing, _, height) = single_circle(Some(radius), 40).unwrap();
        assert_eq!(height, expected_height);
        assert_eq!(drawing.height, Some(expected_height));
        assert_eq!(disc_of(&drawing), (expected_height / 2, expected_text.to_string()));
        assert_eq!(drawing.shapes[1], text(55, expected_height / 2 + 5, Some(false), "L"));
    }
}

#[test]
fn circle_single_that_is_too_tall() {
    let e = single_circle(Some(n(22)), u32::MAX - 21).unwrap_err();
    assert_eq!(e, LegendError::InvalidJson("The legend of layer 'L' is too tall".to_string()));
    let (_, _, height) = single_circle(Some(n(22)), u32::MAX - 22).unwrap();
    assert_eq!(height, u32::MAX);
}

#[test]
fn raster_and_heatmap_pictures() {
    let (drawing, width, height) = render_raster(&layer("sat", None), 250, 40, true).unwrap();
    assert_eq!((width, height), (250, 40));
    assert_eq!(
        drawing,
        Drawing {
            width: 250,
            height: Some(40),
            shapes: vec![Shape::Checkerboard, text(55, 25, Some(false), "sat")],
        }
    );
    let (drawing, _, _) = render_raster(&layer("sat", None), 250, 40, false).unwrap();
    assert_eq!(drawing.shapes, vec![Shape::Checkerboard]);
    let (drawing, _, _) = render_heatmap(&layer("heat", None), 250, 40, true).unwrap();
    assert_eq!(drawing.shapes, vec![Shape::Heat, text(55, 25, Some(false), "heat")]);
    let broken = layer("sat", Some(n(1)));
    assert!(render_raster(&broken, 250, 40, true).is_err());
    assert!(render_heatmap(&broken, 250, 40, true).is_err());
    assert!(render_raster(&broken, 250, 40, false).is_ok());
}

#[test]
fn symbol_with_one_icon() {
    let poi = symbol_layer(obj(vec![("icon-image", s("bus"))]));
    let (drawing, width, height) = render_symbol(&poi, 250, 40, true, true).unwrap();
    assert_eq!((width, height), (250, 40));
    assert_eq!(
        drawing,
        Drawing {
            width: 250,
            height: None,
            shapes: vec![image(10, "bus"), text(40, 25, Some(false), "poi")],
        }
    );
    let (drawing, _, _) = render_symbol(&poi, 250, 40, false, true).unwrap();
    assert_eq!(drawing.shapes, vec![image(10, "bus")]);
    let e = render_symbol(&poi, 250, 40, true, false).unwrap_err();
    assert_eq!(e, LegendError::InvalidJson("Missing sprite data for 'icon-image'".to_string()));
}

#[test]
fn symbol_with_a_list_of_icons() {
    let expression = arr(vec![s("match"), get("kind"), s("bus"), s("bus-11"), s("dot-11")]);
    let poi = symbol_layer(obj(vec![("icon-image", expression)]));
    let (drawing, width, height) = render_symbol(&poi, 250, 40, true, true).unwrap();
    assert_eq!((width, height), (250, 110));
    assert_eq!(
        drawing,
        Drawing {
            width: 250,
            height: Some(110),
            shapes: vec![
                text(10, 20, Some(true), "poi"),
                Shape::Separator { width: 250, x: 0, y: 10 },
                image(40, "bus-11"),
                text(40, 55, None, "bus"),
                image(70, "dot-11"),
                text(40, 85, None, "poi"),
            ],
        }
    );
    let (drawing, _, height) = render_symbol(&poi, 250, 40, false, true).unwrap();
    assert_eq!(height, 80);
    assert_eq!(drawing.shapes[0], image(10, "bus-11"));
    let none = symbol_layer(obj(vec![("icon-image", arr(vec![s("case")]))]));
    let (drawing, _, height) = render_symbol(&none, 250, 40, false, true).unwrap();
    assert_eq!(height, 20);
    assert_eq!(drawing, Drawing { width: 250, height: Some(20), shapes: vec![] });
}

#[test]
fn symbol_with_text() {
    let poi = symbol_layer(obj(vec![("text-field", s("{name}"))]));
    let glyph = Shape::Glyph { x: 14, y: 25, size: 16, content: "T".to_string() };
    let (drawing, width, height) = render_symbol(&poi, 250, 40, true, false).unwrap();
    assert_eq!((width, height), (250, 40));
    assert_eq!(
        drawing,
        Drawing {
            width: 250,
            height: Some(40),
            shapes: vec![
                Shape::Glyph { x: 14, y: 25, size: 16, content: "T".to_string() },
                text(30, 25, Some(false), "poi"),
            ],
        }
    );
    let (drawing, _, _) = render_symbol(&poi, 250, 40, false, false).unwrap();
    assert_eq!(drawing.shapes, vec![glyph]);
    let e = render_symbol(&symbol_layer(obj(vec![])), 250, 40, false, true).unwrap_err();
    assert_eq!(e.kind(), ErrorKind::InvalidJson);
}

#[test]
fn default_drawing() {
    let (drawing, width, height) = render_default(&layer("bg", None), 250, 40, true).unwrap();
    assert_eq!((width, height), (250, 40));
    assert_eq!(
        drawing,
        Drawing {
            width: 250,
            height: Some(40),
            shapes: vec![
                rect(10, "#cccccc", "0.8", Some("#333333")),
                text(55, 25, Some(false), "bg"),
            ],
        }
    );
    let (drawing, _, _) = render_default(&layer("bg", None), 250, 40, false).unwrap();
    assert_eq!(drawing.shapes, vec![rect(10, "#cccccc", "0.8", Some("#333333"))]);
    let (drawing, _, _) = render_default(&layer("bg", Some(n(1))), 250, 40, true).unwrap();
    assert_eq!(drawing.shapes, vec![rect(10, "#cccccc", "0.8", Some("#333333"))]);
}

#[test]
fn label_and_separator() {
    let mut drawing = Drawing { width: 100, height: Some(40), shapes: vec![] };
    let titled = layer("L", Some(obj(vec![("label", s("Roads"))])));
    render_label(&titled, &mut drawing, None, None, None).unwrap();
    render_label(&titled, &mut drawing, Some(10), Some(20), Some(true)).unwrap();
    render_separator(&mut drawing, 100, 0, 10);
    render_label(&titled, &mut drawing, Some(30), None, Some(false)).unwrap();
    assert_eq!(
        drawing,
        Drawing {
            width: 100,
            height: Some(40),
            shapes: vec![
                text(55, 25, Some(false), "Roads"),
                text(10, 20, Some(true), "Roads"),
                Shape::Separator { width: 100, x: 0, y: 10 },
                text(30, 25, Some(false), "Roads"),
            ],
        }
    );
    let e = render_label(&layer("L", Some(n(1))), &mut drawing, None, None, None).unwrap_err();
    assert_eq!(e, LegendError::InvalidJson("The 'legend' field is not an object".to_string()));
    assert_eq!(drawing.shapes.len(), 4);
}

#[test]
fn list_of_no_entries() {
    let strokes = Strokes {
        opacity: "1".to_string(),
        stroke: "black".to_string(),
        stroke_width: "0".to_string(),
    };
    let drawing = draw_list(SwatchKind::Fill, None, &vec![], &strokes, 80).unwrap();
    assert_eq!(drawing, Drawing { width: 80, height: Some(20), shapes: vec![] });
    let drawing = draw_list(SwatchKind::Icon, Some("t"), &vec![], &strokes, 80).unwrap();
    assert_eq!(drawing.height, Some(50));
    assert_eq!(drawing.shapes.len(), 2);
}
