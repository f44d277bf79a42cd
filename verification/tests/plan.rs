use maplibre_legend::error::{ErrorKind, LegendError};
use maplibre_legend::json::{Json, JsonNumber};
use maplibre_legend::layer::Layer;
use maplibre_legend::layout::{
    icon_rows_height, stack_layers, swatch_list_height, swatch_row, Placement,
};
use maplibre_legend::plan::{
    get_paint_object, paint_swatches, plan_symbol, renderer_for, Renderer, Swatches, Symbol,
};

fn s(text: &str) -> Json {
    Json::String(text.to_string())
}

fn n(value: i32) -> Json {
    Json::Number(JsonNumber::from_i32(value))
}

fn arr(items: Vec<Json>) -> Json {
    Json::Array(items)
}

fn obj(members: Vec<(&str, Json)>) -> Json {
    Json::Object(members.into_iter().map(|(k, v)| (k.to_string(), v)).collect())
}

fn get(name: &str) -> Json {
    arr(vec![s("get"), s(name)])
}

fn layer(kind: &str, paint: Option<Json>, layout: Option<Json>) -> Layer {
    Layer {
        id: "L".to_string(),
        layer_type: kind.to_string(),
        paint,
        layout,
        metadata: None,
    }
}

fn entries(pairs: &[(&str, &str)]) -> Vec<(String, String)> {
    pairs.iter().map(|(l, c)| (l.to_string(), c.to_string())).collect()
}

#[test]
fn renderer_by_layer_type() {
    assert_eq!(renderer_for("fill", false), Renderer::Fill);
    assert_eq!(renderer_for("line", false), Renderer::Line);
    assert_eq!(renderer_for("circle", true), Renderer::Circle);
    assert_eq!(renderer_for("symbol", false), Renderer::Symbol);
    assert_eq!(renderer_for("raster", true), Renderer::Raster);
    assert_eq!(renderer_for("raster", false), Renderer::Nothing);
    assert_eq!(renderer_for("heatmap", true), Renderer::Default);
    assert_eq!(renderer_for("background", false), Renderer::Default);
    assert_eq!(renderer_for("", false), Renderer::Default);
    assert_eq!(renderer_for("Fill", false), Renderer::Default);
}

#[test]
fn paint_object_is_required() {
    let e = get_paint_object(&layer("fill", None, None)).unwrap_err();
    assert_eq!(e, LegendError::InvalidJson("Missing the 'paint' field for layer 'L'".to_string()));
    let e = get_paint_object(&layer("fill", Some(s("red")), None)).unwrap_err();
    assert_eq!(
        e,
        LegendError::InvalidJson("The 'paint' field is not an object for layer 'L'".to_string())
    );
    let with_paint = layer("fill", Some(obj(vec![("fill-color", s("red"))])), None);
    assert_eq!(get_paint_object(&with_paint).unwrap().len(), 1);
}

#[test]
fn swatches_of_a_paint_property() {
    let expression = arr(vec![s("match"), get("s"), s("a"), s("#111"), s("#999")]);
    let paint = obj(vec![
        ("fill-color", expression),
        ("line-color", s("#0f0")),
        ("circle-color", arr(vec![s("case")])),
        ("fill-outline-color", Json::Null),
    ]);
    let fill = layer("fill", Some(paint), None);
    let members = get_paint_object(&fill).unwrap();
    assert_eq!(
        paint_swatches(&fill, members, "fill-color").unwrap(),
        Swatches::List(entries(&[("a", "#111"), ("L", "#999")]))
    );
    assert_eq!(
        paint_swatches(&fill, members, "line-color").unwrap(),
        Swatches::List(entries(&[("L", "#0f0")]))
    );
    assert_eq!(
        paint_swatches(&fill, members, "circle-color").unwrap(),
        Swatches::Single("#cccccc".to_string())
    );
    let e = paint_swatches(&fill, members, "fill-extrusion-color").unwrap_err();
    assert_eq!(
        e,
        LegendError::InvalidJson("Missing the 'fill-extrusion-color' field in paint".to_string())
    );
    let e = paint_swatches(&fill, members, "fill-outline-color").unwrap_err();
    assert_eq!(e.kind(), ErrorKind::InvalidExpression);
}

#[test]
fn symbol_plans() {
    let icon = layer("symbol", None, Some(obj(vec![("icon-image", s("bus"))])));
    assert_eq!(plan_symbol(&icon, true).unwrap(), Symbol::Icon("bus".to_string()));
    assert_eq!(
        plan_symbol(&icon, false).unwrap_err(),
        LegendError::InvalidJson("Missing sprite data for 'icon-image'".to_string())
    );
    let expression = arr(vec![s("match"), get("kind"), s("bus"), s("bus-11"), s("dot-11")]);
    let icons = layer("symbol", None, Some(obj(vec![("icon-image", expression)])));
    assert_eq!(
        plan_symbol(&icons, true).unwrap(),
        Symbol::Icons(entries(&[("bus", "bus-11"), ("L", "dot-11")]))
    );
    let empty = layer("symbol", None, Some(obj(vec![("icon-image", arr(vec![s("case")]))])));
    assert_eq!(plan_symbol(&empty, true).unwrap(), Symbol::Icons(entries(&[])));
    let broken = layer("symbol", None, Some(obj(vec![("icon-image", arr(vec![s("foo")]))])));
    assert_eq!(plan_symbol(&broken, true).unwrap_err().kind(), ErrorKind::InvalidExpression);
    let number = layer("symbol", None, Some(obj(vec![("icon-image", n(1))])));
    assert_eq!(
        plan_symbol(&number, true).unwrap_err(),
        LegendError::InvalidJson(
            "The field 'icon-image' is neither a string nor an array".to_string()
        )
    );
    let text = layer("symbol", None, Some(obj(vec![("text-field", s("{name}"))])));
    assert_eq!(plan_symbol(&text, false).unwrap(), Symbol::Text);
    let both = layer(
        "symbol",
        None,
        Some(obj(vec![("text-field", s("{name}")), ("icon-image", s("bus"))])),
    );
    assert_eq!(plan_symbol(&both, true).unwrap(), Symbol::Icon("bus".to_string()));
    let neither = layer("symbol", None, Some(obj(vec![])));
    assert_eq!(
        plan_symbol(&neither, true).unwrap_err(),
        LegendError::InvalidJson(
            "Neither 'text-field' nor 'icon-image' are present in 'layout'".to_string()
        )
    );
    let missing = layer("symbol", None, None);
    assert_eq!(
        plan_symbol(&missing, true).unwrap_err(),
        LegendError::InvalidJson("Missing 'layout' field".to_string())
    );
}

#[test]
fn heights_of_swatch_lists() {
    assert_eq!(swatch_list_height(1, false), Some(50));
    assert_eq!(swatch_list_height(1, true), Some(70));
    assert_eq!(swatch_list_height(3, false), Some(110));
    assert_eq!(swatch_list_height(3, true), Some(130));
    assert_eq!(swatch_list_height(0, false), Some(20));
    assert_eq!(swatch_list_height(143165575, false), Some(4294967270));
    assert_eq!(swatch_list_height(143165575, true), Some(4294967290));
    assert_eq!(swatch_list_height(143165576, false), None);
    assert_eq!(swatch_list_height(usize::MAX, true), None);
}

#[test]
fn rows_of_swatch_lists() {
    assert_eq!(swatch_row(10, false, 0), Some(10));
    assert_eq!(swatch_row(10, true, 0), Some(40));
    assert_eq!(swatch_row(20, false, 2), Some(80));
    assert_eq!(swatch_row(20, true, 2), Some(110));
    assert_eq!(swatch_row(u32::MAX, false, 0), Some(u32::MAX));
    assert_eq!(swatch_row(u32::MAX, true, 0), None);
    assert_eq!(swatch_row(0, false, 143165577), None);
    assert_eq!(swatch_row(0, false, usize::MAX), None);
}

#[test]
fn heights_of_icon_lists() {
    assert_eq!(icon_rows_height(0, false), Some(20));
    assert_eq!(icon_rows_height(2, false), Some(80));
    assert_eq!(icon_rows_height(2, true), Some(110));
    assert_eq!(icon_rows_height(143165576, false), None);
}

#[test]
fn layers_stack_downwards() {
    assert_eq!(stack_layers(&vec![]), Some(vec![]));
    let places = stack_layers(&vec![(250, 40), (100, 110), (300, 0), (0, 50)]).unwrap();
    assert_eq!(
        places,
        vec![
            Placement { offset: 0, bottom: 40, width: 250 },
            Placement { offset: 40, bottom: 150, width: 250 },
            Placement { offset: 150, bottom: 150, width: 300 },
            Placement { offset: 150, bottom: 200, width: 300 },
        ]
    );
    assert_eq!(stack_layers(&vec![(1, u32::MAX), (1, 1)]), None);
    assert_eq!(
        stack_layers(&vec![(1, u32::MAX), (2, 0)]),
        Some(vec![
            Placement { offset: 0, bottom: u32::MAX, width: 1 },
            Placement { offset: u32::MAX, bottom: u32::MAX, width: 2 },
        ])
    );
}
