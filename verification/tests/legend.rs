use maplibre_legend::drawing::{Drawing, Shape};
use maplibre_legend::error::LegendError;
use maplibre_legend::json::{Json, JsonNumber};
use maplibre_legend::layer::{Layer, Style};
use maplibre_legend::layout::checker_color;
use maplibre_legend::legend::{
    combine_layers, render_layer_svg, stack_documents, MapLibreLegend,
};
use maplibre_legend::markup::{has_text, inner_markup, join_kept_lines, occurs_in};
use maplibre_legend::number::{read_unsigned, read_whole};
use maplibre_legend::sprite::{
    get_icon_rect, png_data_url, sprite_addresses, IconRect, SpriteAddresses,
};

fn s(text: &str) -> Json {
    Json::String(text.to_string())
}

fn obj(pairs: Vec<(&str, Json)>) -> Json {
    Json::Object(pairs.into_iter().map(|(k, v)| (k.to_string(), v)).collect())
}

fn layer(id: &str, kind: &str, paint: Option<Json>, layout: Option<Json>) -> Layer {
    Layer {
        id: id.to_string(),
        layer_type: kind.to_string(),
        paint,
        layout,
        metadata: None,
    }
}

fn sample_style() -> Style {
    Style {
        layers: vec![
            layer("land", "fill", Some(obj(vec![("fill-color", s("#0a0"))])), None),
            layer("sat", "raster", None, None),
            layer("roads", "line", Some(obj(vec![("line-color", s("#555"))])), None),
            layer("bg", "background", None, None),
        ],
        sprite: None,
    }
}

fn first_shape(part: &(Option<Drawing>, u32, u32)) -> &Shape {
    &part.0.as_ref().unwrap().shapes[0]
}

#[test]
fn layers_are_drawn_by_type() {
    let fill = layer("land", "fill", Some(obj(vec![("fill-color", s("#0a0"))])), None);
    let (drawing, width, height) = render_layer_svg(&fill, 250, 40, false, false, false).unwrap();
    assert_eq!((width, height), (250, 50));
    assert!(matches!(drawing.unwrap().shapes[0], Shape::Rect { .. }));
    let line = layer("roads", "line", Some(obj(vec![("line-color", s("#555"))])), None);
    let (drawing, _, _) = render_layer_svg(&line, 250, 40, false, false, false).unwrap();
    assert!(matches!(drawing.unwrap().shapes[0], Shape::Line { .. }));
    let circle = layer("stops", "circle", Some(obj(vec![("circle-color", s("#555"))])), None);
    let (drawing, _, _) = render_layer_svg(&circle, 250, 40, false, false, false).unwrap();
    assert!(matches!(drawing.unwrap().shapes[0], Shape::Circle { .. }));
    let symbol = layer("poi", "symbol", None, Some(obj(vec![("icon-image", s("bus"))])));
    let (drawing, _, _) = render_layer_svg(&symbol, 250, 40, false, false, true).unwrap();
    assert!(matches!(drawing.unwrap().shapes[0], Shape::Image { .. }));
    assert!(render_layer_svg(&symbol, 250, 40, false, false, false).is_err());
    let raster = layer("sat", "raster", None, None);
    let (drawing, width, height) = render_layer_svg(&raster, 250, 40, false, true, false).unwrap();
    assert_eq!((width, height), (250, 40));
    assert_eq!(drawing.unwrap().shapes, vec![Shape::Checkerboard]);
    assert_eq!(render_layer_svg(&raster, 250, 40, true, false, false).unwrap(), (None, 0, 0));
    let other = layer("bg", "background", None, None);
    let (drawing, width, height) = render_layer_svg(&other, 250, 40, true, false, false).unwrap();
    assert_eq!((width, height), (250, 40));
    assert_eq!(drawing.unwrap().shapes.len(), 2);
}

#[test]
fn painted_layers_need_a_paint_object() {
    for kind in ["fill", "line", "circle"] {
        let bare = layer("x", kind, None, None);
        assert_eq!(
            render_layer_svg(&bare, 250, 40, true, false, false).unwrap_err(),
            LegendError::InvalidJson("Missing the 'paint' field for layer 'x'".to_string())
        );
        let wrong = layer("x", kind, Some(s("red")), None);
        assert_eq!(
            render_layer_svg(&wrong, 250, 40, true, false, false).unwrap_err(),
            LegendError::InvalidJson("The 'paint' field is not an object for layer 'x'".to_string())
        );
    }
}

#[test]
fn one_layer_of_a_legend() {
    let legend = MapLibreLegend::new(sample_style(), 250, 40, true, false, false);
    assert_eq!(legend.default_width, 250);
    assert_eq!(legend.default_height, 40);
    assert!(legend.has_label);
    assert!(!legend.include_raster);
    let (drawing, width, height) = legend.render_layer("land", None).unwrap();
    assert_eq!((width, height), (250, 70));
    assert_eq!(drawing.unwrap().shapes.len(), 4);
    let (drawing, width, height) = legend.render_layer("land", Some(false)).unwrap();
    assert_eq!((width, height), (250, 50));
    assert_eq!(drawing.unwrap().shapes.len(), 2);
    assert_eq!(legend.render_layer("sat", Some(true)).unwrap(), (None, 0, 0));
    assert_eq!(
        legend.render_layer("nowhere", None).unwrap_err(),
        LegendError::InvalidJson("Layer with ID 'nowhere' not found".to_string())
    );
    let plain = MapLibreLegend::new(sample_style(), 250, 40, false, true, false);
    let (drawing, _, height) = plain.render_layer("land", None).unwrap();
    assert_eq!(height, 50);
    assert_eq!(drawing.unwrap().shapes.len(), 2);
    let (drawing, _, height) = plain.render_layer("land", Some(true)).unwrap();
    assert_eq!(height, 70);
    assert_eq!(drawing.unwrap().shapes.len(), 4);
    assert!(plain.render_layer("sat", None).unwrap().0.is_some());
}

#[test]
fn all_layers_of_a_legend() {
    let legend = MapLibreLegend::new(sample_style(), 250, 40, false, false, false);
    let parts = legend.render_all(false).unwrap();
    assert_eq!(parts.len(), 4);
    assert!(matches!(first_shape(&parts[0]), Shape::Rect { fill, .. } if fill == "#0a0"));
    assert_eq!(parts[1], (None, 0, 0));
    assert!(matches!(first_shape(&parts[2]), Shape::Line { .. }));
    assert!(matches!(first_shape(&parts[3]), Shape::Rect { fill, .. } if fill == "#cccccc"));
    let sizes: Vec<(u32, u32)> = parts.iter().map(|p| (p.1, p.2)).collect();
    assert_eq!(sizes, vec![(250, 50), (0, 0), (250, 50), (250, 40)]);

    let reversed = legend.render_all(true).unwrap();
    assert_eq!(reversed.len(), 4);
    assert!(matches!(first_shape(&reversed[0]), Shape::Rect { fill, .. } if fill == "#cccccc"));
    assert!(matches!(first_shape(&reversed[1]), Shape::Line { .. }));
    assert_eq!(reversed[2], (None, 0, 0));
    assert!(matches!(first_shape(&reversed[3]), Shape::Rect { fill, .. } if fill == "#0a0"));

    let empty = MapLibreLegend::new(Style { layers: vec![], sprite: None }, 250, 40, true, true, false);
    assert_eq!(empty.render_all(false).unwrap(), vec![]);
    assert_eq!(empty.render_all(true).unwrap(), vec![]);
}

#[test]
fn the_first_layer_that_fails_decides() {
    let style = Style {
        layers: vec![
            layer("a", "fill", None, None),
            layer("b", "background", None, None),
            layer("c", "line", None, None),
        ],
        sprite: None,
    };
    let legend = MapLibreLegend::new(style, 250, 40, true, false, false);
    assert_eq!(
        legend.render_all(false).unwrap_err(),
        LegendError::InvalidJson("Missing the 'paint' field for layer 'a'".to_string())
    );
    assert_eq!(
        legend.render_all(true).unwrap_err(),
        LegendError::InvalidJson("Missing the 'paint' field for layer 'c'".to_string())
    );
}

#[test]
fn a_failing_layer_holds_up_no_other() {
    let style = Style {
        layers: vec![
            layer("a", "fill", None, None),
            layer("b", "background", None, None),
            layer("c", "line", Some(obj(vec![("line-color", s("#555"))])), None),
        ],
        sprite: None,
    };
    let legend = MapLibreLegend::new(style, 250, 40, false, false, false);
    let each = legend.render_each(false);
    assert_eq!(each.len(), 3);
    assert_eq!(
        each[0],
        Err(LegendError::InvalidJson("Missing the 'paint' field for layer 'a'".to_string()))
    );
    assert!(matches!(first_shape(each[1].as_ref().unwrap()), Shape::Rect { .. }));
    assert!(matches!(first_shape(each[2].as_ref().unwrap()), Shape::Line { .. }));
    let reversed = legend.render_each(true);
    assert!(matches!(first_shape(reversed[0].as_ref().unwrap()), Shape::Line { .. }));
    assert!(reversed[2].is_err());
    assert!(legend.render_all(false).is_err());
}

#[test]
fn stacked_document() {
    assert_eq!(
        combine_layers(&vec![]).unwrap(),
        "<svg xmlns='http://www.w3.org/2000/svg' width='0' height='0' viewBox='0 0 0 0'>\n</svg>"
    );
    let one = vec![("<rect/>".to_string(), 250, 40)];
    assert_eq!(
        combine_layers(&one).unwrap(),
        "<svg xmlns='http://www.w3.org/2000/svg' width='250' height='40' viewBox='0 0 250 40'>\n\
         <g transform='translate(0,0)'><rect/>\n</g>\n</svg>"
    );
    let three = vec![
        ("<rect/>".to_string(), 100, 40),
        ("".to_string(), 0, 0),
        ("<line/>\n<text>\nx\n</text>".to_string(), 250, 70),
    ];
    assert_eq!(
        combine_layers(&three).unwrap(),
        "<svg xmlns='http://www.w3.org/2000/svg' width='250' height='110' viewBox='0 0 250 110'>\n\
         <g transform='translate(0,0)'><rect/>\n</g>\n\
         <line x1='0' y1='40' x2='100' y2='40' stroke='#333333' stroke-width='0.5'/>\n\
         <g transform='translate(0,40)'>\n</g>\n\
         <line x1='0' y1='40' x2='100' y2='40' stroke='#333333' stroke-width='0.5'/>\n\
         <g transform='translate(0,40)'><line/>\n<text>\nx\n</text>\n</g>\n</svg>"
    );
    let tall = vec![("a".to_string(), 1, u32::MAX), ("b".to_string(), 1, 1)];
    assert_eq!(combine_layers(&tall), None);
}

#[test]
fn markup_without_its_wrapper() {
    let document = "<svg height=\"40\" width=\"250\" xmlns=\"http://www.w3.org/2000/svg\">\n\
                    <rect fill=\"#0a0\" x=\"10\"/>\n\
                    <text x=\"45\">\nLand\n</text>\n\
                    </svg>";
    assert_eq!(
        inner_markup(document),
        "<rect fill=\"#0a0\" x=\"10\"/>\n<text x=\"45\">\nLand\n</text>"
    );
    assert_eq!(inner_markup("<svg></svg>"), "");
    assert_eq!(inner_markup(""), "");
    assert_eq!(inner_markup("a"), "a");
    assert_eq!(inner_markup("a\n"), "a");
    assert_eq!(inner_markup("a\n\nb"), "a\n\nb");
    assert_eq!(inner_markup("\na"), "\na");
    assert_eq!(inner_markup("a\r\nb"), "a\nb");
    assert_eq!(inner_markup("x <svg> y\nkeep\nz </svg>\nalso"), "keep\nalso");
    assert_eq!(inner_markup("<sv\ng>"), "<sv\ng>");
}

#[test]
fn line_endings() {
    assert_eq!(inner_markup("a\n\n"), "a\n");
    assert_eq!(inner_markup("\n"), "");
    assert_eq!(inner_markup("\n\n"), "\n");
    assert_eq!(inner_markup("\n\n\n"), "\n\n");
    assert_eq!(inner_markup("a\r\nb\r\n"), "a\nb");
    assert_eq!(inner_markup("a\rb"), "a\rb");
    assert_eq!(inner_markup("a\r"), "a\r");
    assert_eq!(inner_markup("\r"), "\r");
    assert_eq!(inner_markup("a\r\r\nb"), "a\r\nb");
    assert_eq!(inner_markup("\r\n"), "");
    assert_eq!(inner_markup("\r\n\r\n"), "\n");
    assert_eq!(inner_markup("a\n\r"), "a\n\r");
    assert_eq!(inner_markup("a\n\rb\n"), "a\n\rb");
    assert_eq!(inner_markup("a\r\n"), "a");
    assert_eq!(inner_markup("gr\u{fc}n\r\n\u{2265}\n"), "gr\u{fc}n\n\u{2265}");
    assert_eq!(inner_markup("a\u{2028}b\u{85}c\u{b}d\u{c}e"), "a\u{2028}b\u{85}c\u{b}d\u{c}e");
}

// The lines of a text, split by hand: at each line feed, without the
// line feed and without one carriage return before it.
fn lines_by_hand(text: &str) -> Vec<String> {
    let chars: Vec<char> = text.chars().collect();
    let mut lines = Vec::new();
    let mut start = 0;
    while start < chars.len() {
        let mut end = start;
        while end < chars.len() && chars[end] != '\n' {
            end += 1;
        }
        if end == chars.len() {
            lines.push(chars[start..end].iter().collect());
            break;
        }
        let mut stop = end;
        if stop > start && chars[stop - 1] == '\r' {
            stop -= 1;
        }
        lines.push(chars[start..stop].iter().collect());
        start = end + 1;
    }
    lines
}

#[test]
fn lines_of_every_short_text() {
    let alphabet = ['a', '\n', '\r', '<'];
    let mut texts = vec![String::new()];
    for _ in 0..6 {
        let mut longer = Vec::new();
        for text in &texts {
            for c in alphabet {
                let mut next = text.clone();
                next.push(c);
                longer.push(next);
            }
        }
        for text in &longer {
            assert_eq!(inner_markup(text), lines_by_hand(text).join("\n"), "{text:?}");
        }
        texts = longer;
    }
}

#[test]
fn kept_lines_are_joined() {
    let lines = |texts: &[&str]| texts.iter().map(|t| t.to_string()).collect::<Vec<String>>();
    assert_eq!(join_kept_lines(&lines(&[])), "");
    assert_eq!(join_kept_lines(&lines(&["a"])), "a");
    assert_eq!(join_kept_lines(&lines(&["a", "b", "c"])), "a\nb\nc");
    assert_eq!(join_kept_lines(&lines(&["", ""])), "\n");
    assert_eq!(join_kept_lines(&lines(&["a", "", "b"])), "a\n\nb");
    assert_eq!(join_kept_lines(&lines(&["<svg>", "a", "</svg>"])), "a");
    assert_eq!(join_kept_lines(&lines(&["a", "x<svgy", "b", "</svg>z", "c"])), "a\nb\nc");
    assert_eq!(join_kept_lines(&lines(&["<svg>", "</svg>"])), "");
    assert_eq!(join_kept_lines(&lines(&["<sv", "g>", "</ svg>", "<SVG>"])), "<sv\ng>\n</ svg>\n<SVG>");
    assert_eq!(join_kept_lines(&lines(&["a\nb"])), "a\nb");
}

#[test]
fn text_within_text() {
    assert!(has_text("x <svg> y", "<svg"));
    assert!(has_text("<svg", "<svg"));
    assert!(has_text("</svg>", "</svg>"));
    assert!(!has_text("</svg>", "<svg"));
    assert!(!has_text("<sv", "<svg"));
    assert!(!has_text("", "<svg"));
    assert!(has_text("", ""));
    assert!(has_text("abc", ""));
    assert!(has_text("abc", "c"));
    assert!(has_text("abc", "abc"));
    assert!(!has_text("abc", "abcd"));
    assert!(!has_text("abc", "ac"));
    assert!(has_text("aab", "ab"));
    assert!(has_text("gr\u{fc}n \u{2265} 5", "\u{2265} 5"));
    assert!(!has_text("gr\u{fc}n", "u"));
    let text: Vec<char> = "a<svg".chars().collect();
    let pattern: Vec<char> = "<svg".chars().collect();
    assert!(occurs_in(&text, &pattern));
    assert!(!occurs_in(&pattern, &text));
    assert!(occurs_in(&text, &Vec::new()));
}

#[test]
fn stacked_documents() {
    let documents = vec![
        ("<svg width=\"100\">\n<rect/>\n</svg>".to_string(), 100, 40),
        ("<svg></svg>".to_string(), 0, 0),
        ("<svg>\n<line/>\n<text>\nx\n</text>\n</svg>".to_string(), 250, 70),
    ];
    assert_eq!(
        stack_documents(&documents).unwrap(),
        "<svg xmlns='http://www.w3.org/2000/svg' width='250' height='110' viewBox='0 0 250 110'>\n\
         <g transform='translate(0,0)'><rect/>\n</g>\n\
         <line x1='0' y1='40' x2='100' y2='40' stroke='#333333' stroke-width='0.5'/>\n\
         <g transform='translate(0,40)'>\n</g>\n\
         <line x1='0' y1='40' x2='100' y2='40' stroke='#333333' stroke-width='0.5'/>\n\
         <g transform='translate(0,40)'><line/>\n<text>\nx\n</text>\n</g>\n</svg>"
    );
    assert_eq!(
        stack_documents(&vec![]).unwrap(),
        "<svg xmlns='http://www.w3.org/2000/svg' width='0' height='0' viewBox='0 0 0 0'>\n</svg>"
    );
    let tall = vec![("a".to_string(), 1, u32::MAX), ("b".to_string(), 1, 1)];
    assert_eq!(stack_documents(&tall), None);
}

#[test]
fn whole_part_of_a_number_text() {
    assert_eq!(read_whole("22.5", 26), (22, true));
    assert_eq!(read_whole("25", 26), (25, false));
    assert_eq!(read_whole("26", 26), (26, false));
    assert_eq!(read_whole("1000", 26), (26, false));
    assert_eq!(read_whole("99999999999999999999999999", 26), (26, false));
    assert_eq!(read_whole("007", 26), (7, false));
    assert_eq!(read_whole("-3", 26), (0, true));
    assert_eq!(read_whole("", 26), (0, false));
    assert_eq!(read_whole(".5", 26), (0, true));
    assert_eq!(read_whole("12\u{663}", 26), (12, true));
    assert_eq!(read_whole("4294967295", u32::MAX), (4294967295, false));
    assert_eq!(read_whole("4294967296", u32::MAX), (4294967295, false));
    assert_eq!(read_whole("42", 0), (0, false));
}

#[test]
fn unsigned_numbers() {
    assert_eq!(read_unsigned("0"), Some(0));
    assert_eq!(read_unsigned("42"), Some(42));
    assert_eq!(read_unsigned("18446744073709551615"), Some(u64::MAX));
    assert_eq!(read_unsigned("18446744073709551616"), None);
    assert_eq!(read_unsigned("99999999999999999999999"), None);
    assert_eq!(read_unsigned("18446744073709551616x"), None);
    assert_eq!(read_unsigned(""), None);
    assert_eq!(read_unsigned("-1"), None);
    assert_eq!(read_unsigned("1.0"), None);
    assert_eq!(read_unsigned("1e3"), None);
    assert_eq!(read_unsigned("12a"), None);
    assert_eq!(read_unsigned("007"), Some(7));
}

fn number(literal: &str) -> Json {
    Json::Number(JsonNumber { literal: literal.to_string(), plain: literal.to_string() })
}

fn icon(x: Json, y: Json, width: Json, height: Json) -> Json {
    obj(vec![("height", height), ("pixelRatio", number("2")), ("width", width), ("x", x), ("y", y)])
}

#[test]
fn icon_rectangles() {
    let sprite = obj(vec![
        ("bus", icon(number("0"), number("34"), number("21"), number("17"))),
        ("wide", icon(number("4294967296"), number("4294967297"), number("8589934591"), number("5"))),
        ("no-x", obj(vec![("y", number("1")), ("width", number("2")), ("height", number("3"))])),
        ("float", icon(number("1"), number("2.0"), number("3"), number("4"))),
        ("negative", icon(number("1"), number("2"), number("-3"), number("4"))),
        ("text", icon(number("1"), number("2"), number("3"), s("4"))),
        ("huge", icon(number("18446744073709551616"), number("2"), number("3"), number("4"))),
        ("all-bad", obj(vec![])),
        ("flat", number("3")),
    ]);
    assert_eq!(get_icon_rect(&sprite, "bus"), Ok(IconRect { x: 0, y: 34, width: 21, height: 17 }));
    assert_eq!(
        get_icon_rect(&sprite, "wide"),
        Ok(IconRect { x: 0, y: 1, width: 4294967295, height: 5 })
    );
    let invalid = |message: &str| Err(LegendError::InvalidJson(message.to_string()));
    assert_eq!(get_icon_rect(&sprite, "tram"), invalid("Icon 'tram' not found in sprite JSON"));
    assert_eq!(get_icon_rect(&sprite, "no-x"), invalid("Invalid 'x' field for icon 'no-x'"));
    assert_eq!(get_icon_rect(&sprite, "float"), invalid("Invalid 'y' field for icon 'float'"));
    assert_eq!(
        get_icon_rect(&sprite, "negative"),
        invalid("Invalid 'width' field for icon 'negative'")
    );
    assert_eq!(get_icon_rect(&sprite, "text"), invalid("Invalid 'height' field for icon 'text'"));
    assert_eq!(get_icon_rect(&sprite, "huge"), invalid("Invalid 'x' field for icon 'huge'"));
    assert_eq!(get_icon_rect(&sprite, "all-bad"), invalid("Invalid 'x' field for icon 'all-bad'"));
    assert_eq!(get_icon_rect(&sprite, "flat"), invalid("Invalid 'x' field for icon 'flat'"));
    assert_eq!(get_icon_rect(&s("x"), "bus"), invalid("Icon 'bus' not found in sprite JSON"));
}

#[test]
fn addresses_of_a_sprite() {
    assert_eq!(
        sprite_addresses("https://example.org/sprites/basic"),
        SpriteAddresses {
            png_2x: "https://example.org/sprites/basic@2x.png".to_string(),
            png: "https://example.org/sprites/basic.png".to_string(),
            json_2x: "https://example.org/sprites/basic@2x.json".to_string(),
            json: "https://example.org/sprites/basic.json".to_string(),
        }
    );
}

#[test]
fn data_url_of_an_image() {
    let head = [0x89, b'P', b'N', b'G', 0x0d, 0x0a, 0x1a, 0x0a];
    assert_eq!(png_data_url(&head).unwrap(), "data:image/png;base64,iVBORw0KGgo=");
    assert_eq!(png_data_url(&[]).unwrap(), "data:image/png;base64,");
    assert_eq!(png_data_url(b"hello").unwrap(), "data:image/png;base64,aGVsbG8=");
    assert_eq!(png_data_url(b"hello!").unwrap(), "data:image/png;base64,aGVsbG8h");
    assert_eq!(png_data_url(&[0xfb, 0xff]).unwrap(), "data:image/png;base64,+/8=");
}

#[test]
fn checkerboard_colors() {
    let colors = ["#e9ecef", "#d8e2dc", "#c0d6d4", "#a8c8c8", "#90badc"];
    for column in 0..4u8 {
        for row in 0..2u8 {
            let shade = (usize::from(column) * 3 + usize::from(row) * 7) % 5;
            assert_eq!(checker_color(column, row), colors[shade]);
        }
    }
    assert_eq!(checker_color(0, 0), "#e9ecef");
    assert_eq!(checker_color(1, 1), "#e9ecef");
    assert_eq!(checker_color(3, 1), "#d8e2dc");
}
