use gst_inspect::caps::{print_caps, push_structure, render, CapsField, CapsSet, CapsStructure};
use gst_inspect::style::styled;
use gst_inspect::text::{Line, Tone};

fn texts(lines: &[Line]) -> Vec<String> {
    lines.iter().map(|l| l.text()).collect()
}

fn field(name: &str, value: Option<&str>) -> CapsField {
    CapsField { name: name.to_string(), value: value.map(|v| v.to_string()) }
}

fn structure(name: &str, feature: Option<&str>, fields: Vec<CapsField>) -> CapsStructure {
    CapsStructure { name: name.to_string(), feature: feature.map(|f| f.to_string()), fields }
}

#[test]
fn any_is_a_single_constant_line() {
    let lines = render(&CapsSet::Any);
    assert_eq!(texts(&lines), vec!["      ANY"]);
    assert_eq!(lines[0].spans.len(), 2);
    assert_eq!(lines[0].spans[0].tone, Tone::Plain);
    assert_eq!(lines[0].spans[1].tone, Tone::CapsType);
    assert_eq!(lines[0].spans[1].text, "ANY");
}

#[test]
fn empty_is_a_single_constant_line() {
    let lines = render(&CapsSet::Empty);
    assert_eq!(texts(&lines), vec!["      EMPTY"]);
    assert_eq!(lines[0].spans[1].tone, Tone::CapsType);
}

#[test]
fn a_set_without_alternatives_is_empty() {
    let lines = render(&CapsSet::Structures(Vec::new()));
    assert_eq!(texts(&lines), vec!["      EMPTY"]);
}

#[test]
fn system_memory_feature_is_not_shown() {
    let caps = CapsSet::Structures(vec![structure(
        "video/x-raw",
        Some("memory:SystemMemory"),
        vec![field("width", Some("640"))],
    )]);
    let lines = render(&caps);
    assert_eq!(texts(&lines), vec!["      video/x-raw", "                  width: 640"]);
    assert_eq!(lines[0].spans.len(), 2);
    assert_eq!(lines[0].spans[1].tone, Tone::StructName);
    assert_eq!(lines[0].spans[1].text, "video/x-raw");
    assert_eq!(lines[1].spans[0].tone, Tone::FieldName);
    assert_eq!(lines[1].spans[1].text, ": ");
    assert_eq!(lines[1].spans[2].tone, Tone::FieldValue);
    assert_eq!(lines[1].spans[2].text, "640");
}

#[test]
fn absent_feature_is_not_shown() {
    let caps = CapsSet::Structures(vec![structure("video/x-raw", None, vec![field("width", Some("640"))])]);
    assert_eq!(texts(&render(&caps)), vec!["      video/x-raw", "                  width: 640"]);
}

#[test]
fn other_feature_follows_the_name_in_parentheses() {
    let caps = CapsSet::Structures(vec![structure(
        "video/x-raw",
        Some("memory:GLMemory"),
        vec![field("width", Some("640"))],
    )]);
    let lines = render(&caps);
    assert_eq!(
        texts(&lines),
        vec!["      video/x-raw(memory:GLMemory)", "                  width: 640"]
    );
    assert_eq!(lines[0].spans.len(), 5);
    assert_eq!(lines[0].spans[3].tone, Tone::CapsFeature);
    assert_eq!(lines[0].spans[3].text, "memory:GLMemory");
}

#[test]
fn the_any_feature_is_shown() {
    let caps = CapsSet::Structures(vec![structure("video/x-raw", Some("ANY"), Vec::new())]);
    assert_eq!(texts(&render(&caps)), vec!["      video/x-raw(ANY)"]);
}

#[test]
fn a_field_without_value_is_left_out() {
    let caps = CapsSet::Structures(vec![structure(
        "audio/x-raw",
        None,
        vec![
            field("rate", Some("[ 1, 2147483647 ]")),
            field("opaque", None),
            field("channels", Some("2")),
        ],
    )]);
    assert_eq!(
        texts(&render(&caps)),
        vec![
            "      audio/x-raw",
            "                   rate: [ 1, 2147483647 ]",
            "               channels: 2",
        ]
    );
}

#[test]
fn alternatives_and_fields_keep_their_order() {
    let caps = CapsSet::Structures(vec![
        structure("video/x-raw", None, vec![field("width", Some("640")), field("height", Some("480"))]),
        structure("audio/x-raw", Some("memory:DMABuf"), Vec::new()),
        structure("application/x-rtp", None, vec![field("all-gone", None)]),
    ]);
    assert_eq!(
        texts(&render(&caps)),
        vec![
            "      video/x-raw",
            "                  width: 640",
            "                 height: 480",
            "      audio/x-raw(memory:DMABuf)",
            "      application/x-rtp",
        ]
    );
}

#[test]
fn a_long_field_name_is_not_cut() {
    let caps = CapsSet::Structures(vec![structure(
        "x",
        None,
        vec![field("a-field-name-longer-than-the-column", Some("1"))],
    )]);
    assert_eq!(texts(&render(&caps)), vec!["      x", "a-field-name-longer-than-the-column: 1"]);
}

#[test]
fn print_caps_appends_to_what_is_there() {
    let mut out: Vec<Line> = Vec::new();
    print_caps(&mut out, &CapsSet::Any);
    print_caps(&mut out, &CapsSet::Empty);
    push_structure(&mut out, &structure("a/b", None, vec![field("k", Some("v"))]));
    assert_eq!(
        texts(&out),
        vec!["      ANY", "      EMPTY", "      a/b", "                      k: v"]
    );
}

#[test]
fn rendered_caps_are_coloured() {
    let caps = CapsSet::Structures(vec![structure(
        "video/x-raw",
        Some("memory:GLMemory"),
        vec![field("width", Some("640"))],
    )]);
    let lines = render(&caps);
    assert_eq!(
        styled(&lines[0]),
        "      \u{1b}[33mvideo/x-raw\u{1b}[0m(\u{1b}[32mmemory:GLMemory\u{1b}[0m)"
    );
    assert_eq!(
        styled(&lines[1]),
        "\u{1b}[36m                  width\u{1b}[0m: \u{1b}[38;2;97;127;166m640\u{1b}[0m"
    );
}
