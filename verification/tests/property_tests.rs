use gst_inspect::caps::{CapsField, CapsSet, CapsStructure};
use gst_inspect::property::{
    copy_number, format_value, number_string, position_of, print_default_property_value,
    print_pspec_flags, print_value, quote, select_value, title_of, EnumAlternative, Number,
    NumericKind, ParamFlags, Property, PropertyKind, PropertySpec, PropertyValue,
};
use gst_inspect::text::{Line, Tone};

fn texts(lines: &[Line]) -> Vec<String> {
    lines.iter().map(|l| l.text()).collect()
}

fn no_flags() -> ParamFlags {
    ParamFlags {
        readable: false,
        writable: false,
        deprecated: false,
        controllable: false,
        mutable_playing: false,
        mutable_paused: false,
        mutable_ready: false,
    }
}

fn spec_of(kind: PropertyKind, flags: ParamFlags) -> PropertySpec {
    PropertySpec {
        name: "prop".to_string(),
        blurb: Some("A property".to_string()),
        kind,
        flags,
        owner_type: "GstFoo".to_string(),
    }
}

fn integer_kind() -> PropertyKind {
    PropertyKind::Ranged {
        kind: NumericKind::Integer,
        minimum: Number::Signed(0),
        maximum: Number::Signed(100),
    }
}

fn priorities() -> Vec<EnumAlternative> {
    vec![
        EnumAlternative { value: 0, nick: "low".to_string(), name: "Low priority".to_string() },
        EnumAlternative { value: 1, nick: "high".to_string(), name: "High priority".to_string() },
    ]
}

#[test]
fn unreadable_integer_shows_range_and_default() {
    let property = Property {
        spec: spec_of(integer_kind(), no_flags()),
        live: Some(PropertyValue::Number(Number::Signed(77))),
        default_value: PropertyValue::Number(Number::Signed(50)),
    };
    let mut out: Vec<Line> = Vec::new();
    print_default_property_value(&mut out, &property, 22);
    assert_eq!(
        texts(&out),
        vec!["                      : Integer. Range: 0 - 100. Default: 50"]
    );
    assert!(out[0].text().contains("Range: 0 - 100"));
    assert!(out[0].text().contains("Default: 50"));
}

#[test]
fn readable_property_shows_its_live_value() {
    let mut flags = no_flags();
    flags.readable = true;
    let property = Property {
        spec: spec_of(integer_kind(), flags),
        live: Some(PropertyValue::Number(Number::Signed(77))),
        default_value: PropertyValue::Number(Number::Signed(50)),
    };
    let mut out: Vec<Line> = Vec::new();
    print_default_property_value(&mut out, &property, 22);
    assert_eq!(
        texts(&out),
        vec!["                      : Integer. Range: 0 - 100. Default: 77"]
    );
    assert!(matches!(select_value(&property), PropertyValue::Number(Number::Signed(77))));
}

#[test]
fn readable_property_that_was_not_read_shows_its_default() {
    let mut flags = no_flags();
    flags.readable = true;
    let property = Property {
        spec: spec_of(integer_kind(), flags),
        live: None,
        default_value: PropertyValue::Number(Number::Signed(50)),
    };
    assert!(matches!(select_value(&property), PropertyValue::Number(Number::Signed(50))));
}

#[test]
fn range_comes_from_the_property_not_from_the_value() {
    let spec = spec_of(integer_kind(), no_flags());
    let lines = format_value(&PropertyValue::Number(Number::Signed(5000)), &spec, 0);
    assert_eq!(texts(&lines), vec![": Integer. Range: 0 - 100. Default: 5000"]);
}

#[test]
fn enumeration_lists_every_alternative() {
    let spec = spec_of(PropertyKind::Enumeration { alternatives: priorities() }, no_flags());
    let lines = format_value(&PropertyValue::Enumeration(1), &spec, 22);
    assert_eq!(
        texts(&lines),
        vec![
            "                      : Enum. Default: 1, \"high\"",
            "                        (0): low              - Low priority",
            "                        (1): high             - High priority",
        ]
    );
    assert!(lines[0].text().contains("Default: 1, \"high\""));
}

#[test]
fn enumeration_alternatives_are_numbered_by_position() {
    let alternatives = vec![
        EnumAlternative { value: 10, nick: "ten".to_string(), name: "Ten".to_string() },
        EnumAlternative { value: -3, nick: "minus-three".to_string(), name: "Minus three".to_string() },
        EnumAlternative { value: 10, nick: "again".to_string(), name: "Ten again".to_string() },
    ];
    assert_eq!(position_of(&alternatives, 10), Some(0));
    assert_eq!(position_of(&alternatives, -3), Some(1));
    assert_eq!(position_of(&alternatives, 4), None);
    let spec = spec_of(PropertyKind::Enumeration { alternatives }, no_flags());
    assert_eq!(
        texts(&format_value(&PropertyValue::Enumeration(-3), &spec, 1)),
        vec![
            " : Enum. Default: -3, \"minus-three\"",
            "                        (0): ten              - Ten",
            "                        (1): minus-three      - Minus three",
            "                        (2): again            - Ten again",
        ]
    );
}

#[test]
fn enumeration_value_that_is_no_alternative_leaves_an_empty_line() {
    let spec = spec_of(PropertyKind::Enumeration { alternatives: priorities() }, no_flags());
    assert_eq!(texts(&format_value(&PropertyValue::Enumeration(7), &spec, 22)), vec![""]);
    assert_eq!(texts(&format_value(&PropertyValue::Boolean(true), &spec, 22)), vec![""]);
}

#[test]
fn string_is_quoted_or_null() {
    let spec = spec_of(PropertyKind::Text, no_flags());
    assert_eq!(
        texts(&format_value(&PropertyValue::Text(Some("hello".to_string())), &spec, 2)),
        vec!["  : String. Default: \"hello\""]
    );
    assert_eq!(
        texts(&format_value(&PropertyValue::Text(Some(String::new())), &spec, 2)),
        vec!["  : String. Default: \"\""]
    );
    assert_eq!(
        texts(&format_value(&PropertyValue::Text(None), &spec, 2)),
        vec!["  : String. Default: null"]
    );
    assert_eq!(
        texts(&format_value(&PropertyValue::Boolean(true), &spec, 2)),
        vec!["  : String. Default: "]
    );
}

#[test]
fn boolean_is_true_or_false() {
    let spec = spec_of(PropertyKind::Boolean, no_flags());
    assert_eq!(
        texts(&format_value(&PropertyValue::Boolean(true), &spec, 0)),
        vec![": Boolean. Default: true"]
    );
    assert_eq!(
        texts(&format_value(&PropertyValue::Boolean(false), &spec, 0)),
        vec![": Boolean. Default: false"]
    );
    assert_eq!(texts(&format_value(&PropertyValue::Other, &spec, 0)), vec![": Boolean. Default: "]);
}

#[test]
fn every_numeric_kind_has_its_title() {
    assert_eq!(title_of(NumericKind::Long), "Long");
    assert_eq!(title_of(NumericKind::UnsignedLong), "Unsigned Long");
    assert_eq!(title_of(NumericKind::UnsignedInteger), "Unsigned Integer");
    assert_eq!(title_of(NumericKind::Integer), "Integer");
    assert_eq!(title_of(NumericKind::UnsignedInteger64), "Unsigned Integer64");
    assert_eq!(title_of(NumericKind::Integer64), "Integer64");
    assert_eq!(title_of(NumericKind::Float), "Float");
    assert_eq!(title_of(NumericKind::Double), "Double");
}

#[test]
fn ranged_numbers_of_every_form() {
    let unsigned = spec_of(
        PropertyKind::Ranged {
            kind: NumericKind::UnsignedInteger64,
            minimum: Number::Unsigned(0),
            maximum: Number::Unsigned(u64::MAX),
        },
        no_flags(),
    );
    assert_eq!(
        texts(&format_value(&PropertyValue::Number(Number::Unsigned(42)), &unsigned, 1)),
        vec![" : Unsigned Integer64. Range: 0 - 18446744073709551615. Default: 42"]
    );
    let long = spec_of(
        PropertyKind::Ranged {
            kind: NumericKind::Long,
            minimum: Number::Signed(i64::MIN),
            maximum: Number::Signed(i64::MAX),
        },
        no_flags(),
    );
    assert_eq!(
        texts(&format_value(&PropertyValue::Number(Number::Signed(-1)), &long, 0)),
        vec![": Long. Range: -9223372036854775808 - 9223372036854775807. Default: -1"]
    );
    let double = spec_of(
        PropertyKind::Ranged {
            kind: NumericKind::Double,
            minimum: Number::Real(0.0f64.to_string()),
            maximum: Number::Real(1.5f64.to_string()),
        },
        no_flags(),
    );
    assert_eq!(
        texts(&format_value(&PropertyValue::Number(Number::Real(0.25f64.to_string())), &double, 0)),
        vec![": Double. Range: 0 - 1.5. Default: 0.25"]
    );
    assert_eq!(
        texts(&format_value(&PropertyValue::Text(None), &double, 0)),
        vec![": Double. Range: 0 - 1.5. Default: "]
    );
}

#[test]
fn ranged_line_is_made_of_toned_pieces() {
    let spec = spec_of(integer_kind(), no_flags());
    let lines = format_value(&PropertyValue::Number(Number::Signed(50)), &spec, 3);
    let tones: Vec<Tone> = lines[0].spans.iter().map(|s| s.tone).collect();
    assert_eq!(
        tones,
        vec![
            Tone::Plain,
            Tone::DataType,
            Tone::Plain,
            Tone::PropAttrName,
            Tone::Plain,
            Tone::PropAttrValue,
            Tone::Plain,
            Tone::PropAttrValue,
            Tone::Plain,
            Tone::PropAttrName,
            Tone::Plain,
            Tone::PropAttrValue,
        ]
    );
    assert_eq!(lines[0].spans[0].text, "   : ");
    assert_eq!(lines[0].spans[1].text, "Integer");
}

#[test]
fn flags_and_other_kinds_leave_an_empty_line() {
    let flags = spec_of(PropertyKind::Flags, no_flags());
    assert_eq!(texts(&format_value(&PropertyValue::Flags(3), &flags, 22)), vec![""]);
    let other = spec_of(PropertyKind::Other, no_flags());
    assert_eq!(texts(&format_value(&PropertyValue::Other, &other, 22)), vec![""]);
    assert_eq!(texts(&format_value(&PropertyValue::Boolean(true), &other, 22)), vec![""]);
}

#[test]
fn capability_property_delegates_to_the_capability_renderer() {
    let spec = spec_of(PropertyKind::Caps, no_flags());
    let caps = CapsSet::Structures(vec![CapsStructure {
        name: "video/x-raw".to_string(),
        feature: None,
        fields: vec![CapsField { name: "width".to_string(), value: Some("640".to_string()) }],
    }]);
    assert_eq!(
        texts(&format_value(&PropertyValue::Caps(Some(caps)), &spec, 22)),
        vec!["      video/x-raw", "                  width: 640", ""]
    );
    assert_eq!(
        texts(&format_value(&PropertyValue::Caps(Some(CapsSet::Any)), &spec, 22)),
        vec!["      ANY", ""]
    );
    assert_eq!(texts(&format_value(&PropertyValue::Caps(None), &spec, 22)), vec!["Caps (NULL)", ""]);
    assert_eq!(texts(&format_value(&PropertyValue::Other, &spec, 22)), vec![""]);
}

#[test]
fn print_value_appends_to_what_is_there() {
    let mut out: Vec<Line> = Vec::new();
    print_value(&mut out, &PropertyValue::Boolean(true), &PropertyKind::Boolean, 0);
    print_value(&mut out, &PropertyValue::Text(None), &PropertyKind::Text, 0);
    assert_eq!(texts(&out), vec![": Boolean. Default: true", ": String. Default: null"]);
}

#[test]
fn flags_are_named_in_a_fixed_order() {
    assert_eq!(print_pspec_flags(&no_flags(), 24).text(), "                        flags: ");
    let mut rw = no_flags();
    rw.readable = true;
    rw.writable = true;
    assert_eq!(print_pspec_flags(&rw, 2).text(), "  flags: writable, readable");
    let mut one = no_flags();
    one.readable = true;
    assert_eq!(print_pspec_flags(&one, 0).text(), "flags: readable");
    let all = ParamFlags {
        readable: true,
        writable: true,
        deprecated: true,
        controllable: true,
        mutable_playing: true,
        mutable_paused: true,
        mutable_ready: true,
    };
    assert_eq!(
        print_pspec_flags(&all, 1).text(),
        " flags: writable, readable, deprecated, controllable, \
changeable in NULL, READY, PAUSED or PLAYING state, \
changeable only in NULL, READY or PAUSED state, \
changeable only in NULL or READY state"
    );
    let mut last = no_flags();
    last.mutable_ready = true;
    last.deprecated = true;
    let line = print_pspec_flags(&last, 0);
    assert_eq!(line.text(), "flags: deprecated, changeable only in NULL or READY state");
    assert_eq!(line.spans[1].tone, Tone::PropAttrName);
    assert_eq!(line.spans[3].tone, Tone::PropAttrValue);
    assert_eq!(line.spans[4].tone, Tone::Plain);
    assert_eq!(line.spans[4].text, ", ");
}

#[test]
fn range_is_known_for_ranged_properties_only() {
    let ranged = spec_of(integer_kind(), no_flags());
    match ranged.range() {
        Some((Number::Signed(lo), Number::Signed(hi))) => {
            assert_eq!(lo, 0);
            assert_eq!(hi, 100);
        },
        _ => panic!("a ranged property has bounds"),
    }
    assert!(spec_of(PropertyKind::Text, no_flags()).range().is_none());
    assert!(spec_of(PropertyKind::Boolean, no_flags()).range().is_none());
    assert!(spec_of(PropertyKind::Enumeration { alternatives: priorities() }, no_flags())
        .range()
        .is_none());
    assert!(spec_of(PropertyKind::Caps, no_flags()).range().is_none());
}

#[test]
fn numbers_and_quotes() {
    assert_eq!(number_string(&Number::Signed(-12)), "-12");
    assert_eq!(number_string(&Number::Unsigned(12)), "12");
    assert_eq!(number_string(&Number::Real("3.5".to_string())), "3.5");
    assert!(matches!(copy_number(&Number::Unsigned(9)), Number::Unsigned(9)));
    assert!(matches!(copy_number(&Number::Signed(-9)), Number::Signed(-9)));
    assert_eq!(number_string(&copy_number(&Number::Real("1e-3".to_string()))), "1e-3");
    assert_eq!(quote("high"), "\"high\"");
    assert_eq!(quote(""), "\"\"");
}
