use ambient_light::rust_items::{registry_variants, RegistryError};
use ambient_light::widgets::{parse_widget, WidgetSpec};

fn ok(text: &str) -> (WidgetSpec, usize) {
    match parse_widget(text) {
        Ok(r) => r,
        Err(e) => panic!("{} failed: {}", text, e),
    }
}

fn err(text: &str) -> String {
    match parse_widget(text) {
        Ok(_) => panic!("{} parsed", text),
        Err(e) => e,
    }
}

fn s(t: &str) -> String {
    t.to_string()
}

#[test]
fn registry_widget() {
    match ok(r#"Registry { "algorithms/src/filters/registry.rs" => ColorFilterType }"#) {
        (WidgetSpec::Registry { file_path, registry_enum }, end) => {
            assert_eq!(file_path, "algorithms/src/filters/registry.rs");
            assert_eq!(registry_enum, "ColorFilterType");
            assert_eq!(end, 68);
        }
        _ => panic!("not a registry"),
    }
    assert_eq!(err("Registry"), "Can`t find config");
    assert_eq!(err(r#"Registry { "a" ColorType }"#), "expected `=>`");
}

#[test]
fn numeric_widget_bounds() {
    assert!(matches!(ok("NumericField { }").0, WidgetSpec::Numeric { min: None, max: None }));
    match ok("NumericField{0}").0 {
        WidgetSpec::Numeric { min, max } => assert_eq!((min, max), (Some(s("0")), None)),
        _ => panic!(),
    }
    match ok("NumericField { 0 , }").0 {
        WidgetSpec::Numeric { min, max } => assert_eq!((min, max), (Some(s("0")), None)),
        _ => panic!(),
    }
    match ok("NumericField { 0.5 , 255 }").0 {
        WidgetSpec::Numeric { min, max } => assert_eq!((min, max), (Some(s("0.5")), Some(s("255")))),
        _ => panic!(),
    }
    assert_eq!(err("NumericField { 1, 2, 3 }"), "expected `}`");
    assert_eq!(err("NumericField { x }"), "expected number");
}

#[test]
fn text_and_bool_widgets() {
    match ok(r#"TextField { "127.0.0.1 \"lan\"" }"#).0 {
        WidgetSpec::Text { placeholder } => assert_eq!(placeholder, "127.0.0.1 \"lan\""),
        _ => panic!(),
    }
    assert_eq!(ok("BoolField { }").1, 13);
    assert!(matches!(ok("BoolField{}").0, WidgetSpec::Bool));
    assert_eq!(err("BoolField { x }"), "expected `}`");
    assert_eq!(err("TextField { \"open }"), "unterminated string literal");
    assert_eq!(err(r#"TextField { "\q" }"#), "unsupported escape in string literal");
}

#[test]
fn slider_widget_step() {
    match ok("SliderField { 0.0 , 1.0 }").0 {
        WidgetSpec::Slider { min, max, step } => assert_eq!((min, max, step), (s("0.0"), s("1.0"), s("1"))),
        _ => panic!(),
    }
    match ok("SliderField { 0 , 10 , 0.5 }").0 {
        WidgetSpec::Slider { min, max, step } => assert_eq!((min, max, step), (s("0"), s("10"), s("0.5"))),
        _ => panic!(),
    }
    match ok("SliderField { 0, 10, }").0 {
        WidgetSpec::Slider { step, .. } => assert_eq!(step, "1"),
        _ => panic!(),
    }
    assert_eq!(err("SliderField ( 0 , 1 )"), "expected curly braces");
    assert_eq!(err("SliderField { 0 }"), "expected `,`");
}

#[test]
fn wrappers() {
    match ok("Wrapper ( Millimeters , NumericField { 0 } ) , next").0 {
        WidgetSpec::Wrapper { wrapper, inner } => {
            assert_eq!(wrapper, "Millimeters");
            assert!(matches!(*inner, WidgetSpec::Numeric { .. }));
        }
        _ => panic!(),
    }
    assert_eq!(ok("Wrapper ( Millimeters , NumericField { 0 } ) , next").1, 44);
    match ok("Wrapper(Millimeters NumericField { })").0 {
        WidgetSpec::Wrapper { wrapper, inner } => {
            assert_eq!(wrapper, "Millimeters");
            assert!(matches!(*inner, WidgetSpec::Numeric { min: None, max: None }));
        }
        _ => panic!(),
    }
    assert_eq!(err("Wrapper(Millimeters , , BoolField {})"), "expected identifier");
    match ok("WrapperVec(Wrapper(Pixels, BoolField {}))").0 {
        WidgetSpec::WrapperVec { inner } => assert!(matches!(*inner, WidgetSpec::Wrapper { .. })),
        _ => panic!(),
    }
    assert_eq!(err("Wrapper { }"), "Can`t find wrapper params. Usage: Wrapper(WrapperType, InnerWidget)");
    assert_eq!(err("WrapperVec"), "Can`t find wrapper vec params. Usage: WrapperVec(InnerWidget)");
    assert_eq!(err("WrapperVec(BoolField {}"), "expected `)`");
}

#[test]
fn unknown_widgets() {
    assert_eq!(err("ColorPicker { }"), "Unknown widget_type type: ColorPicker");
    assert_eq!(err("  { }"), "expected identifier");
    assert_eq!(err(""), "expected identifier");
}

#[test]
fn registry_variants_from_source() {
    let source = "use x::y;\npub enum Other { A }\n/// Filters\n#[derive(Clone)]\npub enum ColorFilterType { NoFilter, EmaFilter, GammaFilter }\nenum ColorFilterType { Late }";
    assert_eq!(
        registry_variants(source, "ColorFilterType"),
        Ok(vec!["NoFilter".to_string(), "EmaFilter".to_string(), "GammaFilter".to_string()])
    );
    assert_eq!(registry_variants(source, "Missing"), Err(RegistryError::EnumNotFound));
    assert_eq!(registry_variants("pub enum {", "X"), Err(RegistryError::Parse));
    assert_eq!(registry_variants("struct S;", "S"), Err(RegistryError::EnumNotFound));
}

fn placeholder(text: &str) -> String {
    match ok(text).0 {
        WidgetSpec::Text { placeholder } => placeholder,
        _ => panic!("not a text field"),
    }
}

#[test]
fn string_literal_forms() {
    assert_eq!(placeholder(r#"TextField { "a\x41\u{42}\u{1_F600}" }"#), "aAB\u{1F600}");
    assert_eq!(placeholder("TextField { \"ab\\\n    cd\" }"), "abcd");
    assert_eq!(placeholder(r##"TextField { r"C:\dir" }"##), "C:\\dir");
    assert_eq!(placeholder(r###"TextField { r#"say "hi""# }"###), "say \"hi\"");
    assert_eq!(ok(r###"TextField { r#"x"# }"###).1, 20);
    assert_eq!(err(r#"TextField { "\x80" }"#), "invalid escape in string literal");
    assert_eq!(err(r#"TextField { "\u{D800}" }"#), "invalid unicode escape in string literal");
    assert_eq!(err(r#"TextField { "\u{}" }"#), "invalid unicode escape in string literal");
    assert_eq!(err(r#"TextField { "\u{1234567}" }"#), "invalid unicode escape in string literal");
    assert_eq!(err(r###"TextField { r#"open" }"###), "unterminated string literal");
    assert_eq!(err("TextField { raw }"), "expected string literal");
}
