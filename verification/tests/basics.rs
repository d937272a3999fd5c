use ambient_light::controller::CoreController;
use ambient_light::geometry::{Alg, Geometry};
use ambient_light::naming::{
    field_conversion, gen_field_id, gen_field_name, name_to_snake_case, shadow_ident, shadow_name,
    FieldConversion,
};
use ambient_light::units::{Millimeters, Pixels};

#[test]
fn snake_case_names() {
    assert_eq!(name_to_snake_case("ColorFilterType".to_string()), "color_filter_type");
    assert_eq!(name_to_snake_case("Geometry".to_string()), "geometry");
    assert_eq!(name_to_snake_case("ABC".to_string()), "a_b_c");
    assert_eq!(name_to_snake_case("DRGBConfig".to_string()), "d_r_g_b_config");
    assert_eq!(name_to_snake_case(String::new()), "");
}

#[test]
fn form_field_attributes() {
    let s = "Settings".to_string();
    let f = "filter_chain".to_string();
    assert_eq!(gen_field_id(&s, &f, false, false), "Settings_filter_chain");
    assert_eq!(gen_field_id(&s, &f, true, false), "Settings_filter_chain_{}");
    assert_eq!(gen_field_id(&s, &f, true, true), "Settings_filter_chain___INDEX__");
    assert_eq!(gen_field_name(&s, &f, false, true), "Settings[filter_chain]");
    assert_eq!(gen_field_name(&s, &f, true, false), "Settings[filter_chain][{}]");
    assert_eq!(gen_field_name(&s, &f, true, true), "Settings[filter_chain][__INDEX__]");
}

#[test]
fn geometry_calculation() {
    let mut g = Geometry { x: Millimeters(10), y: Millimeters(20), alg: Alg::Alg2, unset: Pixels(0) };
    g.calculate();
    assert_eq!(g.unset, Pixels(30));
    assert_eq!(g.alg, Alg::Alg2);
}

#[test]
fn unit_arithmetic() {
    assert_eq!(Millimeters(2) + Millimeters(3), Millimeters(5));
    assert_eq!(Millimeters(7) - Millimeters(3), Millimeters(4));
    assert_eq!(Millimeters(7) * 3, Millimeters(21));
    assert_eq!(Millimeters(7) * Millimeters(2), Millimeters(14));
    assert_eq!(Millimeters(7) / 2, Millimeters(3));
    assert_eq!(Millimeters(7) / Millimeters(7), Millimeters(1));
    assert_eq!(Pixels(5) + Pixels(1), Pixels(6));
    assert_eq!(Pixels(9) / Pixels(2), Pixels(4));
    let mut p = Pixels(1);
    p.add_assign(Pixels(2));
    assert_eq!(p, Pixels(3));
    assert!(Millimeters(1) < Millimeters(2));
}

#[test]
fn controller_flag() {
    let c = CoreController::new(false);
    assert!(!c.keep_running());
    c.start();
    assert!(c.keep_running());
    c.shutdown();
    assert!(!c.keep_running());
    assert!(CoreController::new(true).keep_running());
}

#[test]
fn shadow_names_of_configuration_types() {
    let names = vec!["ColorFilterType".to_string(), "Settings".to_string()];
    assert_eq!(shadow_name("Settings"), "SettingsShadow");
    assert_eq!(shadow_ident("ColorFilterType", &names), "ColorFilterTypeShadow");
    assert_eq!(shadow_ident("Vec", &names), "Vec");
    assert_eq!(shadow_ident("Settings", &vec![]), "Settings");
}

#[test]
fn field_conversions_by_type() {
    assert_eq!(field_conversion(Some("Vec")), FieldConversion::EachItem);
    assert_eq!(field_conversion(Some("Option")), FieldConversion::Inner);
    assert_eq!(field_conversion(Some("u32")), FieldConversion::Whole);
    assert_eq!(field_conversion(Some("VecDeque")), FieldConversion::Whole);
    assert_eq!(field_conversion(None), FieldConversion::Whole);
}

#[test]
fn white_space_matches_std_for_every_char() {
    for c in (0u32..=0x10FFFF).filter_map(char::from_u32) {
        assert_eq!(ambient_light::text::is_whitespace(c), c.is_whitespace(), "{:?}", c);
    }
    assert!(ambient_light::text::is_blank("  \t\n"));
    assert!(!ambient_light::text::is_blank(" a "));
}
