use ambient_light::form::{
    block_open, block_static_html, checkbox_html, field_static_html, label_html, numeric_attrs,
    number_input_html, option_field_html, option_tag, registry_static_html, select_open,
    slider_html, text_input_html, widget_static_html, FormField, Widget,
};

fn s(t: &str) -> String {
    t.to_string()
}

#[test]
fn option_tags() {
    assert_eq!(option_tag("Ema", false), r#"<option value="Ema">Ema</option>"#);
    assert_eq!(option_tag("Ema", true), r#"<option value="Ema" selected>Ema</option>"#);
}

#[test]
fn select_and_registry() {
    assert_eq!(
        select_open(&s("Settings"), &s("kind"), false, false),
        r#"<select id="Settings_kind" name="Settings[kind]" required>"#
    );
    assert_eq!(
        select_open(&s("Settings"), &s("kind"), true, false),
        r#"<select id="Settings_kind_{}" name="Settings[kind][{}]" required>"#
    );
    assert_eq!(
        registry_static_html(&s("Settings"), &s("kind"), false, &vec![s("A"), s("B")]),
        "<select id=\"Settings_kind\" name=\"Settings[kind]\" required><option value=\"A\">A</option>\n<option value=\"B\">B</option></select>"
    );
    assert_eq!(
        registry_static_html(&s("S"), &s("k"), true, &vec![]),
        r#"<select id="S_k___INDEX__" name="S[k][__INDEX__]" required></select>"#
    );
}

#[test]
fn number_inputs() {
    assert_eq!(numeric_attrs(None, None), "");
    assert_eq!(numeric_attrs(Some("0"), None), r#" min="0""#);
    assert_eq!(numeric_attrs(None, Some("255")), r#" max="255""#);
    assert_eq!(numeric_attrs(Some("0.5"), Some("2")), r#" min="0.5" max="2""#);
    assert_eq!(
        number_input_html(&s("S"), &s("n"), false, true, r#" min="0""#),
        r#"<input type="number" id="S_n" name="S[n]"  min="0" required />"#
    );
    assert_eq!(
        number_input_html(&s("S"), &s("n"), false, false, ""),
        r#"<input type="number" id="S_n" name="S[n]"  value="{}" required />"#
    );
}

#[test]
fn text_and_checkbox_inputs() {
    assert_eq!(
        text_input_html(&s("S"), &s("ip"), false, true, "127.0.0.1"),
        r#"<input type="text" id="S_ip" name="S[ip]" placeholder="127.0.0.1" required />"#
    );
    assert_eq!(
        text_input_html(&s("S"), &s("ip"), true, false, "x"),
        r#"<input type="text" id="S_ip_{}" name="S[ip][{}]" placeholder="x" value="{}" required />"#
    );
    assert_eq!(checkbox_html(&s("S"), &s("on"), false, true), r#"<input type="checkbox" id="S_on" name="S[on]" />"#);
    assert_eq!(checkbox_html(&s("S"), &s("on"), false, false), r#"<input type="checkbox" id="S_on" name="S[on]" {}/>"#);
}

#[test]
fn slider_markup() {
    let expected = "<div class=\"slider-group\">\n        <input type=\"number\" name=\"S[a]\" class=\"slider-num\" min=\"0\" max=\"1\" step=\"0.1\" id=\"S_a\"\n            oninput=\"this.parentElement.querySelector('.slider-range').value = this.value\">\n        <div class=\"slider-wrapper\">\n            <span class=\"slider-limit\">0</span>\n            <input type=\"range\" class=\"slider-range\" min=\"0\" max=\"1\" step=\"0.1\" \n                oninput=\"this.parentElement.previousElementSibling.value = this.value\">\n            <span class=\"slider-limit\">1</span>\n        </div>\n    </div>";
    assert_eq!(slider_html(&s("S"), &s("a"), false, "0", "1", "0.1"), expected);
}

#[test]
fn labels_and_optional_fields() {
    assert_eq!(label_html(&s("S"), &s("ip")), r#"<label for="S_ip">ip </label>"#);
    assert_eq!(
        option_field_html(&s("S"), &s("t"), "X"),
        r#"<div class="option-field"><input type="checkbox" id="S_t_enabled" name="S[t__enabled]" class="option-toggle" onchange="this.nextElementSibling.disabled = !this.checked" /><fieldset id="S_t_value_fieldset" disabled>X</fieldset></div>"#
    );
}

#[test]
fn block_condition_quotes_become_apostrophes() {
    assert_eq!(block_open("S", None), r#"<div id="S" > "#);
    assert_eq!(
        block_open("S", Some(r#"kind == "Ddp""#)),
        r#"<div id="S" data-show-if="kind == 'Ddp'"> "#
    );
}

#[test]
fn fields_and_blocks_without_data() {
    let wrapped = Widget::Wrapper { inner: Box::new(Widget::Bool) };
    assert_eq!(widget_static_html(&wrapped, &s("S"), &s("on"), false), r#"<input type="checkbox" id="S_on" name="S[on]" />"#);
    let list = FormField { name: s("ids"), widget: Widget::WrapperVec { inner: Box::new(Widget::Text { placeholder: s("p") }) } };
    let expected_list = String::from(r#"<label for="S_ids">ids </label>"#)
        + "<div class=\"wrapper-vec-container\" id=\"S_ids_container\">\n                        <template id=\"S_ids_container_template\"><div class=\"wrapper-vec-item\"><input type=\"text\" id=\"S_ids___INDEX__\" name=\"S[ids][__INDEX__]\" placeholder=\"p\" required /><button type=\"button\" onclick=\"this.parentElement.remove()\">Remove</button></div></template>\n                        <div class=\"wrapper-vec-items\"></div>\n                        <button type=\"button\" onclick=\"addWrapperVecItem('S_ids_container')\">Add Item</button>\n                    </div><br/>";
    assert_eq!(field_static_html(&s("S"), &list), expected_list);
    let fields = vec![
        FormField { name: s("on"), widget: Widget::Bool },
        FormField { name: s("t"), widget: Widget::OptionField { inner: Box::new(Widget::Numeric { min: None, max: Some(s("9")) }) } },
    ];
    let expected = String::from(r#"<div id="S" > <label for="S_on">on </label><input type="checkbox" id="S_on" name="S[on]" />"#)
        + "\n"
        + r#"<label for="S_t">t </label><div class="option-field"><input type="checkbox" id="S_t_enabled" name="S[t__enabled]" class="option-toggle" onchange="this.nextElementSibling.disabled = !this.checked" /><fieldset id="S_t_value_fieldset" disabled><input type="number" id="S_t" name="S[t]"  max="9" required /></fieldset></div>"#
        + "</div>";
    assert_eq!(block_static_html(&s("S"), None, &fields), expected);
}
