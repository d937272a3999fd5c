//! HTML of the settings form: the inputs of each widget, the label and wrappers of a
//! field, and the block of a configuration struct, as shown before any data exists.
//!
//! Numbers of the form (bounds, steps) are held as the text they print as.
use vstd::prelude::*;
use crate::naming::{field_id, field_name_attr, gen_field_id, gen_field_name};
use crate::text::push_char;

verus! {

/// `parts` with `sep` between consecutive ones.
pub open spec fn joined(parts: Seq<Seq<char>>, sep: Seq<char>) -> Seq<char>
    decreases parts.len(),
{
    if parts.len() == 0 {
        Seq::empty()
    } else if parts.len() == 1 {
        parts[0]
    } else {
        joined(parts.drop_last(), sep) + sep + parts.last()
    }
}

/// One entry of a drop-down list: `<option value="v">v</option>`, marked `selected` when asked.
pub open spec fn option_tag_spec(value: Seq<char>, selected: bool) -> Seq<char> {
    "<option value=\""@ + value + (if selected { "\" selected>"@ } else { "\">"@ }) + value
        + "</option>"@
}

/// Opening tag of a drop-down list bound to a field.
pub open spec fn select_open_spec(s: Seq<char>, f: Seq<char>, is_array: bool, is_static: bool) -> Seq<char> {
    "<select id=\""@ + field_id(s, f, is_array, is_static) + "\" name=\""@
        + field_name_attr(s, f, is_array, is_static) + "\" required>"@
}

/// A drop-down list over the variant names, none selected, one per line.
pub open spec fn registry_static_spec(s: Seq<char>, f: Seq<char>, is_array: bool, variants: Seq<String>) -> Seq<char> {
    select_open_spec(s, f, is_array, true)
        + joined(variants.map_values(|v: String| option_tag_spec(v@, false)), "\n"@)
        + "</select>"@
}

/// Bounds of a number input as attributes: ` min="a" max="b"`, each only when given.
pub open spec fn numeric_attrs_spec(min: Option<Seq<char>>, max: Option<Seq<char>>) -> Seq<char> {
    match (min, max) {
        (None, None) => Seq::empty(),
        (Some(a), None) => " min=\""@ + a + "\""@,
        (None, Some(b)) => " max=\""@ + b + "\""@,
        (Some(a), Some(b)) => " min=\""@ + a + "\" max=\""@ + b + "\""@,
    }
}

/// A number input; the form with data (`is_static` false) has a `value="{}"` slot.
pub open spec fn number_input_spec(s: Seq<char>, f: Seq<char>, is_array: bool, is_static: bool, attrs: Seq<char>) -> Seq<char> {
    "<input type=\"number\" id=\""@ + field_id(s, f, is_array, is_static) + "\" name=\""@
        + field_name_attr(s, f, is_array, is_static) + "\" "@ + attrs
        + (if is_static { " required />"@ } else { " value=\"{}\" required />"@ })
}

/// A text input with a placeholder; the form with data has a `value="{}"` slot.
pub open spec fn text_input_spec(s: Seq<char>, f: Seq<char>, is_array: bool, is_static: bool, placeholder: Seq<char>) -> Seq<char> {
    "<input type=\"text\" id=\""@ + field_id(s, f, is_array, is_static) + "\" name=\""@
        + field_name_attr(s, f, is_array, is_static) + "\" placeholder=\""@ + placeholder
        + (if is_static { "\" required />"@ } else { "\" value=\"{}\" required />"@ })
}

/// A checkbox; the form with data has a `{}` slot for `checked `.
pub open spec fn checkbox_spec(s: Seq<char>, f: Seq<char>, is_array: bool, is_static: bool) -> Seq<char> {
    "<input type=\"checkbox\" id=\""@ + field_id(s, f, is_array, is_static) + "\" name=\""@
        + field_name_attr(s, f, is_array, is_static)
        + (if is_static { "\" />"@ } else { "\" {}/>"@ })
}

/// A slider: a number box and a range input that follow each other, with the bounds shown
/// on both sides of the range.
pub open spec fn slider_spec(s: Seq<char>, f: Seq<char>, is_array: bool, min: Seq<char>, max: Seq<char>, step: Seq<char>) -> Seq<char> {
    "<div class=\"slider-group\">\n        <input type=\"number\" name=\""@
        + field_name_attr(s, f, is_array, false) + "\" class=\"slider-num\" min=\""@ + min
        + "\" max=\""@ + max + "\" step=\""@ + step + "\" id=\""@ + field_id(s, f, is_array, false)
        + "\"\n            oninput=\"this.parentElement.querySelector('.slider-range').value = this.value\">\n        <div class=\"slider-wrapper\">\n            <span class=\"slider-limit\">"@
        + min
        + "</span>\n            <input type=\"range\" class=\"slider-range\" min=\""@ + min
        + "\" max=\""@ + max + "\" step=\""@ + step
        + "\" \n                oninput=\"this.parentElement.previousElementSibling.value = this.value\">\n            <span class=\"slider-limit\">"@
        + max + "</span>\n        </div>\n    </div>"@
}

/// The label of a field: `<label for="Struct_field">field </label>`.
pub open spec fn label_spec(s: Seq<char>, f: Seq<char>) -> Seq<char> {
    "<label for=\""@ + field_id(s, f, false, false) + "\">"@ + f + " </label>"@
}

/// `id` of the checkbox that switches an optional field on.
pub open spec fn enabled_id_spec(s: Seq<char>, f: Seq<char>) -> Seq<char> {
    s + "_"@ + f + "_enabled"@
}

/// `name` of the checkbox that switches an optional field on.
pub open spec fn enabled_name_spec(s: Seq<char>, f: Seq<char>) -> Seq<char> {
    s + "["@ + f + "__enabled]"@
}

/// `id` of the fieldset that holds the input of an optional field.
pub open spec fn toggle_target_spec(s: Seq<char>, f: Seq<char>) -> Seq<char> {
    s + "_"@ + f + "_value_fieldset"@
}

/// An optional field without a value: its switch off and its input disabled.
pub open spec fn option_field_spec(s: Seq<char>, f: Seq<char>, inner: Seq<char>) -> Seq<char> {
    "<div class=\"option-field\"><input type=\"checkbox\" id=\""@ + enabled_id_spec(s, f)
        + "\" name=\""@ + enabled_name_spec(s, f)
        + "\" class=\"option-toggle\" onchange=\"this.nextElementSibling.disabled = !this.checked\" /><fieldset id=\""@
        + toggle_target_spec(s, f) + "\" disabled>"@ + inner + "</fieldset></div>"@
}

/// `id` of the container of a list field.
pub open spec fn container_id_spec(s: Seq<char>, f: Seq<char>) -> Seq<char> {
    s + "_"@ + f + "_container"@
}

/// One item of a list field: its input and a button that removes it.
pub open spec fn list_item_spec(inner: Seq<char>) -> Seq<char> {
    "<div class=\"wrapper-vec-item\">"@ + inner
        + "<button type=\"button\" onclick=\"this.parentElement.remove()\">Remove</button></div>"@
}

/// A list field without items: the item template, an empty list and an "Add Item" button.
pub open spec fn list_container_spec(container_id: Seq<char>, item: Seq<char>) -> Seq<char> {
    "<div class=\"wrapper-vec-container\" id=\""@ + container_id
        + "\">\n                        <template id=\""@ + container_id + "_template\">"@ + item
        + "</template>\n                        <div class=\"wrapper-vec-items\"></div>\n                        <button type=\"button\" onclick=\"addWrapperVecItem('"@
        + container_id + "')\">Add Item</button>\n                    </div>"@
}

/// `text` with every `"` turned into `'`.
pub open spec fn quotes_to_apostrophes(text: Seq<char>) -> Seq<char> {
    text.map_values(|c: char| if c == '"' { '\'' } else { c })
}

/// Opening tag of the block of a struct, with its display condition when it has one.
pub open spec fn block_open_spec(s: Seq<char>, condition: Option<Seq<char>>) -> Seq<char> {
    "<div id=\""@ + s + "\" "@ + match condition {
        Some(c) => "data-show-if=\""@ + quotes_to_apostrophes(c) + "\""@,
        None => Seq::empty(),
    } + "> "@
}

/// A widget of the form, with the numbers it shows held as their text.
pub enum Widget {
    /// A choice among the variants of an enum.
    Registry { variants: Vec<String> },
    /// A line of text.
    Text { placeholder: String },
    /// A number with optional bounds.
    Numeric { min: Option<String>, max: Option<String> },
    /// A checkbox.
    Bool,
    /// A slider with bounds and step.
    Slider { min: String, max: String, step: String },
    /// A value in a newtype: shown as its inner widget.
    Wrapper { inner: Box<Widget> },
    /// A list of values, each shown as the inner widget.
    WrapperVec { inner: Box<Widget> },
    /// An optional value, shown as the inner widget behind a switch.
    OptionField { inner: Box<Widget> },
}

/// A field of a struct and its widget.
pub struct FormField {
    pub name: String,
    pub widget: Widget,
}

/// The widget is drawn as an input: it is no list or optional value, also inside wrappers.
pub open spec fn is_input(w: Widget) -> bool
    decreases w,
{
    match w {
        Widget::Wrapper { inner } => is_input(*inner),
        Widget::WrapperVec { .. } => false,
        Widget::OptionField { .. } => false,
        _ => true,
    }
}

/// The input of a widget as shown without data (meaningful where `is_input`).
pub open spec fn widget_static_spec(w: Widget, s: Seq<char>, f: Seq<char>, is_array: bool) -> Seq<char>
    decreases w,
{
    match w {
        Widget::Registry { variants } => registry_static_spec(s, f, is_array, variants@),
        Widget::Text { placeholder } => text_input_spec(s, f, is_array, true, placeholder@),
        Widget::Numeric { min, max } => number_input_spec(
            s,
            f,
            is_array,
            true,
            numeric_attrs_spec(opt_view(min), opt_view(max)),
        ),
        Widget::Bool => checkbox_spec(s, f, is_array, true),
        Widget::Slider { min, max, step } => slider_spec(s, f, is_array, min@, max@, step@),
        Widget::Wrapper { inner } => widget_static_spec(*inner, s, f, is_array),
        _ => Seq::empty(),
    }
}

/// The characters of an optional text.
pub open spec fn opt_view(t: Option<String>) -> Option<Seq<char>> {
    match t {
        Some(x) => Some(x@),
        None => None,
    }
}

/// The field can be drawn: its widget is an input, or a list or optional value of one.
pub open spec fn field_drawable(w: Widget) -> bool {
    match w {
        Widget::WrapperVec { inner } => is_input(*inner),
        Widget::OptionField { inner } => is_input(*inner),
        _ => is_input(w),
    }
}

/// A field as shown without data: its label, then its input, optional switch or list.
pub open spec fn field_static_spec(s: Seq<char>, field: FormField) -> Seq<char> {
    let f = field.name@;
    label_spec(s, f) + match field.widget {
        Widget::OptionField { inner } => option_field_spec(s, f, widget_static_spec(*inner, s, f, false)),
        Widget::WrapperVec { inner } => list_container_spec(
            container_id_spec(s, f),
            list_item_spec(widget_static_spec(*inner, s, f, true)),
        ) + "<br/>"@,
        _ => widget_static_spec(field.widget, s, f, false),
    }
}

/// The block of a struct as shown without data: its fields, one per line.
pub open spec fn block_static_spec(s: Seq<char>, condition: Option<Seq<char>>, fields: Seq<FormField>) -> Seq<char> {
    block_open_spec(s, condition) + joined(fields.map_values(|fd: FormField| field_static_spec(s, fd)), "\n"@)
        + "</div>"@
}

proof fn lemma_joined_step(parts: Seq<Seq<char>>, sep: Seq<char>, i: int)
    requires
        0 <= i < parts.len(),
    ensures
        joined(parts.take(i + 1), sep) == if i == 0 {
            parts[0]
        } else {
            joined(parts.take(i), sep) + sep + parts[i]
        },
{
    assert(parts.take(i + 1).drop_last() =~= parts.take(i));
}

/// An entry of a drop-down list.
pub fn option_tag(value: &str, selected: bool) -> (r: String)
    ensures
        r@ == option_tag_spec(value@, selected),
{
    let mut r = String::from_str("<option value=\"");
    r.append(value);
    if selected {
        r.append("\" selected>");
    } else {
        r.append("\">");
    }
    r.append(value);
    r.append("</option>");
    r
}

/// Opening tag of a drop-down list bound to a field.
pub fn select_open(struct_name: &String, field_name: &String, is_array: bool, is_static: bool) -> (r: String)
    ensures
        r@ == select_open_spec(struct_name@, field_name@, is_array, is_static),
{
    let id = gen_field_id(struct_name, field_name, is_array, is_static);
    let name = gen_field_name(struct_name, field_name, is_array, is_static);
    let mut r = String::from_str("<select id=\"");
    r.append(id.as_str());
    r.append("\" name=\"");
    r.append(name.as_str());
    r.append("\" required>");
    r
}

/// A drop-down list over `variants` with none selected, as shown without data.
pub fn registry_static_html(struct_name: &String, field_name: &String, is_array: bool, variants: &Vec<String>) -> (r: String)
    ensures
        r@ == registry_static_spec(struct_name@, field_name@, is_array, variants@),
{
    let mut r = select_open(struct_name, field_name, is_array, true);
    let ghost head = r@;
    let ghost parts = variants@.map_values(|v: String| option_tag_spec(v@, false));
    let n = variants.len();
    let mut i: usize = 0;
    while i < n
        invariant
            n == variants@.len(),
            parts == variants@.map_values(|v: String| option_tag_spec(v@, false)),
            i <= n,
            r@ == head + joined(parts.take(i as int), "\n"@),
        decreases n - i,
    {
        if i > 0 {
            r.append("\n");
        }
        let tag = option_tag(variants[i].as_str(), false);
        r.append(tag.as_str());
        proof {
            lemma_joined_step(parts, "\n"@, i as int);
            assert(parts.take(0) =~= Seq::<Seq<char>>::empty());
        }
        i = i + 1;
    }
    proof {
        assert(parts.take(n as int) =~= parts);
    }
    r.append("</select>");
    r
}

/// Bounds of a number input as attributes, each only when given.
pub fn numeric_attrs(min: Option<&str>, max: Option<&str>) -> (r: String)
    ensures
        r@ == numeric_attrs_spec(
            match min {
                Some(a) => Some(a@),
                None => None,
            },
            match max {
                Some(b) => Some(b@),
                None => None,
            },
        ),
{
    let mut r = String::new();
    match min {
        Some(a) => {
            r.append(" min=\"");
            r.append(a);
            r.append("\"");
        },
        None => {},
    }
    match max {
        Some(b) => {
            r.append(" max=\"");
            r.append(b);
            r.append("\"");
        },
        None => {},
    }
    proof {
        match (min, max) {
            (Some(a), Some(b)) => {
                assert(r@ =~= " min=\""@ + a@ + "\" max=\""@ + b@ + "\""@) by {
                    reveal_strlit("\"");
                    reveal_strlit("\" max=\"");
                    reveal_strlit(" max=\"");
                }
            },
            (Some(a), None) => {
                assert(r@ =~= " min=\""@ + a@ + "\""@);
            },
            (None, Some(b)) => {
                assert(r@ =~= " max=\""@ + b@ + "\""@);
            },
            (None, None) => {},
        }
    }
    r
}

/// A number input bound to a field; with `is_static` false it has a `value="{}"` slot.
pub fn number_input_html(struct_name: &String, field_name: &String, is_array: bool, is_static: bool, attrs: &str) -> (r: String)
    ensures
        r@ == number_input_spec(struct_name@, field_name@, is_array, is_static, attrs@),
{
    let id = gen_field_id(struct_name, field_name, is_array, is_static);
    let name = gen_field_name(struct_name, field_name, is_array, is_static);
    let mut r = String::from_str("<input type=\"number\" id=\"");
    r.append(id.as_str());
    r.append("\" name=\"");
    r.append(name.as_str());
    r.append("\" ");
    r.append(attrs);
    if is_static {
        r.append(" required />");
    } else {
        r.append(" value=\"{}\" required />");
    }
    r
}

/// A text input bound to a field; with `is_static` false it has a `value="{}"` slot.
pub fn text_input_html(struct_name: &String, field_name: &String, is_array: bool, is_static: bool, placeholder: &str) -> (r: String)
    ensures
        r@ == text_input_spec(struct_name@, field_name@, is_array, is_static, placeholder@),
{
    let id = gen_field_id(struct_name, field_name, is_array, is_static);
    let name = gen_field_name(struct_name, field_name, is_array, is_static);
    let mut r = String::from_str("<input type=\"text\" id=\"");
    r.append(id.as_str());
    r.append("\" name=\"");
    r.append(name.as_str());
    r.append("\" placeholder=\"");
    r.append(placeholder);
    if is_static {
        r.append("\" required />");
    } else {
        r.append("\" value=\"{}\" required />");
    }
    r
}

/// A checkbox bound to a field; with `is_static` false it has a `{}` slot for `checked `.
pub fn checkbox_html(struct_name: &String, field_name: &String, is_array: bool, is_static: bool) -> (r: String)
    ensures
        r@ == checkbox_spec(struct_name@, field_name@, is_array, is_static),
{
    let id = gen_field_id(struct_name, field_name, is_array, is_static);
    let name = gen_field_name(struct_name, field_name, is_array, is_static);
    let mut r = String::from_str("<input type=\"checkbox\" id=\"");
    r.append(id.as_str());
    r.append("\" name=\"");
    r.append(name.as_str());
    if is_static {
        r.append("\" />");
    } else {
        r.append("\" {}/>");
    }
    r
}

/// A slider bound to a field, as shown without data.
pub fn slider_html(struct_name: &String, field_name: &String, is_array: bool, min: &str, max: &str, step: &str) -> (r: String)
    ensures
        r@ == slider_spec(struct_name@, field_name@, is_array, min@, max@, step@),
{
    let id = gen_field_id(struct_name, field_name, is_array, false);
    let name = gen_field_name(struct_name, field_name, is_array, false);
    let mut r = String::from_str("<div class=\"slider-group\">\n        <input type=\"number\" name=\"");
    r.append(name.as_str());
    r.append("\" class=\"slider-num\" min=\"");
    r.append(min);
    r.append("\" max=\"");
    r.append(max);
    r.append("\" step=\"");
    r.append(step);
    r.append("\" id=\"");
    r.append(id.as_str());
    r.append(
        "\"\n            oninput=\"this.parentElement.querySelector('.slider-range').value = this.value\">\n        <div class=\"slider-wrapper\">\n            <span class=\"slider-limit\">",
    );
    r.append(min);
    r.append("</span>\n            <input type=\"range\" class=\"slider-range\" min=\"");
    r.append(min);
    r.append("\" max=\"");
    r.append(max);
    r.append("\" step=\"");
    r.append(step);
    r.append(
        "\" \n                oninput=\"this.parentElement.previousElementSibling.value = this.value\">\n            <span class=\"slider-limit\">",
    );
    r.append(max);
    r.append("</span>\n        </div>\n    </div>");
    r
}

/// The label of a field.
pub fn label_html(struct_name: &String, field_name: &String) -> (r: String)
    ensures
        r@ == label_spec(struct_name@, field_name@),
{
    let id = gen_field_id(struct_name, field_name, false, false);
    let mut r = String::from_str("<label for=\"");
    r.append(id.as_str());
    r.append("\">");
    r.append(field_name.as_str());
    r.append(" </label>");
    r
}

/// `Struct_field` followed by `suffix`.
fn joined_name(struct_name: &String, field_name: &String, suffix: &str) -> (r: String)
    ensures
        r@ == struct_name@ + "_"@ + field_name@ + suffix@,
{
    let mut r = struct_name.clone();
    r.append("_");
    r.append(field_name.as_str());
    r.append(suffix);
    r
}

/// `id` of the checkbox that switches an optional field on.
pub fn enabled_id(struct_name: &String, field_name: &String) -> (r: String)
    ensures
        r@ == enabled_id_spec(struct_name@, field_name@),
{
    joined_name(struct_name, field_name, "_enabled")
}

/// `name` of the checkbox that switches an optional field on.
pub fn enabled_name(struct_name: &String, field_name: &String) -> (r: String)
    ensures
        r@ == enabled_name_spec(struct_name@, field_name@),
{
    let mut r = struct_name.clone();
    r.append("[");
    r.append(field_name.as_str());
    r.append("__enabled]");
    r
}

/// `id` of the fieldset that holds the input of an optional field.
pub fn toggle_target(struct_name: &String, field_name: &String) -> (r: String)
    ensures
        r@ == toggle_target_spec(struct_name@, field_name@),
{
    joined_name(struct_name, field_name, "_value_fieldset")
}

/// An optional field without a value, around the input `inner`.
pub fn option_field_html(struct_name: &String, field_name: &String, inner: &str) -> (r: String)
    ensures
        r@ == option_field_spec(struct_name@, field_name@, inner@),
{
    let eid = enabled_id(struct_name, field_name);
    let ename = enabled_name(struct_name, field_name);
    let target = toggle_target(struct_name, field_name);
    let mut r = String::from_str("<div class=\"option-field\"><input type=\"checkbox\" id=\"");
    r.append(eid.as_str());
    r.append("\" name=\"");
    r.append(ename.as_str());
    r.append(
        "\" class=\"option-toggle\" onchange=\"this.nextElementSibling.disabled = !this.checked\" /><fieldset id=\"",
    );
    r.append(target.as_str());
    r.append("\" disabled>");
    r.append(inner);
    r.append("</fieldset></div>");
    r
}

/// `id` of the container of a list field.
pub fn container_id(struct_name: &String, field_name: &String) -> (r: String)
    ensures
        r@ == container_id_spec(struct_name@, field_name@),
{
    joined_name(struct_name, field_name, "_container")
}

/// One item of a list field around the input `inner`.
pub fn list_item_html(inner: &str) -> (r: String)
    ensures
        r@ == list_item_spec(inner@),
{
    let mut r = String::from_str("<div class=\"wrapper-vec-item\">");
    r.append(inner);
    r.append("<button type=\"button\" onclick=\"this.parentElement.remove()\">Remove</button></div>");
    r
}

/// A list field without items, with `item` as the template of a new item.
pub fn list_container_html(container_id: &str, item: &str) -> (r: String)
    ensures
        r@ == list_container_spec(container_id@, item@),
{
    let mut r = String::from_str("<div class=\"wrapper-vec-container\" id=\"");
    r.append(container_id);
    r.append("\">\n                        <template id=\"");
    r.append(container_id);
    r.append("_template\">");
    r.append(item);
    r.append(
        "</template>\n                        <div class=\"wrapper-vec-items\"></div>\n                        <button type=\"button\" onclick=\"addWrapperVecItem('",
    );
    r.append(container_id);
    r.append("')\">Add Item</button>\n                    </div>");
    r
}

/// Opening tag of the block of a struct; `condition` is the display condition as written,
/// whose double quotes become single ones.
pub fn block_open(struct_name: &str, condition: Option<&str>) -> (r: String)
    ensures
        r@ == block_open_spec(struct_name@, match condition {
            Some(c) => Some(c@),
            None => None,
        }),
{
    let mut r = String::from_str("<div id=\"");
    r.append(struct_name);
    r.append("\" ");
    let ghost before = r@;
    match condition {
        Some(c) => {
            r.append("data-show-if=\"");
            let ghost mid = r@;
            let n = c.unicode_len();
            let mut i: usize = 0;
            while i < n
                invariant
                    n == c@.len(),
                    i <= n,
                    r@ == mid + quotes_to_apostrophes(c@.take(i as int)),
                decreases n - i,
            {
                let ch = c.get_char(i);
                if ch == '"' {
                    push_char(&mut r, '\'');
                } else {
                    push_char(&mut r, ch);
                }
                proof {
                    assert(quotes_to_apostrophes(c@.take(i + 1)) =~= quotes_to_apostrophes(
                        c@.take(i as int),
                    ).push(if ch == '"' { '\'' } else { ch }));
                }
                i = i + 1;
            }
            proof {
                assert(c@.take(n as int) =~= c@);
            }
            r.append("\"");
            proof {
                assert(r@ =~= before + ("data-show-if=\""@ + quotes_to_apostrophes(c@) + "\""@));
            }
        },
        None => {
            proof {
                assert(r@ =~= before + Seq::<char>::empty());
            }
        },
    }
    r.append("> ");
    r
}

/// The input of a widget as shown without data.
pub fn widget_static_html(w: &Widget, struct_name: &String, field_name: &String, is_array: bool) -> (r: String)
    requires
        is_input(*w),
    ensures
        r@ == widget_static_spec(*w, struct_name@, field_name@, is_array),
    decreases w,
{
    match w {
        Widget::Registry { variants } => registry_static_html(struct_name, field_name, is_array, variants),
        Widget::Text { placeholder } => text_input_html(struct_name, field_name, is_array, true, placeholder.as_str()),
        Widget::Numeric { min, max } => {
            let attrs = numeric_attrs(
                match min {
                    Some(a) => Some(a.as_str()),
                    None => None,
                },
                match max {
                    Some(b) => Some(b.as_str()),
                    None => None,
                },
            );
            number_input_html(struct_name, field_name, is_array, true, attrs.as_str())
        },
        Widget::Bool => checkbox_html(struct_name, field_name, is_array, true),
        Widget::Slider { min, max, step } => slider_html(
            struct_name,
            field_name,
            is_array,
            min.as_str(),
            max.as_str(),
            step.as_str(),
        ),
        Widget::Wrapper { inner } => widget_static_html(inner, struct_name, field_name, is_array),
        Widget::WrapperVec { .. } => String::new(),
        Widget::OptionField { .. } => String::new(),
    }
}

/// A field as shown without data: its label, then its input, optional switch or list.
pub fn field_static_html(struct_name: &String, field: &FormField) -> (r: String)
    requires
        field_drawable(field.widget),
    ensures
        r@ == field_static_spec(struct_name@, *field),
{
    let f = &field.name;
    let mut r = label_html(struct_name, f);
    match &field.widget {
        Widget::OptionField { inner } => {
            let inner_html = widget_static_html(inner, struct_name, f, false);
            let part = option_field_html(struct_name, f, inner_html.as_str());
            r.append(part.as_str());
        },
        Widget::WrapperVec { inner } => {
            let inner_html = widget_static_html(inner, struct_name, f, true);
            let cid = container_id(struct_name, f);
            let item = list_item_html(inner_html.as_str());
            let part = list_container_html(cid.as_str(), item.as_str());
            r.append(part.as_str());
            r.append("<br/>");
            proof {
                let s = struct_name@;
                assert(r@ =~= label_spec(s, f@) + (list_container_spec(
                    container_id_spec(s, f@),
                    list_item_spec(widget_static_spec(**inner, s, f@, true)),
                ) + "<br/>"@));
            }
        },
        _ => {
            let part = widget_static_html(&field.widget, struct_name, f, false);
            r.append(part.as_str());
        },
    }
    r
}

/// The block of a struct as shown without data: opening tag, its fields one per line, and
/// the closing tag.
pub fn block_static_html(struct_name: &String, condition: Option<&str>, fields: &Vec<FormField>) -> (r: String)
    requires
        forall|i: int| 0 <= i < fields@.len() ==> field_drawable(#[trigger] fields@[i].widget),
    ensures
        r@ == block_static_spec(struct_name@, match condition {
            Some(c) => Some(c@),
            None => None,
        }, fields@),
{
    let mut r = block_open(struct_name.as_str(), condition);
    let ghost head = r@;
    let ghost parts = fields@.map_values(|fd: FormField| field_static_spec(struct_name@, fd));
    let n = fields.len();
    let mut i: usize = 0;
    while i < n
        invariant
            n == fields@.len(),
            forall|j: int| 0 <= j < fields@.len() ==> field_drawable(#[trigger] fields@[j].widget),
            parts == fields@.map_values(|fd: FormField| field_static_spec(struct_name@, fd)),
            i <= n,
            r@ == head + joined(parts.take(i as int), "\n"@),
        decreases n - i,
    {
        if i > 0 {
            r.append("\n");
        }
        let part = field_static_html(struct_name, &fields[i]);
        r.append(part.as_str());
        proof {
            lemma_joined_step(parts, "\n"@, i as int);
            assert(parts.take(0) =~= Seq::<Seq<char>>::empty());
        }
        i = i + 1;
    }
    proof {
        assert(parts.take(n as int) =~= parts);
    }
    r.append("</div>");
    r
}

/// `sub` occurs in `text` starting at position `k`.
pub open spec fn occurs_at(text: Seq<char>, sub: Seq<char>, k: int) -> bool {
    0 <= k && k + sub.len() <= text.len() && text.subrange(k, k + sub.len()) == sub
}

/// A newtype is drawn as the widget it wraps, at the same place: wrapping changes neither
/// whether the widget is an input nor its HTML, inside a list or not.
pub proof fn lemma_wrapper_transparent(w: Widget, s: Seq<char>, f: Seq<char>, is_array: bool)
    ensures
        is_input(Widget::Wrapper { inner: Box::new(w) }) == is_input(w),
        widget_static_spec(Widget::Wrapper { inner: Box::new(w) }, s, f, is_array)
            == widget_static_spec(w, s, f, is_array),
{
}

/// The input of a list item carries the item's index: whatever the widget, wrapped or not,
/// its HTML in a list holds the indexed `name` of the field, `S[field][__INDEX__]` in the
/// item template, or `S[field][{}]` where the index is filled in later.
pub proof fn lemma_list_inputs_indexed(w: Widget, s: Seq<char>, f: Seq<char>)
    requires
        is_input(w),
    ensures
        exists|k: int|
            occurs_at(widget_static_spec(w, s, f, true), field_name_attr(s, f, true, true), k)
            || occurs_at(widget_static_spec(w, s, f, true), field_name_attr(s, f, true, false), k),
    decreases w,
{
    let html = widget_static_spec(w, s, f, true);
    match w {
        Widget::Wrapper { inner } => {
            lemma_list_inputs_indexed(*inner, s, f);
        },
        Widget::Registry { variants } => {
            let name = field_name_attr(s, f, true, true);
            let pre = "<select id=\""@ + field_id(s, f, true, true) + "\" name=\""@;
            let k = pre.len() as int;
            assert(html.subrange(k, k + name.len()) =~= name);
            assert(occurs_at(html, name, k));
        },
        Widget::Text { placeholder } => {
            let name = field_name_attr(s, f, true, true);
            let pre = "<input type=\"text\" id=\""@ + field_id(s, f, true, true) + "\" name=\""@;
            let k = pre.len() as int;
            assert(html.subrange(k, k + name.len()) =~= name);
            assert(occurs_at(html, name, k));
        },
        Widget::Numeric { min, max } => {
            let name = field_name_attr(s, f, true, true);
            let pre = "<input type=\"number\" id=\""@ + field_id(s, f, true, true) + "\" name=\""@;
            let k = pre.len() as int;
            assert(html.subrange(k, k + name.len()) =~= name);
            assert(occurs_at(html, name, k));
        },
        Widget::Bool => {
            let name = field_name_attr(s, f, true, true);
            let pre = "<input type=\"checkbox\" id=\""@ + field_id(s, f, true, true) + "\" name=\""@;
            let k = pre.len() as int;
            assert(html.subrange(k, k + name.len()) =~= name);
            assert(occurs_at(html, name, k));
        },
        Widget::Slider { min, max, step } => {
            let name = field_name_attr(s, f, true, false);
            let pre = "<div class=\"slider-group\">\n        <input type=\"number\" name=\""@;
            let k = pre.len() as int;
            assert(html.subrange(k, k + name.len()) =~= name);
            assert(occurs_at(html, name, k));
        },
        _ => {},
    }
}

/// Text found in a part is found in any text built around that part.
pub proof fn lemma_occurs_in_context(p: Seq<char>, x: Seq<char>, q: Seq<char>, sub: Seq<char>, k: int)
    requires
        occurs_at(x, sub, k),
    ensures
        occurs_at(p + x + q, sub, p.len() + k),
{
    assert((p + x + q).subrange(p.len() + k, p.len() + k + sub.len()) =~= x.subrange(k, k + sub.len()));
}

/// A list field gives each of its items the index: the template of a new item holds the
/// indexed `name` of the field.
pub proof fn lemma_list_field_indexed(s: Seq<char>, field: FormField)
    requires
        field.widget matches Widget::WrapperVec { inner } && is_input(*inner),
    ensures
        exists|k: int|
            occurs_at(field_static_spec(s, field), field_name_attr(s, field.name@, true, true), k)
            || occurs_at(field_static_spec(s, field), field_name_attr(s, field.name@, true, false), k),
{
    let f = field.name@;
    match field.widget {
        Widget::WrapperVec { inner } => {
            let w = *inner;
            let html = widget_static_spec(w, s, f, true);
            lemma_list_inputs_indexed(w, s, f);
            let k = choose|k: int|
                occurs_at(html, field_name_attr(s, f, true, true), k) || occurs_at(
                    html,
                    field_name_attr(s, f, true, false),
                    k,
                );
            let sub = if occurs_at(html, field_name_attr(s, f, true, true), k) {
                field_name_attr(s, f, true, true)
            } else {
                field_name_attr(s, f, true, false)
            };
            let item_pre = "<div class=\"wrapper-vec-item\">"@;
            let item_post = "<button type=\"button\" onclick=\"this.parentElement.remove()\">Remove</button></div>"@;
            let item = list_item_spec(html);
            assert(item == item_pre + html + item_post);
            lemma_occurs_in_context(item_pre, html, item_post, sub, k);
            let k1 = item_pre.len() + k;
            let cid = container_id_spec(s, f);
            let cont_pre = "<div class=\"wrapper-vec-container\" id=\""@ + cid
                + "\">\n                        <template id=\""@ + cid + "_template\">"@;
            let cont_post = "</template>\n                        <div class=\"wrapper-vec-items\"></div>\n                        <button type=\"button\" onclick=\"addWrapperVecItem('"@
                + cid + "')\">Add Item</button>\n                    </div>"@;
            let cont = list_container_spec(cid, item);
            assert(cont =~= cont_pre + item + cont_post);
            lemma_occurs_in_context(cont_pre, item, cont_post, sub, k1);
            let k2 = cont_pre.len() + k1;
            let label = label_spec(s, f);
            assert(field_static_spec(s, field) =~= label + cont + "<br/>"@);
            lemma_occurs_in_context(label, cont, "<br/>"@, sub, k2);
            assert(occurs_at(field_static_spec(s, field), sub, label.len() + k2));
        },
        _ => {},
    }
}

} // verus!
