//! Names derived from configuration types and fields: section names of the shadow
//! configuration, and the `id`/`name` attributes of the settings form.
use vstd::prelude::*;
use crate::text::{ascii_lower, is_uppercase, push_char, text_eq, to_ascii_lowercase, uppercase};

verus! {

/// `name` in snake case: an underscore before every upper-case character but the first,
/// and ASCII letters lowered.
pub open spec fn snake_case(name: Seq<char>) -> Seq<char>
    decreases name.len(),
{
    if name.len() == 0 {
        Seq::empty()
    } else {
        let c = name.last();
        let i = name.len() - 1;
        snake_case(name.drop_last()) + if uppercase(c) && i != 0 {
            seq!['_', ascii_lower(c)]
        } else {
            seq![ascii_lower(c)]
        }
    }
}

/// Convert a type name such as `ColorFilterType` to snake case (`color_filter_type`).
pub fn name_to_snake_case(name_ident: String) -> (r: String)
    ensures
        r@ == snake_case(name_ident@),
{
    let name = name_ident.as_str();
    let n = name.unicode_len();
    let mut out = String::new();
    let mut i: usize = 0;
    while i < n
        invariant
            n == name@.len(),
            i <= n,
            out@ == snake_case(name@.take(i as int)),
        decreases n - i,
    {
        let ch = name.get_char(i);
        if is_uppercase(ch) && i != 0 {
            push_char(&mut out, '_');
        }
        push_char(&mut out, to_ascii_lowercase(ch));
        proof {
            assert(name@.take(i + 1).drop_last() =~= name@.take(i as int));
        }
        i = i + 1;
        assert(out@ =~= snake_case(name@.take(i as int)));
    }
    assert(name@.take(n as int) =~= name@);
    out
}

/// `id` attribute of a form field: `Struct_field`, with `_{}` (a placeholder for the item
/// index) or `___INDEX__` (in the item template) appended for items of a list.
pub open spec fn field_id(struct_name: Seq<char>, field_name: Seq<char>, is_array: bool, is_static: bool) -> Seq<char> {
    let base = struct_name + "_"@ + field_name;
    if is_array {
        if is_static {
            base + "___INDEX__"@
        } else {
            base + "_{}"@
        }
    } else {
        base
    }
}

/// `name` attribute of a form field: `Struct[field]`, with `[{}]` or `[__INDEX__]`
/// appended for items of a list.
pub open spec fn field_name_attr(struct_name: Seq<char>, field_name: Seq<char>, is_array: bool, is_static: bool) -> Seq<char> {
    let base = struct_name + "["@ + field_name + "]"@;
    if is_array {
        if is_static {
            base + "[__INDEX__]"@
        } else {
            base + "[{}]"@
        }
    } else {
        base
    }
}

/// The `id` attribute of a form field.
pub fn gen_field_id(struct_name: &String, field_name: &String, is_array: bool, is_static: bool) -> (r: String)
    ensures
        r@ == field_id(struct_name@, field_name@, is_array, is_static),
{
    let mut r = struct_name.clone();
    r.append("_");
    r.append(field_name.as_str());
    if is_array {
        if is_static {
            r.append("___INDEX__");
        } else {
            r.append("_{}");
        }
    }
    r
}

/// The `name` attribute of a form field.
pub fn gen_field_name(struct_name: &String, field_name: &String, is_array: bool, is_static: bool) -> (r: String)
    ensures
        r@ == field_name_attr(struct_name@, field_name@, is_array, is_static),
{
    let mut r = struct_name.clone();
    r.append("[");
    r.append(field_name.as_str());
    r.append("]");
    if is_array {
        if is_static {
            r.append("[__INDEX__]");
        } else {
            r.append("[{}]");
        }
    }
    r
}

/// Name of the shadow copy of a configuration type: the type's name followed by `Shadow`.
pub open spec fn shadow_name_spec(ident: Seq<char>) -> Seq<char> {
    ident + "Shadow"@
}

/// One of `names` is `ident`.
pub open spec fn names_contain(names: Seq<String>, ident: Seq<char>) -> bool {
    exists|i: int| 0 <= i < names.len() && #[trigger] names[i]@ == ident
}

/// The name of the shadow copy of type `ident`.
pub fn shadow_name(ident: &str) -> (r: String)
    ensures
        r@ == shadow_name_spec(ident@),
{
    let mut r = String::from_str(ident);
    r.append("Shadow");
    r
}

/// The name a type takes inside shadow types: its shadow's name when it is one of the
/// configuration types `names`, itself otherwise.
pub fn shadow_ident(ident: &str, names: &Vec<String>) -> (r: String)
    ensures
        r@ == if names_contain(names@, ident@) {
            shadow_name_spec(ident@)
        } else {
            ident@
        },
{
    let n = names.len();
    let mut i: usize = 0;
    while i < n
        invariant
            n == names@.len(),
            i <= n,
            forall|j: int| 0 <= j < i ==> names@[j]@ != ident@,
        decreases n - i,
    {
        if text_eq(names[i].as_str(), ident) {
            return shadow_name(ident);
        }
        i = i + 1;
    }
    String::from_str(ident)
}

/// How a field of a shadow type turns back into the field of the original type.
#[derive(Clone, Copy, Debug, PartialEq, Eq, Structural)]
pub enum FieldConversion {
    /// A `Vec`: each item is converted.
    EachItem,
    /// An `Option`: the value inside, when there is one, is converted.
    Inner,
    /// Any other type: the value is converted as a whole.
    Whole,
}

/// The conversion for a field whose type path ends in `last_segment` (`None` when the type
/// is no path).
pub open spec fn field_conversion_spec(last_segment: Option<Seq<char>>) -> FieldConversion {
    match last_segment {
        Some(s) => if s == "Vec"@ {
            FieldConversion::EachItem
        } else if s == "Option"@ {
            FieldConversion::Inner
        } else {
            FieldConversion::Whole
        },
        None => FieldConversion::Whole,
    }
}

/// The conversion for a field whose type path ends in `last_segment`.
pub fn field_conversion(last_segment: Option<&str>) -> (c: FieldConversion)
    ensures
        c == field_conversion_spec(match last_segment {
            Some(s) => Some(s@),
            None => None,
        }),
{
    match last_segment {
        Some(s) => if text_eq(s, "Vec") {
            FieldConversion::EachItem
        } else if text_eq(s, "Option") {
            FieldConversion::Inner
        } else {
            FieldConversion::Whole
        },
        None => FieldConversion::Whole,
    }
}

} // verus!
