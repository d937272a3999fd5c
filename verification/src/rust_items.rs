//! The enums declared in a Rust source file, as the settings form reads them to offer an
//! enum's variants as choices.
use vstd::prelude::*;
use crate::text::text_eq;

verus! {

/// What `syn` reads from a Rust source file: `None` when the text is no valid Rust file;
/// otherwise one entry per top-level item, holding the enum's name and its variants' names
/// in order when the item is an enum, and `None` for any other item.
pub uninterp spec fn rust_file_enums(source: Seq<char>) -> Option<Seq<Option<(Seq<char>, Seq<Seq<char>>)>>>;

/// The view of an item list.
pub open spec fn items_view(items: Seq<Option<(String, Vec<String>)>>) -> Seq<Option<(Seq<char>, Seq<Seq<char>>)>> {
    items.map_values(|it: Option<(String, Vec<String>)>| item_view(it))
}

/// The view of one item.
pub open spec fn item_view(it: Option<(String, Vec<String>)>) -> Option<(Seq<char>, Seq<Seq<char>>)> {
    match it {
        Some((name, variants)) => Some((name@, variants@.map_values(|v: String| v@))),
        None => None,
    }
}

/// The top-level items of the Rust source `source`, as `syn::parse_str::<syn::File>` reads
/// them: each enum with its name and its variants' names, every other item as `None`;
/// `None` when `syn` refuses the text. The result is named `rust_file_enums`.
#[verifier::external_body]
fn file_enums(source: &str) -> (r: Option<Vec<Option<(String, Vec<String>)>>>)
    ensures
        match r {
            Some(items) => rust_file_enums(source@) == Some(items_view(items@)),
            None => rust_file_enums(source@) is None,
        },
{
    let file = syn::parse_str::<syn::File>(source).ok()?;
    Some(
        file.items.iter().map(|item| match item {
            syn::Item::Enum(e) => Some((e.ident.to_string(), e.variants.iter().map(|v| v.ident.to_string()).collect())),
            _ => None,
        }).collect(),
    )
}

/// The variants of the first enum named `name` among `items`, if there is one.
pub open spec fn variants_of(items: Seq<Option<(Seq<char>, Seq<Seq<char>>)>>, name: Seq<char>) -> Option<Seq<Seq<char>>>
    decreases items.len(),
{
    if items.len() == 0 {
        None
    } else {
        match items[0] {
            Some((n, vs)) => if n == name {
                Some(vs)
            } else {
                variants_of(items.drop_first(), name)
            },
            None => variants_of(items.drop_first(), name),
        }
    }
}

/// Why the variants of an enum could not be read.
#[derive(Debug, PartialEq, Eq)]
pub enum RegistryError {
    /// The file is not valid Rust.
    Parse,
    /// The file declares no enum of that name.
    EnumNotFound,
}

/// The variants of the first enum named `name` among already read `items`.
pub fn variants_in(items: &Vec<Option<(String, Vec<String>)>>, name: &str) -> (r: Option<Vec<String>>)
    ensures
        match r {
            Some(vs) => variants_of(items_view(items@), name@) == Some(vs@.map_values(|v: String| v@)),
            None => variants_of(items_view(items@), name@) is None,
        },
{
    let ghost all = items_view(items@);
    let n = items.len();
    let mut i: usize = 0;
    proof {
        assert(all.skip(0) =~= all);
    }
    while i < n
        invariant
            n == items@.len(),
            i <= n,
            all == items_view(items@),
            variants_of(all, name@) == variants_of(all.skip(i as int), name@),
        decreases n - i,
    {
        proof {
            assert(all.skip(i as int)[0] == item_view(items@[i as int]));
            assert(all.skip(i as int).drop_first() =~= all.skip(i + 1));
        }
        match &items[i] {
            Some((item_name, variants)) => {
                if text_eq(item_name.as_str(), name) {
                    return Some(variants.clone());
                }
            },
            None => {},
        }
        i = i + 1;
    }
    None
}

/// The variants of the first enum named `name` declared in the Rust source `source`.
pub fn registry_variants(source: &str, name: &str) -> (r: Result<Vec<String>, RegistryError>)
    ensures
        match rust_file_enums(source@) {
            None => r == Err::<Vec<String>, RegistryError>(RegistryError::Parse),
            Some(items) => match variants_of(items, name@) {
                None => r == Err::<Vec<String>, RegistryError>(RegistryError::EnumNotFound),
                Some(vs) => r matches Ok(v) && v@.map_values(|x: String| x@) == vs,
            },
        },
{
    match file_enums(source) {
        None => Err(RegistryError::Parse),
        Some(items) => match variants_in(&items, name) {
            None => Err(RegistryError::EnumNotFound),
            Some(vs) => Ok(vs),
        },
    }
}

} // verus!
