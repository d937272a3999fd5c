//! The grammar in which the settings form names the widget of each field:
//!
//! - `Registry { "path/to/file.rs" => EnumName }`: a choice among an enum's variants
//! - `NumericField { }`, `NumericField { min }`, `NumericField { min, max }`
//! - `TextField { "placeholder" }`
//! - `BoolField { }`
//! - `SliderField { min, max }` or `SliderField { min, max, step }` (step 1 when absent)
//! - `Wrapper(TupleStruct Widget)`, or `Wrapper(TupleStruct, Widget)`: a newtype around
//!   another widget
//! - `WrapperVec(Widget)`: a list of values of another widget
//!
//! Tokens may be separated by white space. Numbers are kept as the literal text they are
//! written as. String literals take the escapes `\n`, `\t`, `\r`, `\0`, `\\`, `\"`, `\'`,
//! `\x7F` (up to `\x7F`), `\u{..}` (one to six hex digits, underscores allowed) and line
//! continuations; raw strings `r"..."`, `r#"..."#` are taken as written.
use vstd::prelude::*;
use crate::text::{is_whitespace, push_char, text_eq, unicode_white_space};

verus! {

/// A widget as written in the grammar.
pub enum WidgetSpec {
    Registry { file_path: String, registry_enum: String },
    Text { placeholder: String },
    Numeric { min: Option<String>, max: Option<String> },
    Bool,
    Slider { min: String, max: String, step: String },
    Wrapper { wrapper: String, inner: Box<WidgetSpec> },
    WrapperVec { inner: Box<WidgetSpec> },
}

/// A widget as written in the grammar, with its texts as character sequences.
pub enum WidgetSpecView {
    Registry { file_path: Seq<char>, registry_enum: Seq<char> },
    Text { placeholder: Seq<char> },
    Numeric { min: Option<Seq<char>>, max: Option<Seq<char>> },
    Bool,
    Slider { min: Seq<char>, max: Seq<char>, step: Seq<char> },
    Wrapper { wrapper: Seq<char>, inner: Box<WidgetSpecView> },
    WrapperVec { inner: Box<WidgetSpecView> },
}

/// The characters of an optional text.
pub open spec fn opt_chars(t: Option<String>) -> Option<Seq<char>> {
    match t {
        Some(x) => Some(x@),
        None => None,
    }
}

/// The view of a widget.
pub open spec fn widget_view(w: WidgetSpec) -> WidgetSpecView
    decreases w,
{
    match w {
        WidgetSpec::Registry { file_path, registry_enum } => WidgetSpecView::Registry {
            file_path: file_path@,
            registry_enum: registry_enum@,
        },
        WidgetSpec::Text { placeholder } => WidgetSpecView::Text { placeholder: placeholder@ },
        WidgetSpec::Numeric { min, max } => WidgetSpecView::Numeric {
            min: opt_chars(min),
            max: opt_chars(max),
        },
        WidgetSpec::Bool => WidgetSpecView::Bool,
        WidgetSpec::Slider { min, max, step } => WidgetSpecView::Slider {
            min: min@,
            max: max@,
            step: step@,
        },
        WidgetSpec::Wrapper { wrapper, inner } => WidgetSpecView::Wrapper {
            wrapper: wrapper@,
            inner: Box::new(widget_view(*inner)),
        },
        WidgetSpec::WrapperVec { inner } => WidgetSpecView::WrapperVec {
            inner: Box::new(widget_view(*inner)),
        },
    }
}

/// The view of a parse result: the widget and the position after it, or the error text.
pub open spec fn parse_view(r: Result<(WidgetSpec, usize), String>) -> Result<(WidgetSpecView, int), Seq<char>> {
    match r {
        Ok((w, n)) => Ok((widget_view(w), n as int)),
        Err(e) => Err(e@),
    }
}

/// The view of a scanned text token: its text and the position after it, or the error.
pub open spec fn text_view(r: Result<(String, usize), String>) -> Result<(Seq<char>, int), Seq<char>> {
    match r {
        Ok((t, n)) => Ok((t@, n as int)),
        Err(e) => Err(e@),
    }
}

/// The view of a scanned punctuation: the position after it, or the error.
pub open spec fn pos_view(r: Result<usize, String>) -> Result<int, Seq<char>> {
    match r {
        Ok(n) => Ok(n as int),
        Err(e) => Err(e@),
    }
}

/// Characters that may start an identifier.
pub open spec fn ident_start(c: char) -> bool {
    ('a' <= c <= 'z') || ('A' <= c <= 'Z') || c == '_'
}

/// Characters that may continue an identifier.
pub open spec fn ident_char(c: char) -> bool {
    ident_start(c) || ('0' <= c <= '9')
}

/// Characters that may continue a number literal (digits, `_`, `.`, and letters of
/// exponents and suffixes).
pub open spec fn number_char(c: char) -> bool {
    ident_char(c) || c == '.'
}

/// The first position at or after `i` that holds no white space.
pub open spec fn skip_ws(s: Seq<char>, i: int) -> int
    decreases s.len() - i,
{
    if 0 <= i < s.len() && unicode_white_space(s[i]) {
        skip_ws(s, i + 1)
    } else {
        i
    }
}

/// The end of the run of identifier characters that starts at `i`.
pub open spec fn ident_end(s: Seq<char>, i: int) -> int
    decreases s.len() - i,
{
    if 0 <= i < s.len() && ident_char(s[i]) {
        ident_end(s, i + 1)
    } else {
        i
    }
}

/// The end of the run of number characters that starts at `i`.
pub open spec fn number_end(s: Seq<char>, i: int) -> int
    decreases s.len() - i,
{
    if 0 <= i < s.len() && number_char(s[i]) {
        number_end(s, i + 1)
    } else {
        i
    }
}

/// The next token is the character `c`.
pub open spec fn peek_spec(s: Seq<char>, i: int, c: char) -> bool {
    let j = skip_ws(s, i);
    0 <= j < s.len() && s[j] == c
}

/// The error for a missing punctuation `c`.
pub open spec fn expected_punct(c: char) -> Seq<char> {
    "expected `"@.push(c) + "`"@
}

/// The punctuation `c` as the next token: the position after it.
pub open spec fn punct_spec(s: Seq<char>, i: int, c: char) -> Result<int, Seq<char>> {
    let j = skip_ws(s, i);
    if 0 <= j < s.len() && s[j] == c {
        Ok(j + 1)
    } else {
        Err(expected_punct(c))
    }
}

/// The arrow `=>` as the next token: the position after it.
pub open spec fn arrow_spec(s: Seq<char>, i: int) -> Result<int, Seq<char>> {
    let j = skip_ws(s, i);
    if 0 <= j && j + 1 < s.len() && s[j] == '=' && s[j + 1] == '>' {
        Ok(j + 2)
    } else {
        Err("expected `=>`"@)
    }
}

/// An identifier as the next token.
pub open spec fn ident_spec(s: Seq<char>, i: int) -> Result<(Seq<char>, int), Seq<char>> {
    let j = skip_ws(s, i);
    if 0 <= j < s.len() && ident_start(s[j]) {
        let e = ident_end(s, j + 1);
        Ok((s.subrange(j, e), e))
    } else {
        Err("expected identifier"@)
    }
}

/// A number literal as the next token, as written.
pub open spec fn number_spec(s: Seq<char>, i: int) -> Result<(Seq<char>, int), Seq<char>> {
    let j = skip_ws(s, i);
    if 0 <= j < s.len() && '0' <= s[j] <= '9' {
        let e = number_end(s, j + 1);
        Ok((s.subrange(j, e), e))
    } else {
        Err("expected number"@)
    }
}

/// The character an escape `\c` stands for, if it is one the grammar takes.
pub open spec fn escaped(c: char) -> Option<char> {
    if c == 'n' {
        Some('\n')
    } else if c == 't' {
        Some('\t')
    } else if c == 'r' {
        Some('\r')
    } else if c == '0' {
        Some('\0')
    } else if c == '\\' || c == '"' || c == '\'' {
        Some(c)
    } else {
        None
    }
}

/// The value of a hexadecimal digit, if `c` is one.
pub open spec fn hex_value(c: char) -> Option<u32> {
    if '0' <= c <= '9' {
        Some((c as u32 - '0' as u32) as u32)
    } else if 'a' <= c <= 'f' {
        Some((c as u32 - 'a' as u32 + 10) as u32)
    } else if 'A' <= c <= 'F' {
        Some((c as u32 - 'A' as u32 + 10) as u32)
    } else {
        None
    }
}

/// A Unicode scalar value: a character's code point.
pub open spec fn scalar(v: u32) -> bool {
    v <= 0xD7FF || (0xE000 <= v && v <= 0x10FFFF)
}

/// The position after the white space that a line continuation (`\` at the end of a
/// line) skips: spaces, tabs and line breaks.
pub open spec fn skip_continuation(s: Seq<char>, k: int) -> int
    decreases s.len() - k,
{
    if 0 <= k < s.len() && (s[k] == ' ' || s[k] == '\n' || s[k] == '\r' || s[k] == '\t') {
        skip_continuation(s, k + 1)
    } else {
        k
    }
}

/// The digits of a `\u{..}` escape from `k` (`count` digits read, worth `val`): the code
/// point and the position after the closing `}`. One to six hex digits, each may be
/// followed by underscores.
pub open spec fn unicode_digits(s: Seq<char>, k: int, val: u32, count: nat) -> Result<(u32, int), Seq<char>>
    decreases s.len() - k,
{
    if k < 0 || k >= s.len() {
        Err("unterminated string literal"@)
    } else if s[k] == '}' && count >= 1 {
        Ok((val, k + 1))
    } else if s[k] == '_' && count >= 1 {
        unicode_digits(s, k + 1, val, count)
    } else {
        match hex_value(s[k]) {
            Some(d) => if count < 6 {
                unicode_digits(s, k + 1, (val * 16 + d) as u32, count + 1)
            } else {
                Err("invalid unicode escape in string literal"@)
            },
            None => Err("invalid unicode escape in string literal"@),
        }
    }
}

/// The rest of a string literal from `k` (its opening quote read, `acc` decoded so far):
/// its value and the position after its closing quote.
pub open spec fn string_body(s: Seq<char>, k: int, acc: Seq<char>) -> Result<(Seq<char>, int), Seq<char>>
    decreases s.len() - k,
{
    if k < 0 || k >= s.len() {
        Err("unterminated string literal"@)
    } else if s[k] == '"' {
        Ok((acc, k + 1))
    } else if s[k] == '\\' {
        if k + 1 >= s.len() {
            Err("unterminated string literal"@)
        } else if s[k + 1] == '\n' {
            proof {
                lemma_skip_continuation_ge(s, k + 2);
            }
            string_body(s, skip_continuation(s, k + 2), acc)
        } else if s[k + 1] == 'x' {
            if k + 3 < s.len() && hex_value(s[k + 2]) is Some && hex_value(s[k + 3]) is Some
                && hex_value(s[k + 2])->0 <= 7 {
                let v = hex_value(s[k + 2])->0 * 16 + hex_value(s[k + 3])->0;
                string_body(s, k + 4, acc.push(v as char))
            } else {
                Err("invalid escape in string literal"@)
            }
        } else if s[k + 1] == 'u' {
            if k + 2 < s.len() && s[k + 2] == '{' {
                match unicode_digits(s, k + 3, 0, 0) {
                    Err(e) => Err(e),
                    Ok((v, e)) => if scalar(v) {
                        proof {
                            lemma_unicode_digits_ge(s, k + 3, 0, 0);
                        }
                        string_body(s, e, acc.push(v as char))
                    } else {
                        Err("invalid unicode escape in string literal"@)
                    },
                }
            } else {
                Err("invalid unicode escape in string literal"@)
            }
        } else {
            match escaped(s[k + 1]) {
                Some(c) => string_body(s, k + 2, acc.push(c)),
                None => Err("unsupported escape in string literal"@),
            }
        }
    } else {
        string_body(s, k + 1, acc.push(s[k]))
    }
}

/// The end of the run of `#` that starts at `k`.
pub open spec fn hashes_end(s: Seq<char>, k: int) -> int
    decreases s.len() - k,
{
    if 0 <= k < s.len() && s[k] == '#' {
        hashes_end(s, k + 1)
    } else {
        k
    }
}

/// `n` characters `#` follow from `q`.
pub open spec fn hashes_at(s: Seq<char>, q: int, n: int) -> bool {
    0 <= q && q + n <= s.len() && forall|t: int| 0 <= t < n ==> #[trigger] s[q + t] == '#'
}

/// The position of the closing quote of a raw string with `n` hashes, searching from `p`.
pub open spec fn raw_close(s: Seq<char>, p: int, n: int) -> Result<int, Seq<char>>
    decreases s.len() - p,
{
    if p < 0 || p >= s.len() {
        Err("unterminated string literal"@)
    } else if s[p] == '"' && hashes_at(s, p + 1, n) {
        Ok(p)
    } else {
        raw_close(s, p + 1, n)
    }
}

/// A string literal as the next token: its value and the position after it. Raw strings
/// `r"..."` and `r#"..."#` (any number of `#`) are taken as written.
pub open spec fn string_spec(s: Seq<char>, i: int) -> Result<(Seq<char>, int), Seq<char>> {
    let j = skip_ws(s, i);
    if 0 <= j < s.len() && s[j] == '"' {
        string_body(s, j + 1, Seq::empty())
    } else if 0 <= j < s.len() && s[j] == 'r' {
        let h = hashes_end(s, j + 1);
        if h < s.len() && s[h] == '"' {
            match raw_close(s, h + 1, h - (j + 1)) {
                Err(e) => Err(e),
                Ok(p) => Ok((s.subrange(h + 1, p), p + 1 + (h - (j + 1)))),
            }
        } else {
            Err("expected string literal"@)
        }
    } else {
        Err("expected string literal"@)
    }
}

/// A raw string closes at a quote within the text, followed by its hashes.
pub proof fn lemma_raw_close(s: Seq<char>, p: int, n: int)
    ensures
        raw_close(s, p, n) matches Ok(q) ==> p <= q < s.len() && hashes_at(s, q + 1, n),
    decreases s.len() - p,
{
    if 0 <= p < s.len() && !(s[p] == '"' && hashes_at(s, p + 1, n)) {
        lemma_raw_close(s, p + 1, n);
    }
}

/// Skipping a line continuation moves forward, and stays within the text.
pub proof fn lemma_skip_continuation_ge(s: Seq<char>, k: int)
    ensures
        skip_continuation(s, k) >= k,
        0 <= k <= s.len() ==> skip_continuation(s, k) <= s.len(),
    decreases s.len() - k,
{
    if 0 <= k < s.len() && (s[k] == ' ' || s[k] == '\n' || s[k] == '\r' || s[k] == '\t') {
        lemma_skip_continuation_ge(s, k + 1);
    }
}

/// The digits of a unicode escape end after where they start, within the text.
pub proof fn lemma_unicode_digits_ge(s: Seq<char>, k: int, val: u32, count: nat)
    ensures
        unicode_digits(s, k, val, count) matches Ok((_, e)) ==> k < e <= s.len(),
    decreases s.len() - k,
{
    if 0 <= k < s.len() {
        if s[k] == '}' && count >= 1 {
        } else if s[k] == '_' && count >= 1 {
            lemma_unicode_digits_ge(s, k + 1, val, count);
        } else {
            match hex_value(s[k]) {
                Some(d) => if count < 6 {
                    lemma_unicode_digits_ge(s, k + 1, (val * 16 + d) as u32, count + 1);
                },
                None => {},
            }
        }
    }
}

/// The settings of a registry after its `{`: `"path" => Enum }`.
pub open spec fn registry_spec(s: Seq<char>, i: int) -> Result<(WidgetSpecView, int), Seq<char>> {
    match string_spec(s, i) {
        Err(e) => Err(e),
        Ok((path, a)) => match arrow_spec(s, a) {
            Err(e) => Err(e),
            Ok(b) => match ident_spec(s, b) {
                Err(e) => Err(e),
                Ok((name, c)) => match punct_spec(s, c, '}') {
                    Err(e) => Err(e),
                    Ok(d) => Ok((WidgetSpecView::Registry { file_path: path, registry_enum: name }, d)),
                },
            },
        },
    }
}

/// The settings of a text field after its `{`: `"placeholder" }`.
pub open spec fn text_field_spec(s: Seq<char>, i: int) -> Result<(WidgetSpecView, int), Seq<char>> {
    match string_spec(s, i) {
        Err(e) => Err(e),
        Ok((p, a)) => match punct_spec(s, a, '}') {
            Err(e) => Err(e),
            Ok(b) => Ok((WidgetSpecView::Text { placeholder: p }, b)),
        },
    }
}

/// The settings of a number field after its `{`: nothing, `min`, `min,` or `min, max`,
/// then `}`.
pub open spec fn numeric_spec(s: Seq<char>, i: int) -> Result<(WidgetSpecView, int), Seq<char>> {
    if peek_spec(s, i, '}') {
        Ok((WidgetSpecView::Numeric { min: None, max: None }, skip_ws(s, i) + 1))
    } else {
        match number_spec(s, i) {
            Err(e) => Err(e),
            Ok((min, a)) => if peek_spec(s, a, ',') {
                let b = skip_ws(s, a) + 1;
                if peek_spec(s, b, '}') {
                    Ok((WidgetSpecView::Numeric { min: Some(min), max: None }, skip_ws(s, b) + 1))
                } else {
                    match number_spec(s, b) {
                        Err(e) => Err(e),
                        Ok((max, c)) => match punct_spec(s, c, '}') {
                            Err(e) => Err(e),
                            Ok(d) => Ok((WidgetSpecView::Numeric { min: Some(min), max: Some(max) }, d)),
                        },
                    }
                }
            } else {
                match punct_spec(s, a, '}') {
                    Err(e) => Err(e),
                    Ok(d) => Ok((WidgetSpecView::Numeric { min: Some(min), max: None }, d)),
                }
            },
        }
    }
}

/// The settings of a slider: `{ min, max }` or `{ min, max, step }` (a trailing comma
/// allowed), the step being `1` when absent.
pub open spec fn slider_spec(s: Seq<char>, i: int) -> Result<(WidgetSpecView, int), Seq<char>> {
    if !peek_spec(s, i, '{') {
        Err("expected curly braces"@)
    } else {
        let o = skip_ws(s, i) + 1;
        match number_spec(s, o) {
            Err(e) => Err(e),
            Ok((min, a)) => match punct_spec(s, a, ',') {
                Err(e) => Err(e),
                Ok(b) => match number_spec(s, b) {
                    Err(e) => Err(e),
                    Ok((max, c)) => if peek_spec(s, c, ',') {
                        let d = skip_ws(s, c) + 1;
                        if peek_spec(s, d, '}') {
                            Ok((WidgetSpecView::Slider { min, max, step: "1"@ }, skip_ws(s, d) + 1))
                        } else {
                            match number_spec(s, d) {
                                Err(e) => Err(e),
                                Ok((step, f)) => match punct_spec(s, f, '}') {
                                    Err(e) => Err(e),
                                    Ok(g) => Ok((WidgetSpecView::Slider { min, max, step }, g)),
                                },
                            }
                        }
                    } else {
                        match punct_spec(s, c, '}') {
                            Err(e) => Err(e),
                            Ok(g) => Ok((WidgetSpecView::Slider { min, max, step: "1"@ }, g)),
                        }
                    },
                },
            },
        }
    }
}

/// The error for a widget name the grammar does not know.
pub open spec fn unknown_widget(name: Seq<char>) -> Seq<char> {
    "Unknown widget_type type: "@ + name
}

/// The message for a wrapper without its parameters.
pub open spec fn wrapper_usage() -> Seq<char> {
    "Can`t find wrapper params. Usage: Wrapper(WrapperType, InnerWidget)"@
}

/// The message for a list wrapper without its parameter.
pub open spec fn wrapper_vec_usage() -> Seq<char> {
    "Can`t find wrapper vec params. Usage: WrapperVec(InnerWidget)"@
}

/// The message for a widget without its `{ .. }` settings.
pub open spec fn missing_config() -> Seq<char> {
    "Can`t find config"@
}

/// Skipping white space moves forward, and stays within the text.
pub proof fn lemma_skip_ws_ge(s: Seq<char>, i: int)
    ensures
        skip_ws(s, i) >= i,
        0 <= i <= s.len() ==> skip_ws(s, i) <= s.len(),
    decreases s.len() - i,
{
    if 0 <= i < s.len() && unicode_white_space(s[i]) {
        lemma_skip_ws_ge(s, i + 1);
    }
}

/// An identifier run ends at or after its start, and within the text.
pub proof fn lemma_ident_end_ge(s: Seq<char>, i: int)
    ensures
        ident_end(s, i) >= i,
        0 <= i <= s.len() ==> ident_end(s, i) <= s.len(),
    decreases s.len() - i,
{
    if 0 <= i < s.len() && ident_char(s[i]) {
        lemma_ident_end_ge(s, i + 1);
    }
}

/// A widget starting at `i` (white space before it skipped): the widget and the position
/// after its last token.
pub open spec fn widget_spec(s: Seq<char>, i: int) -> Result<(WidgetSpecView, int), Seq<char>>
    decreases s.len() - i,
{
    match ident_spec(s, i) {
        Err(e) => Err(e),
        Ok((name, j)) => {
            if name == "SliderField"@ {
                slider_spec(s, j)
            } else if name == "Wrapper"@ {
                if !peek_spec(s, j, '(') {
                    Err(wrapper_usage())
                } else {
                    let o = skip_ws(s, j) + 1;
                    match ident_spec(s, o) {
                        Err(e) => Err(e),
                        Ok((wrapper, a)) => {
                            let b = if peek_spec(s, a, ',') {
                                skip_ws(s, a) + 1
                            } else {
                                a
                            };
                            proof {
                                lemma_skip_ws_ge(s, i);
                                lemma_ident_end_ge(s, skip_ws(s, i) + 1);
                                lemma_skip_ws_ge(s, j);
                                lemma_skip_ws_ge(s, o);
                                lemma_ident_end_ge(s, skip_ws(s, o) + 1);
                                lemma_skip_ws_ge(s, a);
                            }
                            match widget_spec(s, b) {
                                Err(e) => Err(e),
                                Ok((inner, c)) => match punct_spec(s, c, ')') {
                                    Err(e) => Err(e),
                                    Ok(d) => Ok((WidgetSpecView::Wrapper { wrapper, inner: Box::new(inner) }, d)),
                                },
                            }
                        },
                    }
                }
            } else if name == "WrapperVec"@ {
                if !peek_spec(s, j, '(') {
                    Err(wrapper_vec_usage())
                } else {
                    let o = skip_ws(s, j) + 1;
                    proof {
                        lemma_skip_ws_ge(s, i);
                        lemma_ident_end_ge(s, skip_ws(s, i) + 1);
                        lemma_skip_ws_ge(s, j);
                    }
                    match widget_spec(s, o) {
                        Err(e) => Err(e),
                        Ok((inner, c)) => match punct_spec(s, c, ')') {
                            Err(e) => Err(e),
                            Ok(d) => Ok((WidgetSpecView::WrapperVec { inner: Box::new(inner) }, d)),
                        },
                    }
                }
            } else if name == "Registry"@ || name == "NumericField"@ || name == "TextField"@
                || name == "BoolField"@ {
                if !peek_spec(s, j, '{') {
                    Err(missing_config())
                } else {
                    let o = skip_ws(s, j) + 1;
                    if name == "Registry"@ {
                        registry_spec(s, o)
                    } else if name == "NumericField"@ {
                        numeric_spec(s, o)
                    } else if name == "TextField"@ {
                        text_field_spec(s, o)
                    } else {
                        match punct_spec(s, o, '}') {
                            Err(e) => Err(e),
                            Ok(d) => Ok((WidgetSpecView::Bool, d)),
                        }
                    }
                }
            } else {
                Err(unknown_widget(name))
            }
        },
    }
}

/// The widget written at the start of `text`, and the position after it.
pub open spec fn widget_grammar(text: Seq<char>) -> Result<(WidgetSpecView, int), Seq<char>> {
    widget_spec(text, 0)
}

/// The characters of `text`, in order.
fn chars_of(text: &str) -> (v: Vec<char>)
    ensures
        v@ == text@,
{
    let n = text.unicode_len();
    let mut v: Vec<char> = Vec::new();
    let mut i: usize = 0;
    while i < n
        invariant
            n == text@.len(),
            i <= n,
            v@ == text@.take(i as int),
        decreases n - i,
    {
        v.push(text.get_char(i));
        i = i + 1;
        assert(v@ =~= text@.take(i as int));
    }
    assert(text@.take(n as int) =~= text@);
    v
}

fn skip_ws_at(s: &Vec<char>, i: usize) -> (j: usize)
    requires
        i <= s@.len(),
    ensures
        j as int == skip_ws(s@, i as int),
        i <= j <= s@.len(),
{
    let mut j = i;
    while j < s.len()
        invariant
            i <= j <= s@.len(),
            skip_ws(s@, j as int) == skip_ws(s@, i as int),
        decreases s@.len() - j,
    {
        if !is_whitespace(s[j]) {
            return j;
        }
        j = j + 1;
    }
    j
}

fn is_ident_start(c: char) -> (r: bool)
    ensures
        r == ident_start(c),
{
    ('a' <= c && c <= 'z') || ('A' <= c && c <= 'Z') || c == '_'
}

fn is_ident_char(c: char) -> (r: bool)
    ensures
        r == ident_char(c),
{
    is_ident_start(c) || ('0' <= c && c <= '9')
}

fn ident_end_at(s: &Vec<char>, i: usize) -> (j: usize)
    requires
        i <= s@.len(),
    ensures
        j as int == ident_end(s@, i as int),
        i <= j <= s@.len(),
{
    let mut j = i;
    while j < s.len()
        invariant
            i <= j <= s@.len(),
            ident_end(s@, j as int) == ident_end(s@, i as int),
        decreases s@.len() - j,
    {
        if !is_ident_char(s[j]) {
            return j;
        }
        j = j + 1;
    }
    j
}

fn number_end_at(s: &Vec<char>, i: usize) -> (j: usize)
    requires
        i <= s@.len(),
    ensures
        j as int == number_end(s@, i as int),
        i <= j <= s@.len(),
{
    let mut j = i;
    while j < s.len()
        invariant
            i <= j <= s@.len(),
            number_end(s@, j as int) == number_end(s@, i as int),
        decreases s@.len() - j,
    {
        if !(is_ident_char(s[j]) || s[j] == '.') {
            return j;
        }
        j = j + 1;
    }
    j
}

/// The characters `s[from..to]` as a text.
fn text_between(s: &Vec<char>, from: usize, to: usize) -> (r: String)
    requires
        from <= to <= s@.len(),
    ensures
        r@ == s@.subrange(from as int, to as int),
{
    let mut r = String::new();
    let mut k = from;
    while k < to
        invariant
            from <= k <= to,
            to <= s@.len(),
            r@ == s@.subrange(from as int, k as int),
        decreases to - k,
    {
        push_char(&mut r, s[k]);
        k = k + 1;
        assert(r@ =~= s@.subrange(from as int, k as int));
    }
    r
}

fn punct(s: &Vec<char>, i: usize, c: char) -> (r: Result<usize, String>)
    requires
        i <= s@.len(),
    ensures
        pos_view(r) == punct_spec(s@, i as int, c),
        r matches Ok(n) ==> i < n <= s@.len(),
{
    let j = skip_ws_at(s, i);
    if j < s.len() && s[j] == c {
        Ok(j + 1)
    } else {
        let mut e = String::from_str("expected `");
        push_char(&mut e, c);
        e.append("`");
        Err(e)
    }
}

fn arrow(s: &Vec<char>, i: usize) -> (r: Result<usize, String>)
    requires
        i <= s@.len(),
    ensures
        pos_view(r) == arrow_spec(s@, i as int),
        r matches Ok(n) ==> i < n <= s@.len(),
{
    let j = skip_ws_at(s, i);
    if j < s.len() && s[j] == '=' && j + 1 < s.len() && s[j + 1] == '>' {
        Ok(j + 2)
    } else {
        Err(String::from_str("expected `=>`"))
    }
}

fn ident(s: &Vec<char>, i: usize) -> (r: Result<(String, usize), String>)
    requires
        i <= s@.len(),
    ensures
        text_view(r) == ident_spec(s@, i as int),
        r matches Ok((_, n)) ==> i < n <= s@.len(),
{
    let j = skip_ws_at(s, i);
    if j < s.len() && is_ident_start(s[j]) {
        let e = ident_end_at(s, j + 1);
        Ok((text_between(s, j, e), e))
    } else {
        Err(String::from_str("expected identifier"))
    }
}

fn number(s: &Vec<char>, i: usize) -> (r: Result<(String, usize), String>)
    requires
        i <= s@.len(),
    ensures
        text_view(r) == number_spec(s@, i as int),
        r matches Ok((_, n)) ==> i < n <= s@.len(),
{
    let j = skip_ws_at(s, i);
    if j < s.len() && '0' <= s[j] && s[j] <= '9' {
        let e = number_end_at(s, j + 1);
        Ok((text_between(s, j, e), e))
    } else {
        Err(String::from_str("expected number"))
    }
}

fn escape_of(c: char) -> (r: Option<char>)
    ensures
        r == escaped(c),
{
    if c == 'n' {
        Some('\n')
    } else if c == 't' {
        Some('\t')
    } else if c == 'r' {
        Some('\r')
    } else if c == '0' {
        Some('\0')
    } else if c == '\\' || c == '"' || c == '\'' {
        Some(c)
    } else {
        None
    }
}

/// `char::from_u32`: the character whose code point is `v`, when `v` is a Unicode scalar
/// value (at most U+10FFFF, no surrogate), and `None` otherwise.
#[verifier::external_body]
fn char_from_u32(v: u32) -> (r: Option<char>)
    ensures
        r is Some <==> scalar(v),
        r matches Some(c) ==> c == v as char,
{
    char::from_u32(v)
}

fn hex_digit(c: char) -> (r: Option<u32>)
    ensures
        r == hex_value(c),
{
    if '0' <= c && c <= '9' {
        Some(c as u32 - '0' as u32)
    } else if 'a' <= c && c <= 'f' {
        Some(c as u32 - 'a' as u32 + 10)
    } else if 'A' <= c && c <= 'F' {
        Some(c as u32 - 'A' as u32 + 10)
    } else {
        None
    }
}

fn skip_continuation_at(s: &Vec<char>, k: usize) -> (j: usize)
    requires
        k <= s@.len(),
    ensures
        j as int == skip_continuation(s@, k as int),
        k <= j <= s@.len(),
{
    let mut j = k;
    while j < s.len()
        invariant
            k <= j <= s@.len(),
            skip_continuation(s@, j as int) == skip_continuation(s@, k as int),
        decreases s@.len() - j,
    {
        let c = s[j];
        if !(c == ' ' || c == '\n' || c == '\r' || c == '\t') {
            return j;
        }
        j = j + 1;
    }
    j
}

fn unicode_escape_at(s: &Vec<char>, k: usize) -> (r: Result<(u32, usize), String>)
    requires
        k <= s@.len(),
    ensures
        match r {
            Ok((v, e)) => unicode_digits(s@, k as int, 0, 0) == Ok::<(u32, int), Seq<char>>((v, e as int)),
            Err(e) => unicode_digits(s@, k as int, 0, 0) == Err::<(u32, int), Seq<char>>(e@),
        },
{
    let mut val: u32 = 0;
    let mut count: u32 = 0;
    let mut j = k;
    while j < s.len()
        invariant
            k <= j <= s@.len(),
            count <= 6,
            count == 0 ==> val == 0,
            count <= 1 ==> val < 0x10,
            count <= 2 ==> val < 0x100,
            count <= 3 ==> val < 0x1000,
            count <= 4 ==> val < 0x10000,
            count <= 5 ==> val < 0x100000,
            val < 0x1000000,
            unicode_digits(s@, j as int, val, count as nat) == unicode_digits(s@, k as int, 0, 0),
        decreases s@.len() - j,
    {
        let c = s[j];
        if c == '}' && count >= 1 {
            return Ok((val, j + 1));
        } else if c == '_' && count >= 1 {
            j = j + 1;
        } else {
            match hex_digit(c) {
                Some(d) => {
                    if count < 6 {
                        val = val * 16 + d;
                        count = count + 1;
                        j = j + 1;
                    } else {
                        return Err(String::from_str("invalid unicode escape in string literal"));
                    }
                },
                None => {
                    return Err(String::from_str("invalid unicode escape in string literal"));
                },
            }
        }
    }
    Err(String::from_str("unterminated string literal"))
}

fn hashes_end_at(s: &Vec<char>, k: usize) -> (j: usize)
    requires
        k <= s@.len(),
    ensures
        j as int == hashes_end(s@, k as int),
        k <= j <= s@.len(),
{
    let mut j = k;
    while j < s.len()
        invariant
            k <= j <= s@.len(),
            hashes_end(s@, j as int) == hashes_end(s@, k as int),
        decreases s@.len() - j,
    {
        if s[j] != '#' {
            return j;
        }
        j = j + 1;
    }
    j
}

fn hashes_follow(s: &Vec<char>, q: usize, n: usize) -> (r: bool)
    requires
        q <= s@.len(),
    ensures
        r == hashes_at(s@, q as int, n as int),
{
    if n > s.len() - q {
        return false;
    }
    let mut t: usize = 0;
    while t < n
        invariant
            t <= n,
            q + n <= s.len(),
            forall|u: int| 0 <= u < t ==> #[trigger] s@[q + u] == '#',
        decreases n - t,
    {
        if s[q + t] != '#' {
            return false;
        }
        t = t + 1;
    }
    true
}

fn raw_close_at(s: &Vec<char>, p: usize, n: usize) -> (r: Result<usize, String>)
    requires
        p <= s@.len(),
    ensures
        pos_view(r) == raw_close(s@, p as int, n as int),
        r matches Ok(q) ==> p <= q < s@.len(),
{
    let mut q = p;
    while q < s.len()
        invariant
            p <= q <= s@.len(),
            raw_close(s@, q as int, n as int) == raw_close(s@, p as int, n as int),
        decreases s@.len() - q,
    {
        if s[q] == '"' && hashes_follow(s, q + 1, n) {
            return Ok(q);
        }
        q = q + 1;
    }
    Err(String::from_str("unterminated string literal"))
}

fn string_lit(s: &Vec<char>, i: usize) -> (r: Result<(String, usize), String>)
    requires
        i <= s@.len(),
    ensures
        text_view(r) == string_spec(s@, i as int),
        r matches Ok((_, n)) ==> i < n <= s@.len(),
{
    let j = skip_ws_at(s, i);
    if j < s.len() && s[j] == 'r' {
        let h = hashes_end_at(s, j + 1);
        if !(h < s.len() && s[h] == '"') {
            return Err(String::from_str("expected string literal"));
        }
        let n = h - (j + 1);
        let p = match raw_close_at(s, h + 1, n) {
            Err(e) => return Err(e),
            Ok(x) => x,
        };
        proof {
            lemma_raw_close(s@, h + 1, n as int);
        }
        return Ok((text_between(s, h + 1, p), p + 1 + n));
    }
    if !(j < s.len() && s[j] == '"') {
        return Err(String::from_str("expected string literal"));
    }
    let mut acc = String::new();
    let mut k = j + 1;
    while k < s.len()
        invariant
            j < k <= s@.len(),
            i <= j,
            s@[j as int] == '"',
            string_body(s@, k as int, acc@) == string_body(s@, j + 1, Seq::empty()),
            string_spec(s@, i as int) == string_body(s@, j + 1, Seq::empty()),
        decreases s@.len() - k,
    {
        let c = s[k];
        if c == '"' {
            return Ok((acc, k + 1));
        } else if c == '\\' {
            if k + 1 >= s.len() {
                return Err(String::from_str("unterminated string literal"));
            }
            let e = s[k + 1];
            if e == '\n' {
                k = skip_continuation_at(s, k + 2);
            } else if e == 'x' {
                if s.len() - k > 3 {
                    match (hex_digit(s[k + 2]), hex_digit(s[k + 3])) {
                        (Some(h1), Some(h2)) => {
                            if h1 <= 7 {
                                match char_from_u32(h1 * 16 + h2) {
                                    Some(ch) => {
                                        push_char(&mut acc, ch);
                                        k = k + 4;
                                    },
                                    None => {
                                        return Err(String::from_str("invalid escape in string literal"));
                                    },
                                }
                            } else {
                                return Err(String::from_str("invalid escape in string literal"));
                            }
                        },
                        _ => {
                            return Err(String::from_str("invalid escape in string literal"));
                        },
                    }
                } else {
                    return Err(String::from_str("invalid escape in string literal"));
                }
            } else if e == 'u' {
                if !(k + 2 < s.len() && s[k + 2] == '{') {
                    return Err(String::from_str("invalid unicode escape in string literal"));
                }
                let (v, end) = match unicode_escape_at(s, k + 3) {
                    Err(m) => return Err(m),
                    Ok(x) => x,
                };
                proof {
                    lemma_unicode_digits_ge(s@, k + 3, 0, 0);
                }
                match char_from_u32(v) {
                    Some(ch) => {
                        push_char(&mut acc, ch);
                        k = end;
                    },
                    None => {
                        return Err(String::from_str("invalid unicode escape in string literal"));
                    },
                }
            } else {
                match escape_of(e) {
                    Some(d) => {
                        push_char(&mut acc, d);
                        k = k + 2;
                    },
                    None => {
                        return Err(String::from_str("unsupported escape in string literal"));
                    },
                }
            }
        } else {
            push_char(&mut acc, c);
            k = k + 1;
        }
    }
    Err(String::from_str("unterminated string literal"))
}

fn registry_at(s: &Vec<char>, i: usize) -> (r: Result<(WidgetSpec, usize), String>)
    requires
        i <= s@.len(),
    ensures
        parse_view(r) == registry_spec(s@, i as int),
        r matches Ok((_, n)) ==> i < n <= s@.len(),
{
    let (path, a) = match string_lit(s, i) {
        Err(e) => return Err(e),
        Ok(x) => x,
    };
    let b = match arrow(s, a) {
        Err(e) => return Err(e),
        Ok(x) => x,
    };
    let (name, c) = match ident(s, b) {
        Err(e) => return Err(e),
        Ok(x) => x,
    };
    let d = match punct(s, c, '}') {
        Err(e) => return Err(e),
        Ok(x) => x,
    };
    Ok((WidgetSpec::Registry { file_path: path, registry_enum: name }, d))
}

fn text_field_at(s: &Vec<char>, i: usize) -> (r: Result<(WidgetSpec, usize), String>)
    requires
        i <= s@.len(),
    ensures
        parse_view(r) == text_field_spec(s@, i as int),
        r matches Ok((_, n)) ==> i < n <= s@.len(),
{
    let (p, a) = match string_lit(s, i) {
        Err(e) => return Err(e),
        Ok(x) => x,
    };
    let b = match punct(s, a, '}') {
        Err(e) => return Err(e),
        Ok(x) => x,
    };
    Ok((WidgetSpec::Text { placeholder: p }, b))
}

fn numeric_at(s: &Vec<char>, i: usize) -> (r: Result<(WidgetSpec, usize), String>)
    requires
        i <= s@.len(),
    ensures
        parse_view(r) == numeric_spec(s@, i as int),
        r matches Ok((_, n)) ==> i < n <= s@.len(),
{
    let o = skip_ws_at(s, i);
    if o < s.len() && s[o] == '}' {
        return Ok((WidgetSpec::Numeric { min: None, max: None }, o + 1));
    }
    let (min, a) = match number(s, i) {
        Err(e) => return Err(e),
        Ok(x) => x,
    };
    let a2 = skip_ws_at(s, a);
    if a2 < s.len() && s[a2] == ',' {
        let b = a2 + 1;
        let b2 = skip_ws_at(s, b);
        if b2 < s.len() && s[b2] == '}' {
            return Ok((WidgetSpec::Numeric { min: Some(min), max: None }, b2 + 1));
        }
        let (max, c) = match number(s, b) {
            Err(e) => return Err(e),
            Ok(x) => x,
        };
        let d = match punct(s, c, '}') {
            Err(e) => return Err(e),
            Ok(x) => x,
        };
        Ok((WidgetSpec::Numeric { min: Some(min), max: Some(max) }, d))
    } else {
        let d = match punct(s, a, '}') {
            Err(e) => return Err(e),
            Ok(x) => x,
        };
        Ok((WidgetSpec::Numeric { min: Some(min), max: None }, d))
    }
}

fn slider_at(s: &Vec<char>, i: usize) -> (r: Result<(WidgetSpec, usize), String>)
    requires
        i <= s@.len(),
    ensures
        parse_view(r) == slider_spec(s@, i as int),
        r matches Ok((_, n)) ==> i < n <= s@.len(),
{
    let o0 = skip_ws_at(s, i);
    if !(o0 < s.len() && s[o0] == '{') {
        return Err(String::from_str("expected curly braces"));
    }
    let o = o0 + 1;
    let (min, a) = match number(s, o) {
        Err(e) => return Err(e),
        Ok(x) => x,
    };
    let b = match punct(s, a, ',') {
        Err(e) => return Err(e),
        Ok(x) => x,
    };
    let (max, c) = match number(s, b) {
        Err(e) => return Err(e),
        Ok(x) => x,
    };
    let c2 = skip_ws_at(s, c);
    if c2 < s.len() && s[c2] == ',' {
        let d = c2 + 1;
        let d2 = skip_ws_at(s, d);
        if d2 < s.len() && s[d2] == '}' {
            return Ok((WidgetSpec::Slider { min, max, step: String::from_str("1") }, d2 + 1));
        }
        let (step, f) = match number(s, d) {
            Err(e) => return Err(e),
            Ok(x) => x,
        };
        let g = match punct(s, f, '}') {
            Err(e) => return Err(e),
            Ok(x) => x,
        };
        Ok((WidgetSpec::Slider { min, max, step }, g))
    } else {
        let g = match punct(s, c, '}') {
            Err(e) => return Err(e),
            Ok(x) => x,
        };
        Ok((WidgetSpec::Slider { min, max, step: String::from_str("1") }, g))
    }
}

fn widget_at(s: &Vec<char>, i: usize) -> (r: Result<(WidgetSpec, usize), String>)
    requires
        i <= s@.len(),
    ensures
        parse_view(r) == widget_spec(s@, i as int),
        r matches Ok((_, n)) ==> i < n <= s@.len(),
    decreases s@.len() - i,
{
    let (name, j) = match ident(s, i) {
        Err(e) => return Err(e),
        Ok(x) => x,
    };
    let n = name.as_str();
    if text_eq(n, "SliderField") {
        return slider_at(s, j);
    }
    if text_eq(n, "Wrapper") {
        let o0 = skip_ws_at(s, j);
        if !(o0 < s.len() && s[o0] == '(') {
            return Err(String::from_str("Can`t find wrapper params. Usage: Wrapper(WrapperType, InnerWidget)"));
        }
        let o = o0 + 1;
        let (wrapper, a) = match ident(s, o) {
            Err(e) => return Err(e),
            Ok(x) => x,
        };
        let a2 = skip_ws_at(s, a);
        let b = if a2 < s.len() && s[a2] == ',' {
            a2 + 1
        } else {
            a
        };
        let (inner, c) = match widget_at(s, b) {
            Err(e) => return Err(e),
            Ok(x) => x,
        };
        let d = match punct(s, c, ')') {
            Err(e) => return Err(e),
            Ok(x) => x,
        };
        return Ok((WidgetSpec::Wrapper { wrapper, inner: Box::new(inner) }, d));
    }
    if text_eq(n, "WrapperVec") {
        let o0 = skip_ws_at(s, j);
        if !(o0 < s.len() && s[o0] == '(') {
            return Err(String::from_str("Can`t find wrapper vec params. Usage: WrapperVec(InnerWidget)"));
        }
        let o = o0 + 1;
        let (inner, c) = match widget_at(s, o) {
            Err(e) => return Err(e),
            Ok(x) => x,
        };
        let d = match punct(s, c, ')') {
            Err(e) => return Err(e),
            Ok(x) => x,
        };
        return Ok((WidgetSpec::WrapperVec { inner: Box::new(inner) }, d));
    }
    let is_registry = text_eq(n, "Registry");
    let is_numeric = text_eq(n, "NumericField");
    let is_text = text_eq(n, "TextField");
    let is_bool = text_eq(n, "BoolField");
    if is_registry || is_numeric || is_text || is_bool {
        let o0 = skip_ws_at(s, j);
        if !(o0 < s.len() && s[o0] == '{') {
            return Err(String::from_str("Can`t find config"));
        }
        let o = o0 + 1;
        if is_registry {
            registry_at(s, o)
        } else if is_numeric {
            numeric_at(s, o)
        } else if is_text {
            text_field_at(s, o)
        } else {
            let d = match punct(s, o, '}') {
                Err(e) => return Err(e),
                Ok(x) => x,
            };
            Ok((WidgetSpec::Bool, d))
        }
    } else {
        let mut e = String::from_str("Unknown widget_type type: ");
        e.append(n);
        Err(e)
    }
}

/// Read the widget written at the start of `text`: the widget and the position (in
/// characters) after its last token, or the error that stops the reading.
pub fn parse_widget(text: &str) -> (r: Result<(WidgetSpec, usize), String>)
    ensures
        parse_view(r) == widget_grammar(text@),
{
    let s = chars_of(text);
    widget_at(&s, 0)
}

} // verus!
