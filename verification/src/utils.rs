use vstd::prelude::*;
use vstd::string::StrSliceExecFns;

use crate::config_parse_error::{config_fault, ConfigParseError};
use crate::numbers::{parse_i32_str, parse_u32_str, spec_parse_i32, spec_parse_u32};
use crate::text::find_from;

verus! {

/// Spec view of an optional token.
pub open spec fn opt_view(tok: Option<&str>) -> Option<Seq<char>> {
    match tok {
        Some(t) => Some(t@),
        None => None,
    }
}

/// The token at position `i`, when the line has that many.
pub open spec fn tok_at(toks: Seq<Seq<char>>, i: int) -> Option<Seq<char>> {
    if 0 <= i < toks.len() {
        Some(toks[i])
    } else {
        None
    }
}

/// The `value` part of a `key=value` token: the text after the first `=`;
/// a token without `=` has no value.
pub open spec fn spec_token_value(tok: Seq<char>) -> Option<Seq<char>> {
    let j = find_from(tok, 0, '=');
    if j >= tok.len() {
        None
    } else {
        Some(tok.subrange(j + 1, tok.len() as int))
    }
}

/// A `u32` field read from an optional `key=value` token: fails when the
/// token is absent, has no `=`, or its value is not a `u32` numeral.
pub open spec fn spec_extract_u32(tok: Option<Seq<char>>) -> Option<u32> {
    match tok {
        None => None,
        Some(t) => match spec_token_value(t) {
            None => None,
            Some(v) => spec_parse_u32(v),
        },
    }
}

/// An `i32` field read from an optional `key=value` token.
pub open spec fn spec_extract_i32(tok: Option<Seq<char>>) -> Option<i32> {
    match tok {
        None => None,
        Some(t) => match spec_token_value(t) {
            None => None,
            Some(v) => spec_parse_i32(v),
        },
    }
}

/// A quoted value with one pair of surrounding double quotes removed.
pub open spec fn spec_unquote(v: Seq<char>) -> Seq<char> {
    if v.len() >= 2 && v[0] == '"' && v[v.len() - 1] == '"' {
        v.subrange(1, v.len() - 1)
    } else {
        v
    }
}

/// A filename field read from an optional `file="name"` token.
pub open spec fn spec_extract_filename(tok: Option<Seq<char>>) -> Option<Seq<char>> {
    match tok {
        None => None,
        Some(t) => match spec_token_value(t) {
            None => None,
            Some(v) => Some(spec_unquote(v)),
        },
    }
}

/// The text after the first `=` of `tok`, when there is one.
fn token_value<'a>(tok: &'a str) -> (r: Option<&'a str>)
    ensures
        match r {
            None => spec_token_value(tok@) is None,
            Some(v) => spec_token_value(tok@) == Some(v@),
        },
{
    let n = tok.unicode_len();
    let mut j: usize = 0;
    while j < n && tok.get_char(j) != '='
        invariant
            n == tok@.len(),
            j <= n,
            find_from(tok@, 0, '=') == find_from(tok@, j as int, '='),
        decreases n - j,
    {
        j += 1;
    }
    assert(find_from(tok@, j as int, '=') == j);
    if j == n {
        None
    } else {
        Some(tok.substring_char(j + 1, n))
    }
}

/// The token at position `i` of a tokenized line, when present.
pub(crate) fn nth_tok<'a>(toks: &Vec<&'a str>, i: usize) -> (r: Option<&'a str>)
    ensures
        opt_view(r) == tok_at(toks.deep_view(), i as int),
{
    if i < toks.len() {
        assert(toks@[i as int]@ == toks.deep_view()[i as int]);
        Some(toks[i])
    } else {
        None
    }
}

/// Reads a `u32` field from an optional token; a missing token or an
/// unreadable value is reported against the given section and field names.
pub(crate) fn extract_u32_component(
    component: Option<&str>,
    section_name: &str,
    component_name: &str,
) -> (r: Result<u32, ConfigParseError>)
    ensures
        match r {
            Ok(v) => spec_extract_u32(opt_view(component)) == Some(v),
            Err(e) => spec_extract_u32(opt_view(component)) is None && e@ == config_fault(
                section_name@,
                component_name@,
            ),
        },
{
    match component {
        None => Err(ConfigParseError::new(section_name, component_name)),
        Some(tok) => match token_value(tok) {
            None => Err(ConfigParseError::new(section_name, component_name)),
            Some(v) => match parse_u32_str(v) {
                Some(x) => Ok(x),
                None => Err(ConfigParseError::new(section_name, component_name)),
            },
        },
    }
}

/// Reads an `i32` field from an optional token, reporting failures against
/// the given section and field names.
pub(crate) fn extract_i32_component(
    component: Option<&str>,
    section_name: &str,
    component_name: &str,
) -> (r: Result<i32, ConfigParseError>)
    ensures
        match r {
            Ok(v) => spec_extract_i32(opt_view(component)) == Some(v),
            Err(e) => spec_extract_i32(opt_view(component)) is None && e@ == config_fault(
                section_name@,
                component_name@,
            ),
        },
{
    match component {
        None => Err(ConfigParseError::new(section_name, component_name)),
        Some(tok) => match token_value(tok) {
            None => Err(ConfigParseError::new(section_name, component_name)),
            Some(v) => match parse_i32_str(v) {
                Some(x) => Ok(x),
                None => Err(ConfigParseError::new(section_name, component_name)),
            },
        },
    }
}

/// Reads a filename field from an optional token, reporting failures against
/// the given section and field names.
pub(crate) fn extract_filename_component(
    component: Option<&str>,
    section_name: &str,
    component_name: &str,
) -> (r: Result<String, ConfigParseError>)
    ensures
        match r {
            Ok(v) => spec_extract_filename(opt_view(component)) == Some(v@),
            Err(e) => spec_extract_filename(opt_view(component)) is None && e@ == config_fault(
                section_name@,
                component_name@,
            ),
        },
{
    match component {
        None => Err(ConfigParseError::new(section_name, component_name)),
        Some(tok) => match token_value(tok) {
            None => Err(ConfigParseError::new(section_name, component_name)),
            Some(v) => {
                let n = v.unicode_len();
                if n >= 2 && v.get_char(0) == '"' && v.get_char(n - 1) == '"' {
                    Ok(v.substring_char(1, n - 1).to_owned())
                } else {
                    Ok(v.to_owned())
                }
            },
        },
    }
}

} // verus!
