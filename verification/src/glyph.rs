use vstd::prelude::*;

use crate::config_parse_error::{config_fault, ConfigErrorView, ConfigParseError};
use crate::text::split_ws;
use crate::utils::{extract_i32_component, extract_u32_component, nth_tok, spec_extract_i32,
    spec_extract_u32, tok_at};

verus! {

/// One renderable glyph: the atlas location and advance metrics of a single
/// code point. Read from a `char` line of the description.
#[derive(Clone, Copy, Debug, PartialEq, Eq, Structural)]
pub struct Char {
    pub id: u32,
    pub x: u32,
    pub y: u32,
    pub width: u32,
    pub height: u32,
    pub xoffset: i32,
    pub yoffset: i32,
    pub xadvance: i32,
    pub page_index: u32,
}

/// What reading a `char` line yields: its fields are taken positionally from
/// the whitespace-split tokens after the tag word, and the first missing or
/// malformed field is the reported fault.
pub open spec fn spec_parse_char(line: Seq<char>) -> Result<Char, ConfigErrorView> {
    let toks = split_ws(line);
    if spec_extract_u32(tok_at(toks, 1)) is None {
        Err(config_fault("char"@, "id"@))
    } else if spec_extract_u32(tok_at(toks, 2)) is None {
        Err(config_fault("char"@, "x"@))
    } else if spec_extract_u32(tok_at(toks, 3)) is None {
        Err(config_fault("char"@, "y"@))
    } else if spec_extract_u32(tok_at(toks, 4)) is None {
        Err(config_fault("char"@, "width"@))
    } else if spec_extract_u32(tok_at(toks, 5)) is None {
        Err(config_fault("char"@, "height"@))
    } else if spec_extract_i32(tok_at(toks, 6)) is None {
        Err(config_fault("char"@, "xoffset"@))
    } else if spec_extract_i32(tok_at(toks, 7)) is None {
        Err(config_fault("char"@, "yoffset"@))
    } else if spec_extract_i32(tok_at(toks, 8)) is None {
        Err(config_fault("char"@, "xadvance"@))
    } else if spec_extract_u32(tok_at(toks, 9)) is None {
        Err(config_fault("char"@, "page"@))
    } else {
        Ok(Char {
            id: spec_extract_u32(tok_at(toks, 1))->Some_0,
            x: spec_extract_u32(tok_at(toks, 2))->Some_0,
            y: spec_extract_u32(tok_at(toks, 3))->Some_0,
            width: spec_extract_u32(tok_at(toks, 4))->Some_0,
            height: spec_extract_u32(tok_at(toks, 5))->Some_0,
            xoffset: spec_extract_i32(tok_at(toks, 6))->Some_0,
            yoffset: spec_extract_i32(tok_at(toks, 7))->Some_0,
            xadvance: spec_extract_i32(tok_at(toks, 8))->Some_0,
            page_index: spec_extract_u32(tok_at(toks, 9))->Some_0,
        })
    }
}

impl Char {
    /// Reads one `char` line of the description.
    pub fn new(line: &str) -> (r: Result<Char, ConfigParseError>)
        ensures
            match r {
                Ok(c) => spec_parse_char(line@) == Ok::<Char, ConfigErrorView>(c),
                Err(e) => spec_parse_char(line@) == Err::<Char, ConfigErrorView>(e@),
            },
    {
        let toks = crate::text::tokenize(line);
        let id = match extract_u32_component(nth_tok(&toks, 1), "char", "id") {
            Ok(v) => v,
            Err(e) => return Err(e),
        };
        let x = match extract_u32_component(nth_tok(&toks, 2), "char", "x") {
            Ok(v) => v,
            Err(e) => return Err(e),
        };
        let y = match extract_u32_component(nth_tok(&toks, 3), "char", "y") {
            Ok(v) => v,
            Err(e) => return Err(e),
        };
        let width = match extract_u32_component(nth_tok(&toks, 4), "char", "width") {
            Ok(v) => v,
            Err(e) => return Err(e),
        };
        let height = match extract_u32_component(nth_tok(&toks, 5), "char", "height") {
            Ok(v) => v,
            Err(e) => return Err(e),
        };
        let xoffset = match extract_i32_component(nth_tok(&toks, 6), "char", "xoffset") {
            Ok(v) => v,
            Err(e) => return Err(e),
        };
        let yoffset = match extract_i32_component(nth_tok(&toks, 7), "char", "yoffset") {
            Ok(v) => v,
            Err(e) => return Err(e),
        };
        let xadvance = match extract_i32_component(nth_tok(&toks, 8), "char", "xadvance") {
            Ok(v) => v,
            Err(e) => return Err(e),
        };
        let page_index = match extract_u32_component(nth_tok(&toks, 9), "char", "page") {
            Ok(v) => v,
            Err(e) => return Err(e),
        };
        Ok(Char { id, x, y, width, height, xoffset, yoffset, xadvance, page_index })
    }
}

} // verus!
