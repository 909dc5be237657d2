use vstd::prelude::*;

use crate::config_parse_error::{config_fault, ConfigErrorView, ConfigParseError};
use crate::text::split_ws;
use crate::utils::{extract_i32_component, extract_u32_component, nth_tok, spec_extract_i32,
    spec_extract_u32, tok_at};

verus! {

/// An adjustment of the horizontal advance to apply when one specific
/// character immediately follows another. Read from a `kerning` line.
#[derive(Clone, Copy, Debug, PartialEq, Eq, Structural)]
pub struct KerningValue {
    pub first_char_id: u32,
    pub second_char_id: u32,
    pub value: i32,
}

/// What reading a `kerning` line yields: the two character ids and the
/// adjustment, taken positionally from the tokens after the tag word.
pub open spec fn spec_parse_kerning(line: Seq<char>) -> Result<KerningValue, ConfigErrorView> {
    let toks = split_ws(line);
    if spec_extract_u32(tok_at(toks, 1)) is None {
        Err(config_fault("kerning"@, "first"@))
    } else if spec_extract_u32(tok_at(toks, 2)) is None {
        Err(config_fault("kerning"@, "second"@))
    } else if spec_extract_i32(tok_at(toks, 3)) is None {
        Err(config_fault("kerning"@, "amount"@))
    } else {
        Ok(KerningValue {
            first_char_id: spec_extract_u32(tok_at(toks, 1))->Some_0,
            second_char_id: spec_extract_u32(tok_at(toks, 2))->Some_0,
            value: spec_extract_i32(tok_at(toks, 3))->Some_0,
        })
    }
}

impl KerningValue {
    /// Reads one `kerning` line of the description.
    pub fn new(line: &str) -> (r: Result<KerningValue, ConfigParseError>)
        ensures
            match r {
                Ok(k) => spec_parse_kerning(line@) == Ok::<KerningValue, ConfigErrorView>(k),
                Err(e) => spec_parse_kerning(line@) == Err::<KerningValue, ConfigErrorView>(e@),
            },
    {
        let toks = crate::text::tokenize(line);
        let first_char_id = match extract_u32_component(nth_tok(&toks, 1), "kerning", "first") {
            Ok(v) => v,
            Err(e) => return Err(e),
        };
        let second_char_id = match extract_u32_component(nth_tok(&toks, 2), "kerning", "second") {
            Ok(v) => v,
            Err(e) => return Err(e),
        };
        let value = match extract_i32_component(nth_tok(&toks, 3), "kerning", "amount") {
            Ok(v) => v,
            Err(e) => return Err(e),
        };
        Ok(KerningValue { first_char_id, second_char_id, value })
    }
}

} // verus!
