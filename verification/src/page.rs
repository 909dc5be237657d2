use vstd::prelude::*;

use crate::config_parse_error::{config_fault, ConfigErrorView, ConfigParseError};
use crate::text::split_ws;
use crate::utils::{extract_filename_component, extract_u32_component, nth_tok,
    spec_extract_filename, spec_extract_u32, tok_at};

verus! {

/// A reference to one external atlas image of the font. The image itself is
/// never loaded here.
#[derive(Clone, Debug, PartialEq, Eq)]
pub struct Page {
    pub id: u32,
    pub filename: String,
}

/// Spec-level image of a `Page`.
pub ghost struct PageView {
    pub id: u32,
    pub filename: Seq<char>,
}

impl View for Page {
    type V = PageView;

    open spec fn view(&self) -> PageView {
        PageView { id: self.id, filename: self.filename@ }
    }
}

impl DeepView for Page {
    type V = PageView;

    open spec fn deep_view(&self) -> PageView {
        self@
    }
}

/// What reading a `page` line yields: the numeric id and the quoted
/// filename, taken positionally from the tokens after the tag word.
pub open spec fn spec_parse_page(line: Seq<char>) -> Result<PageView, ConfigErrorView> {
    let toks = split_ws(line);
    if spec_extract_u32(tok_at(toks, 1)) is None {
        Err(config_fault("page"@, "id"@))
    } else if spec_extract_filename(tok_at(toks, 2)) is None {
        Err(config_fault("page"@, "file"@))
    } else {
        Ok(PageView {
            id: spec_extract_u32(tok_at(toks, 1))->Some_0,
            filename: spec_extract_filename(tok_at(toks, 2))->Some_0,
        })
    }
}

impl Page {
    /// Reads one `page` line of the description.
    pub fn new(line: &str) -> (r: Result<Page, ConfigParseError>)
        ensures
            match r {
                Ok(p) => spec_parse_page(line@) == Ok::<PageView, ConfigErrorView>(p@),
                Err(e) => spec_parse_page(line@) == Err::<PageView, ConfigErrorView>(e@),
            },
    {
        let toks = crate::text::tokenize(line);
        let id = match extract_u32_component(nth_tok(&toks, 1), "page", "id") {
            Ok(v) => v,
            Err(e) => return Err(e),
        };
        let filename = match extract_filename_component(nth_tok(&toks, 2), "page", "file") {
            Ok(v) => v,
            Err(e) => return Err(e),
        };
        Ok(Page { id, filename })
    }
}

} // verus!
