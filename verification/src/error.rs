use vstd::prelude::*;

use crate::config_parse_error::{ConfigErrorView, ConfigParseError};

verus! {

/// Why a font could not be built from its description.
#[derive(Clone, Debug, PartialEq, Eq)]
pub enum Error {
    /// The mandatory `common` line never occurred in the source.
    MissingCommonSection,
    /// A section line had a missing or malformed field.
    Parse(ConfigParseError),
}

/// Spec-level image of an `Error`.
pub ghost enum ErrorView {
    MissingCommonSection,
    Parse(ConfigErrorView),
}

impl View for Error {
    type V = ErrorView;

    open spec fn view(&self) -> ErrorView {
        match self {
            Error::MissingCommonSection => ErrorView::MissingCommonSection,
            Error::Parse(e) => ErrorView::Parse(e@),
        }
    }
}

} // verus!
