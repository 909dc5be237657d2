use vstd::prelude::*;

verus! {

/// Where parsing of the font description failed: the section and the field
/// whose token was missing or could not be read as its numeric type.
#[derive(Clone, Debug, PartialEq, Eq)]
pub struct ConfigParseError {
    pub section_name: String,
    pub component_name: String,
}

/// Spec-level image of a `ConfigParseError`.
pub ghost struct ConfigErrorView {
    pub section_name: Seq<char>,
    pub component_name: Seq<char>,
}

impl View for ConfigParseError {
    type V = ConfigErrorView;

    open spec fn view(&self) -> ConfigErrorView {
        ConfigErrorView {
            section_name: self.section_name@,
            component_name: self.component_name@,
        }
    }
}

pub open spec fn config_fault(section: Seq<char>, component: Seq<char>) -> ConfigErrorView {
    ConfigErrorView { section_name: section, component_name: component }
}

impl ConfigParseError {
    pub fn new(section_name: &str, component_name: &str) -> (r: ConfigParseError)
        ensures
            r@ == config_fault(section_name@, component_name@),
    {
        ConfigParseError {
            section_name: section_name.to_owned(),
            component_name: component_name.to_owned(),
        }
    }

    /// The section the failing line belonged to.
    pub fn section_name(&self) -> (r: &str)
        ensures
            r@ == self@.section_name,
    {
        self.section_name.as_str()
    }

    /// The field whose token was missing or malformed.
    pub fn component_name(&self) -> (r: &str)
        ensures
            r@ == self@.component_name,
    {
        self.component_name.as_str()
    }
}

} // verus!
