use vstd::prelude::*;
use vstd::string::StrSliceExecFns;

use crate::error::{Error, ErrorView};
use crate::text::{lines_from, scan_line, spec_lines, split_ws, str_eq, tokenize};
use crate::utils::opt_view;

verus! {

/// The recognized section lines of a source text, in source order: the
/// single `common` line, and the raw `page`, `char` and `kerning` lines.
pub(crate) struct Sections<'a> {
    pub common_section: &'a str,
    pub page_sections: Vec<&'a str>,
    pub char_sections: Vec<&'a str>,
    pub kerning_sections: Vec<&'a str>,
}

/// The section tag of a line: its first whitespace-separated token.
pub open spec fn line_tag(line: Seq<char>) -> Option<Seq<char>> {
    let toks = split_ws(line);
    if toks.len() > 0 {
        Some(toks[0])
    } else {
        None
    }
}

/// Spec-level image of what the splitter accumulates.
pub ghost struct SectionsView {
    pub common: Option<Seq<char>>,
    pub pages: Seq<Seq<char>>,
    pub chars: Seq<Seq<char>>,
    pub kernings: Seq<Seq<char>>,
}

pub open spec fn sections_empty() -> SectionsView {
    SectionsView {
        common: None,
        pages: Seq::empty(),
        chars: Seq::empty(),
        kernings: Seq::empty(),
    }
}

/// One line folded into the accumulated sections: a recognized tag files the
/// line under its section, a later `common` line replacing an earlier one;
/// lines with unrecognized or absent tags are ignored.
pub open spec fn sections_step(st: SectionsView, line: Seq<char>) -> SectionsView {
    match line_tag(line) {
        None => st,
        Some(tag) => if tag == "common"@ {
            SectionsView { common: Some(line), ..st }
        } else if tag == "page"@ {
            SectionsView { pages: st.pages.push(line), ..st }
        } else if tag == "char"@ {
            SectionsView { chars: st.chars.push(line), ..st }
        } else if tag == "kerning"@ {
            SectionsView { kernings: st.kernings.push(line), ..st }
        } else {
            st
        },
    }
}

pub open spec fn sections_fold(st: SectionsView, lines: Seq<Seq<char>>) -> SectionsView
    decreases lines.len(),
{
    if lines.len() == 0 {
        st
    } else {
        sections_fold(sections_step(st, lines[0]), lines.drop_first())
    }
}

/// The sections of a whole source text.
pub open spec fn spec_sections(src: Seq<char>) -> SectionsView {
    sections_fold(sections_empty(), spec_lines(src))
}

impl<'a> Sections<'a> {
    /// Partitions a source text into its recognized section lines. Fails
    /// exactly when no `common` line occurs.
    pub(crate) fn new(source: &'a str) -> (r: Result<Sections<'a>, Error>)
        ensures
            match r {
                Ok(s) => {
                    &&& spec_sections(source@).common == Some(s.common_section@)
                    &&& s.page_sections.deep_view() == spec_sections(source@).pages
                    &&& s.char_sections.deep_view() == spec_sections(source@).chars
                    &&& s.kerning_sections.deep_view() == spec_sections(source@).kernings
                },
                Err(e) => spec_sections(source@).common is None && e@
                    == ErrorView::MissingCommonSection,
            },
    {
        let mut common: Option<&'a str> = None;
        let mut pages: Vec<&'a str> = Vec::new();
        let mut chars: Vec<&'a str> = Vec::new();
        let mut kernings: Vec<&'a str> = Vec::new();
        let mut pos: usize = 0;
        proof {
            assert(pages.deep_view() =~= Seq::<Seq<char>>::empty());
            assert(chars.deep_view() =~= Seq::<Seq<char>>::empty());
            assert(kernings.deep_view() =~= Seq::<Seq<char>>::empty());
        }
        loop
            invariant
                pos <= source@.len(),
                sections_fold(
                    SectionsView {
                        common: opt_view(common),
                        pages: pages.deep_view(),
                        chars: chars.deep_view(),
                        kernings: kernings.deep_view(),
                    },
                    lines_from(source@, pos as int),
                ) == spec_sections(source@),
            ensures
                pos == source@.len(),
            decreases source@.len() - pos,
        {
            let ghost prev = SectionsView {
                common: opt_view(common),
                pages: pages.deep_view(),
                chars: chars.deep_view(),
                kernings: kernings.deep_view(),
            };
            match scan_line(source, pos) {
                None => {
                    break ;
                },
                Some((start, end, next)) => {
                    let line = source.substring_char(start, end);
                    let ghost rest = lines_from(source@, next as int);
                    proof {
                        assert(lines_from(source@, pos as int) == seq![line@] + rest);
                        assert((seq![line@] + rest)[0] == line@);
                        assert((seq![line@] + rest).drop_first() =~= rest);
                    }
                    let toks = tokenize(line);
                    if toks.len() > 0 {
                        let tag = toks[0];
                        proof {
                            assert(toks@[0]@ == toks.deep_view()[0]);
                        }
                        if str_eq(tag, "common") {
                            common = Some(line);
                        } else if str_eq(tag, "page") {
                            let ghost old_pages = pages.deep_view();
                            pages.push(line);
                            proof {
                                assert(pages.deep_view() =~= old_pages.push(line@));
                            }
                        } else if str_eq(tag, "char") {
                            let ghost old_chars = chars.deep_view();
                            chars.push(line);
                            proof {
                                assert(chars.deep_view() =~= old_chars.push(line@));
                            }
                        } else if str_eq(tag, "kerning") {
                            let ghost old_kernings = kernings.deep_view();
                            kernings.push(line);
                            proof {
                                assert(kernings.deep_view() =~= old_kernings.push(line@));
                            }
                        }
                    }
                    proof {
                        let cur = SectionsView {
                            common: opt_view(common),
                            pages: pages.deep_view(),
                            chars: chars.deep_view(),
                            kernings: kernings.deep_view(),
                        };
                        assert(cur == sections_step(prev, line@));
                    }
                    pos = next;
                },
            }
        }
        assert(lines_from(source@, pos as int) =~= Seq::<Seq<char>>::empty());
        match common {
            None => Err(Error::MissingCommonSection),
            Some(c) => Ok(
                Sections {
                    common_section: c,
                    page_sections: pages,
                    char_sections: chars,
                    kerning_sections: kernings,
                },
            ),
        }
    }
}

} // verus!
