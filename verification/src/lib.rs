//! Parser and layout engine for bitmap font descriptions.
//!
//! A font is built from the textual description format emitted by bitmap
//! font generators (`common`, `page`, `char` and `kerning` lines), and can
//! then be queried for the atlas and screen rectangles needed to render each
//! character of a string, honoring kerning pairs, line breaks and a
//! configurable vertical orientation.
//!
//! The `common` metrics are read positionally, as the 2nd and 3rd
//! whitespace-split tokens of the line, not by key name: a generator that
//! reorders the fields of that line is not understood.

mod config_parse_error;
mod error;
mod glyph;
mod kerning_value;
mod numbers;
mod page;
mod rect;
mod sections;
mod text;
mod utils;

pub use crate::config_parse_error::ConfigParseError;
pub use crate::error::Error;
pub use crate::glyph::Char;
pub use crate::kerning_value::KerningValue;
pub use crate::page::Page;
pub use crate::rect::Rect;

use vstd::prelude::*;
use vstd::string::StrSliceExecFns;

use crate::config_parse_error::config_fault;
use crate::config_parse_error::ConfigErrorView;
use crate::error::ErrorView;
use crate::glyph::spec_parse_char;
use crate::kerning_value::spec_parse_kerning;
use crate::page::{spec_parse_page, PageView};
use crate::sections::{spec_sections, Sections};
use crate::text::{lines_from, spec_lines, split_ws, tokenize};
use crate::utils::{extract_u32_component, nth_tok, spec_extract_u32, tok_at};

verus! {

/// The rectangles needed to draw one character: where its pixels lie in the
/// atlas page, where its quad lies on screen, and which page to sample.
#[derive(Clone, Copy, Debug, PartialEq, Eq, Structural)]
pub struct CharPosition {
    pub page_rect: Rect,
    pub screen_rect: Rect,
    pub page_index: u32,
}

/// The direction in which the screen-space y coordinate grows.
#[derive(Clone, Copy, Debug, PartialEq, Eq, Structural)]
pub enum OrdinateOrientation {
    BottomToTop,
    TopToBottom,
}

/// Why one character of a query string could not be laid out. Yielded
/// inline in the position sequence; the sequence continues afterwards.
#[derive(Clone, Copy, Debug, PartialEq, Eq, Structural)]
pub enum CharError {
    /// The code point does not fit in a single UTF-16 code unit.
    UnsupportedCharacter(char),
    /// No glyph record of the font has the code point's id.
    MissingCharacter(char),
}

/// A bitmap font: the metrics of its `common` line, its glyph records,
/// kerning pairs and atlas pages, and the vertical orientation chosen at
/// construction. Immutable once built.
#[derive(Clone, Debug)]
pub struct BMFont {
    base_height: u32,
    line_height: u32,
    characters: Vec<Char>,
    kerning_values: Vec<KerningValue>,
    pages: Vec<Page>,
    ordinate_orientation: OrdinateOrientation,
}

/// Spec-level image of a font.
pub ghost struct FontView {
    pub base_height: u32,
    pub line_height: u32,
    pub characters: Seq<Char>,
    pub kerning_values: Seq<KerningValue>,
    pub pages: Seq<PageView>,
    pub ordinate_orientation: OrdinateOrientation,
}

impl View for BMFont {
    type V = FontView;

    closed spec fn view(&self) -> FontView {
        FontView {
            base_height: self.base_height,
            line_height: self.line_height,
            characters: self.characters@,
            kerning_values: self.kerning_values@,
            pages: self.pages.deep_view(),
            ordinate_orientation: self.ordinate_orientation,
        }
    }
}

/// The page records parsed from the `page` lines at or after index `i`,
/// fail-fast on the first bad line.
pub open spec fn parse_pages_from(lines: Seq<Seq<char>>, i: int) -> Result<
    Seq<PageView>,
    ConfigErrorView,
>
    decreases lines.len() - i,
{
    if i >= lines.len() {
        Ok(Seq::empty())
    } else {
        match spec_parse_page(lines[i]) {
            Err(e) => Err(e),
            Ok(p) => match parse_pages_from(lines, i + 1) {
                Ok(rest) => Ok(seq![p] + rest),
                Err(e) => Err(e),
            },
        }
    }
}

/// The glyph records parsed from the `char` lines at or after index `i`.
pub open spec fn parse_chars_from(lines: Seq<Seq<char>>, i: int) -> Result<
    Seq<Char>,
    ConfigErrorView,
>
    decreases lines.len() - i,
{
    if i >= lines.len() {
        Ok(Seq::empty())
    } else {
        match spec_parse_char(lines[i]) {
            Err(e) => Err(e),
            Ok(c) => match parse_chars_from(lines, i + 1) {
                Ok(rest) => Ok(seq![c] + rest),
                Err(e) => Err(e),
            },
        }
    }
}

/// The kerning records parsed from the `kerning` lines at or after index `i`.
pub open spec fn parse_kernings_from(lines: Seq<Seq<char>>, i: int) -> Result<
    Seq<KerningValue>,
    ConfigErrorView,
>
    decreases lines.len() - i,
{
    if i >= lines.len() {
        Ok(Seq::empty())
    } else {
        match spec_parse_kerning(lines[i]) {
            Err(e) => Err(e),
            Ok(k) => match parse_kernings_from(lines, i + 1) {
                Ok(rest) => Ok(seq![k] + rest),
                Err(e) => Err(e),
            },
        }
    }
}

/// What building a font from a source text yields: the metrics taken from
/// the 2nd and 3rd whitespace-split tokens of the `common` line and every
/// section record parsed in order, or the first failure. The `common` line
/// must be present; pages are parsed before glyphs, glyphs before kernings.
pub open spec fn spec_parse_font(src: Seq<char>, orientation: OrdinateOrientation) -> Result<
    FontView,
    ErrorView,
> {
    let st = spec_sections(src);
    match st.common {
        None => Err(ErrorView::MissingCommonSection),
        Some(common) => {
            let toks = split_ws(common);
            if spec_extract_u32(tok_at(toks, 1)) is None {
                Err(ErrorView::Parse(config_fault("common"@, "lineHeight"@)))
            } else if spec_extract_u32(tok_at(toks, 2)) is None {
                Err(ErrorView::Parse(config_fault("common"@, "base"@)))
            } else {
                match parse_pages_from(st.pages, 0) {
                    Err(e) => Err(ErrorView::Parse(e)),
                    Ok(pages) => match parse_chars_from(st.chars, 0) {
                        Err(e) => Err(ErrorView::Parse(e)),
                        Ok(characters) => match parse_kernings_from(st.kernings, 0) {
                            Err(e) => Err(ErrorView::Parse(e)),
                            Ok(kerning_values) => Ok(
                                FontView {
                                    base_height: spec_extract_u32(tok_at(toks, 2))->Some_0,
                                    line_height: spec_extract_u32(tok_at(toks, 1))->Some_0,
                                    characters,
                                    kerning_values,
                                    pages,
                                    ordinate_orientation: orientation,
                                },
                            ),
                        },
                    },
                }
            }
        },
    }
}

/// Whether a code point fits in a single UTF-16 code unit, i.e. lies in the
/// Basic Multilingual Plane.
pub open spec fn single_unit_char(c: char) -> bool {
    (c as u32) < 0x10000
}

/// The first glyph record with the given id, when any: lookups take the
/// first match, so duplicate ids resolve deterministically.
pub open spec fn find_char_from(chars: Seq<Char>, id: u32, i: int) -> Option<Char>
    decreases chars.len() - i,
{
    if i >= chars.len() {
        None
    } else if chars[i].id == id {
        Some(chars[i])
    } else {
        find_char_from(chars, id, i + 1)
    }
}

pub open spec fn spec_find_char(chars: Seq<Char>, id: u32) -> Option<Char> {
    find_char_from(chars, id, 0)
}

/// The kerning adjustment applied when `second` immediately follows
/// `first`: the value of the first matching pair, or zero.
pub open spec fn find_kerning_from(ks: Seq<KerningValue>, first: u32, second: u32, i: int) -> i32
    decreases ks.len() - i,
{
    if i >= ks.len() {
        0
    } else if ks[i].first_char_id == first && ks[i].second_char_id == second {
        ks[i].value
    } else {
        find_kerning_from(ks, first, second, i + 1)
    }
}

pub open spec fn spec_find_kerning(ks: Seq<KerningValue>, first: u32, second: u32) -> i32 {
    find_kerning_from(ks, first, second, 0)
}

/// How one code point of a line resolves: to its glyph record, or to the
/// error yielded for it.
pub open spec fn spec_resolve(chars: Seq<Char>, c: char) -> Result<Char, CharError> {
    if !single_unit_char(c) {
        Err(CharError::UnsupportedCharacter(c))
    } else {
        match spec_find_char(chars, c as u32) {
            Some(ch) => Ok(ch),
            None => Err(CharError::MissingCharacter(c)),
        }
    }
}

/// A `u32` metric reinterpreted as the `i32` with the same bits, as the
/// narrowing casts of the layout arithmetic do.
pub open spec fn u32_wrap_i32(v: u32) -> i32 {
    if v <= i32::MAX as u32 {
        v as i32
    } else {
        (v - 0x1_0000_0000) as i32
    }
}

fn u32_to_i32_wrapping(v: u32) -> (r: i32)
    ensures
        r == u32_wrap_i32(v),
{
    if v <= 0x7FFF_FFFF {
        v as i32
    } else {
        ((v as i64) - 0x1_0000_0000i64) as i32
    }
}

/// The pen's vertical move at a line break: one line height in the direction
/// of the orientation, with wrap-around arithmetic.
pub open spec fn spec_line_shift(f: FontView, y: i32) -> i32 {
    match f.ordinate_orientation {
        OrdinateOrientation::TopToBottom => y.wrapping_add(u32_wrap_i32(f.line_height)),
        OrdinateOrientation::BottomToTop => y.wrapping_sub(u32_wrap_i32(f.line_height)),
    }
}

/// The rectangles produced for a resolved glyph: the atlas rectangle is the
/// glyph's own; the screen rectangle starts at the pen plus offsets and
/// kerning, its vertical placement depending on the orientation.
pub open spec fn spec_position(f: FontView, ch: Char, k: i32, x: i32, y: i32) -> CharPosition {
    let screen_x = x.wrapping_add(ch.xoffset).wrapping_add(k);
    let screen_y = match f.ordinate_orientation {
        OrdinateOrientation::BottomToTop => y.wrapping_add(u32_wrap_i32(f.base_height)).wrapping_sub(
            ch.yoffset,
        ).wrapping_sub(u32_wrap_i32(ch.height)),
        OrdinateOrientation::TopToBottom => y.wrapping_add(ch.yoffset),
    };
    CharPosition {
        page_rect: Rect {
            x: u32_wrap_i32(ch.x),
            y: u32_wrap_i32(ch.y),
            width: ch.width,
            height: ch.height,
        },
        screen_rect: Rect { x: screen_x, y: screen_y, width: ch.width, height: ch.height },
        page_index: ch.page_index,
    }
}

/// The pen's horizontal move after a glyph: its advance plus the kerning.
pub open spec fn spec_advance(x: i32, ch: Char, k: i32) -> i32 {
    x.wrapping_add(ch.xadvance.wrapping_add(k))
}

/// Every item the layout yields from a given state: `cur` is what remains of
/// the current line, `rest` the lines after it, the pen stands at (x, y) and
/// `prev` is the last resolved id, used for kerning. A line break resets x to
/// zero, shifts y by one line height and keeps `prev`; advancing onto an
/// empty line ends the sequence.
pub open spec fn layout_items(
    f: FontView,
    cur: Seq<char>,
    rest: Seq<Seq<char>>,
    x: i32,
    y: i32,
    prev: u32,
) -> Seq<Result<CharPosition, CharError>>
    decreases rest.len(), cur.len(),
{
    if cur.len() > 0 {
        match spec_resolve(f.characters, cur[0]) {
            Err(e) => seq![Err(e)] + layout_items(f, cur.drop_first(), rest, x, y, prev),
            Ok(ch) => {
                let k = spec_find_kerning(f.kerning_values, prev, ch.id);
                seq![Ok(spec_position(f, ch, k, x, y))] + layout_items(
                    f,
                    cur.drop_first(),
                    rest,
                    spec_advance(x, ch, k),
                    y,
                    ch.id,
                )
            },
        }
    } else if rest.len() == 0 {
        Seq::empty()
    } else if rest[0].len() == 0 {
        Seq::empty()
    } else {
        layout_items(f, rest[0], rest.drop_first(), 0, spec_line_shift(f, y), prev)
    }
}

/// Every item `char_positions` yields for a text: its lines laid out from
/// the origin, the pen starting before the first character with no previous
/// id.
pub open spec fn spec_char_positions(f: FontView, text: Seq<char>) -> Seq<
    Result<CharPosition, CharError>,
> {
    let ls = spec_lines(text);
    if ls.len() == 0 {
        Seq::empty()
    } else {
        layout_items(f, ls[0], ls.drop_first(), 0, 0, 0)
    }
}

impl BMFont {
    /// Builds a font from the text of its description and a choice of
    /// vertical orientation. Fails atomically on a missing `common` line or
    /// on the first unreadable field of any recognized section line.
    #[verifier::loop_isolation(false)]
    pub fn new(source: &str, ordinate_orientation: OrdinateOrientation) -> (r: Result<
        BMFont,
        Error,
    >)
        ensures
            match r {
                Ok(f) => spec_parse_font(source@, ordinate_orientation) == Ok::<
                    FontView,
                    ErrorView,
                >(f@),
                Err(e) => spec_parse_font(source@, ordinate_orientation) == Err::<
                    FontView,
                    ErrorView,
                >(e@),
            },
    {
        let sections = match Sections::new(source) {
            Ok(s) => s,
            Err(e) => {
                return Err(e);
            },
        };
        let toks = tokenize(sections.common_section);
        let line_height = match extract_u32_component(nth_tok(&toks, 1), "common", "lineHeight") {
            Ok(v) => v,
            Err(e) => {
                return Err(Error::Parse(e));
            },
        };
        let base_height = match extract_u32_component(nth_tok(&toks, 2), "common", "base") {
            Ok(v) => v,
            Err(e) => {
                return Err(Error::Parse(e));
            },
        };

        let ghost plines = sections.page_sections.deep_view();
        let mut pages: Vec<Page> = Vec::new();
        proof {
            assert(pages.deep_view() =~= Seq::<PageView>::empty());
        }
        let mut i: usize = 0;
        while i < sections.page_sections.len()
            invariant
                i <= plines.len(),
                plines == sections.page_sections.deep_view(),
                match parse_pages_from(plines, i as int) {
                    Ok(rest) => parse_pages_from(plines, 0) == Ok::<_, ConfigErrorView>(
                        pages.deep_view() + rest,
                    ),
                    Err(e) => parse_pages_from(plines, 0) == Err::<Seq<PageView>, _>(e),
                },
            decreases plines.len() - i,
        {
            let line = sections.page_sections[i];
            proof {
                assert(line@ == plines[i as int]);
            }
            let ghost prev = pages.deep_view();
            match Page::new(line) {
                Ok(p) => {
                    pages.push(p);
                    proof {
                        assert(pages.deep_view() =~= prev.push(p@));
                        assert(prev.push(p@) + parse_pages_from(plines, i + 1)->Ok_0 =~= prev + (
                        seq![p@] + parse_pages_from(plines, i + 1)->Ok_0));
                    }
                },
                Err(e) => {
                    return Err(Error::Parse(e));
                },
            }
            i += 1;
        }
        proof {
            assert(pages.deep_view() + Seq::<PageView>::empty() =~= pages.deep_view());
        }

        let ghost clines = sections.char_sections.deep_view();
        let mut characters: Vec<Char> = Vec::new();
        proof {
            assert(characters@ =~= Seq::<Char>::empty());
        }
        let mut i: usize = 0;
        while i < sections.char_sections.len()
            invariant
                i <= clines.len(),
                clines == sections.char_sections.deep_view(),
                match parse_chars_from(clines, i as int) {
                    Ok(rest) => parse_chars_from(clines, 0) == Ok::<_, ConfigErrorView>(
                        characters@ + rest,
                    ),
                    Err(e) => parse_chars_from(clines, 0) == Err::<Seq<Char>, _>(e),
                },
            decreases clines.len() - i,
        {
            let line = sections.char_sections[i];
            proof {
                assert(line@ == clines[i as int]);
            }
            let ghost prev = characters@;
            match Char::new(line) {
                Ok(c) => {
                    characters.push(c);
                    proof {
                        assert(prev.push(c) + parse_chars_from(clines, i + 1)->Ok_0 =~= prev + (
                        seq![c] + parse_chars_from(clines, i + 1)->Ok_0));
                    }
                },
                Err(e) => {
                    return Err(Error::Parse(e));
                },
            }
            i += 1;
        }
        proof {
            assert(characters@ + Seq::<Char>::empty() =~= characters@);
        }

        let ghost klines = sections.kerning_sections.deep_view();
        let mut kerning_values: Vec<KerningValue> = Vec::new();
        proof {
            assert(kerning_values@ =~= Seq::<KerningValue>::empty());
        }
        let mut i: usize = 0;
        while i < sections.kerning_sections.len()
            invariant
                i <= klines.len(),
                klines == sections.kerning_sections.deep_view(),
                match parse_kernings_from(klines, i as int) {
                    Ok(rest) => parse_kernings_from(klines, 0) == Ok::<_, ConfigErrorView>(
                        kerning_values@ + rest,
                    ),
                    Err(e) => parse_kernings_from(klines, 0) == Err::<Seq<KerningValue>, _>(e),
                },
            decreases klines.len() - i,
        {
            let line = sections.kerning_sections[i];
            proof {
                assert(line@ == klines[i as int]);
            }
            let ghost prev = kerning_values@;
            match KerningValue::new(line) {
                Ok(k) => {
                    kerning_values.push(k);
                    proof {
                        assert(prev.push(k) + parse_kernings_from(klines, i + 1)->Ok_0 =~= prev + (
                        seq![k] + parse_kernings_from(klines, i + 1)->Ok_0));
                    }
                },
                Err(e) => {
                    return Err(Error::Parse(e));
                },
            }
            i += 1;
        }
        proof {
            assert(kerning_values@ + Seq::<KerningValue>::empty() =~= kerning_values@);
        }

        Ok(
            BMFont {
                base_height,
                line_height,
                characters,
                kerning_values,
                pages,
                ordinate_orientation,
            },
        )
    }

    /// Returns the height of an `EM` in pixels.
    pub fn base_height(&self) -> (r: u32)
        ensures
            r == self@.base_height,
    {
        self.base_height
    }

    /// Returns the vertical distance between two lines of text.
    pub fn line_height(&self) -> (r: u32)
        ensures
            r == self@.line_height,
    {
        self.line_height
    }

    /// The atlas page records of the font, in source order.
    pub fn pages(&self) -> (r: &[Page])
        ensures
            r.deep_view() == self@.pages,
    {
        let r = self.pages.as_slice();
        proof {
            assert(r.deep_view() =~= self.pages.deep_view());
        }
        r
    }

    /// Begins laying out `string`: the returned cursor yields one rectangle
    /// pair, or one error, per character, as given by `spec_char_positions`.
    pub fn char_positions<'s, 'f>(&'f self, string: &'s str) -> (r: CharPositions<'s, 'f>)
        ensures
            r.wf(),
            r.remaining() == spec_char_positions(self@, string@),
    {
        CharPositions::new(string, self)
    }

    /// The kerning adjustment between two ids: the first matching pair wins,
    /// absence means zero.
    fn find_kerning_value(&self, first_char_id: u32, second_char_id: u32) -> (r: i32)
        ensures
            r == spec_find_kerning(self@.kerning_values, first_char_id, second_char_id),
    {
        let n = self.kerning_values.len();
        let mut i: usize = 0;
        while i < n
            invariant
                n == self.kerning_values@.len(),
                i <= n,
                find_kerning_from(self.kerning_values@, first_char_id, second_char_id, 0)
                    == find_kerning_from(self.kerning_values@, first_char_id, second_char_id,
                i as int),
            decreases n - i,
        {
            let k = self.kerning_values[i];
            if k.first_char_id == first_char_id && k.second_char_id == second_char_id {
                return k.value;
            }
            i += 1;
        }
        0
    }
}

/// The lines of a borrowed string, resolved against the glyph table of a
/// borrowed font: the outermost stage of the layout pipeline.
pub struct TextLines<'s, 'f> {
    all_chars: &'f Vec<Char>,
    text: &'s str,
    pos: usize,
}

impl<'s, 'f> TextLines<'s, 'f> {
    pub closed spec fn wf(&self) -> bool {
        self.pos <= self.text@.len()
    }

    /// The glyph table lines are resolved against.
    pub closed spec fn chars(&self) -> Seq<Char> {
        self.all_chars@
    }

    /// The lines not yet handed out.
    pub closed spec fn remaining_lines(&self) -> Seq<Seq<char>> {
        lines_from(self.text@, self.pos as int)
    }

    fn new(string: &'s str, all_chars: &'f Vec<Char>) -> (r: Self)
        ensures
            r.wf(),
            r.chars() == all_chars@,
            r.remaining_lines() == spec_lines(string@),
    {
        TextLines { all_chars, text: string, pos: 0 }
    }

    fn next(&mut self) -> (r: Option<TextLine<'s, 'f>>)
        requires
            old(self).wf(),
        ensures
            final(self).wf(),
            final(self).chars() == old(self).chars(),
            match r {
                None => {
                    &&& old(self).remaining_lines().len() == 0
                    &&& final(self).remaining_lines().len() == 0
                },
                Some(line) => {
                    &&& old(self).remaining_lines().len() > 0
                    &&& line.wf()
                    &&& line.chars() == old(self).chars()
                    &&& line.remaining() == old(self).remaining_lines()[0]
                    &&& final(self).remaining_lines() == old(self).remaining_lines().drop_first()
                },
            },
    {
        match crate::text::scan_line(self.text, self.pos) {
            None => None,
            Some((start, end, next)) => {
                let ghost rest = lines_from(self.text@, next as int);
                proof {
                    assert(lines_from(self.text@, self.pos as int) == seq![
                        crate::text::line_at(self.text@, self.pos as int),
                    ] + rest);
                    assert((seq![crate::text::line_at(self.text@, self.pos as int)] + rest)[0]
                        == crate::text::line_at(self.text@, self.pos as int));
                    assert((seq![crate::text::line_at(self.text@, self.pos as int)]
                        + rest).drop_first() =~= rest);
                }
                let substring = self.text.substring_char(start, end);
                let line = TextLine::new(substring, self.all_chars);
                self.pos = next;
                Some(line)
            },
        }
    }
}

/// One line of the query string, resolved code point by code point: the
/// middle stage of the layout pipeline.
pub struct TextLine<'s, 'f> {
    all_chars: &'f Vec<Char>,
    line: &'s str,
    cursor: usize,
}

impl<'s, 'f> TextLine<'s, 'f> {
    pub closed spec fn wf(&self) -> bool {
        self.cursor <= self.line@.len()
    }

    /// The glyph table code points are resolved against.
    pub closed spec fn chars(&self) -> Seq<Char> {
        self.all_chars@
    }

    /// The code points not yet resolved.
    pub closed spec fn remaining(&self) -> Seq<char> {
        self.line@.skip(self.cursor as int)
    }

    fn new(string: &'s str, all_chars: &'f Vec<Char>) -> (r: Self)
        ensures
            r.wf(),
            r.chars() == all_chars@,
            r.remaining() == string@,
    {
        let r = TextLine { all_chars, line: string, cursor: 0 };
        proof {
            assert(string@.skip(0) =~= string@);
        }
        r
    }

    #[verifier::loop_isolation(false)]
    fn next(&mut self) -> (r: Option<Result<Char, CharError>>)
        requires
            old(self).wf(),
        ensures
            final(self).wf(),
            final(self).chars() == old(self).chars(),
            match r {
                None => {
                    &&& old(self).remaining().len() == 0
                    &&& final(self).remaining().len() == 0
                },
                Some(res) => {
                    &&& old(self).remaining().len() > 0
                    &&& res == spec_resolve(old(self).chars(), old(self).remaining()[0])
                    &&& final(self).remaining() == old(self).remaining().drop_first()
                },
            },
    {
        let n = self.line.unicode_len();
        if self.cursor >= n {
            return None;
        }
        let c = self.line.get_char(self.cursor);
        proof {
            assert(old(self).remaining()[0] == self.line@[self.cursor as int]);
            assert(self.line@.skip(self.cursor + 1) =~= self.line@.skip(
                self.cursor as int,
            ).drop_first());
        }
        self.cursor = self.cursor + 1;
        if (c as u32) >= 0x10000 {
            return Some(Err(CharError::UnsupportedCharacter(c)));
        }
        let char_id = c as u32;
        let m = self.all_chars.len();
        let mut i: usize = 0;
        while i < m
            invariant
                m == self.all_chars@.len(),
                i <= m,
                find_char_from(self.all_chars@, char_id, 0) == find_char_from(
                    self.all_chars@,
                    char_id,
                    i as int,
                ),
            decreases m - i,
        {
            let ch = self.all_chars[i];
            if ch.id == char_id {
                return Some(Ok(ch));
            }
            i += 1;
        }
        Some(Err(CharError::MissingCharacter(c)))
    }
}

/// A lazy, single-pass cursor over the layout of one string with one font:
/// each call to `next` yields the rectangles of the next character, or the
/// error recorded for it, until the text is exhausted.
pub struct CharPositions<'s, 'f> {
    font: &'f BMFont,
    text_lines: TextLines<'s, 'f>,
    text_line: TextLine<'s, 'f>,
    done: bool,
    x: i32,
    y: i32,
    prev_char_id: u32,
}

impl<'s, 'f> CharPositions<'s, 'f> {
    pub closed spec fn wf(&self) -> bool {
        &&& self.text_lines.wf()
        &&& self.text_line.wf()
        &&& self.text_lines.chars() == self.font@.characters
        &&& self.text_line.chars() == self.font@.characters
    }

    /// The items not yet yielded.
    pub closed spec fn remaining(&self) -> Seq<Result<CharPosition, CharError>> {
        if self.done {
            Seq::empty()
        } else {
            layout_items(
                self.font@,
                self.text_line.remaining(),
                self.text_lines.remaining_lines(),
                self.x,
                self.y,
                self.prev_char_id,
            )
        }
    }

    fn new(string: &'s str, font: &'f BMFont) -> (r: Self)
        ensures
            r.wf(),
            r.remaining() == spec_char_positions(font@, string@),
    {
        let mut text_lines = TextLines::new(string, &font.characters);
        match text_lines.next() {
            Some(text_line) => CharPositions {
                font,
                text_lines,
                text_line,
                done: false,
                x: 0,
                y: 0,
                prev_char_id: 0,
            },
            None => {
                let text_line = TextLine::new("", &font.characters);
                CharPositions { font, text_lines, text_line, done: true, x: 0, y: 0, prev_char_id: 0 }
            },
        }
    }

    /// Yields the next laid-out character, or `None` once the sequence has
    /// ended; after the text is exhausted every further call yields `None`.
    pub fn next(&mut self) -> (r: Option<Result<CharPosition, CharError>>)
        requires
            old(self).wf(),
        ensures
            final(self).wf(),
            match r {
                None => {
                    &&& old(self).remaining().len() == 0
                    &&& final(self).remaining().len() == 0
                },
                Some(item) => {
                    &&& old(self).remaining().len() > 0
                    &&& item == old(self).remaining()[0]
                    &&& final(self).remaining() == old(self).remaining().drop_first()
                },
            },
    {
        if self.done {
            return None;
        }
        let ghost f = self.font@;
        let ghost rem0 = self.remaining();
        let ghost cur0 = self.text_line.remaining();
        let ghost rest0 = self.text_lines.remaining_lines();
        let ghost x0 = self.x;
        let ghost y0 = self.y;
        let ghost prev0 = self.prev_char_id;
        let character: Char;
        match self.text_line.next() {
            Some(res) => match res {
                Ok(ch) => {
                    proof {
                        assert(spec_resolve(f.characters, cur0[0]) == Ok::<Char, CharError>(ch));
                    }
                    character = ch;
                },
                Err(err) => {
                    proof {
                        assert(spec_resolve(f.characters, cur0[0]) == Err::<Char, CharError>(err));
                        assert(rem0 == seq![Err::<CharPosition, CharError>(err)] + layout_items(
                            f,
                            cur0.drop_first(),
                            rest0,
                            x0,
                            y0,
                            prev0,
                        ));
                        assert(rem0.drop_first() =~= self.remaining());
                    }
                    return Some(Err(err));
                },
            },
            None => {
                proof {
                    assert(cur0.len() == 0);
                }
                match self.text_lines.next() {
                    None => {
                        proof {
                            assert(rem0 =~= Seq::<Result<CharPosition, CharError>>::empty());
                        }
                        self.done = true;
                        return None;
                    },
                    Some(line) => {
                        self.text_line = line;
                        self.x = 0;
                        match self.font.ordinate_orientation {
                            OrdinateOrientation::TopToBottom => {
                                self.y = self.y.wrapping_add(
                                    u32_to_i32_wrapping(self.font.line_height),
                                );
                            },
                            OrdinateOrientation::BottomToTop => {
                                self.y = self.y.wrapping_sub(
                                    u32_to_i32_wrapping(self.font.line_height),
                                );
                            },
                        }
                        proof {
                            assert(self.y == spec_line_shift(f, y0));
                            assert(self.text_line.remaining() == rest0[0]);
                            assert(self.text_lines.remaining_lines() == rest0.drop_first());
                        }
                        match self.text_line.next() {
                            None => {
                                proof {
                                    assert(rest0[0].len() == 0);
                                    assert(rem0 =~= Seq::<Result<CharPosition, CharError>>::empty());
                                }
                                self.done = true;
                                return None;
                            },
                            Some(res) => {
                                proof {
                                    assert(rest0[0].len() > 0);
                                    assert(rem0 == layout_items(
                                        f,
                                        rest0[0],
                                        rest0.drop_first(),
                                        0,
                                        spec_line_shift(f, y0),
                                        prev0,
                                    ));
                                }
                                match res {
                                    Ok(ch) => {
                                        proof {
                                            assert(spec_resolve(f.characters, rest0[0][0]) == Ok::<
                                                Char,
                                                CharError,
                                            >(ch));
                                        }
                                        character = ch;
                                    },
                                    Err(err) => {
                                        proof {
                                            assert(spec_resolve(f.characters, rest0[0][0]) == Err::<
                                                Char,
                                                CharError,
                                            >(err));
                                            assert(rem0 == seq![
                                                Err::<CharPosition, CharError>(err),
                                            ] + layout_items(
                                                f,
                                                rest0[0].drop_first(),
                                                rest0.drop_first(),
                                                0,
                                                spec_line_shift(f, y0),
                                                prev0,
                                            ));
                                            assert(rem0.drop_first() =~= self.remaining());
                                        }
                                        return Some(Err(err));
                                    },
                                }
                            },
                        }
                    },
                }
            },
        }
        let ghost k_spec = spec_find_kerning(f.kerning_values, self.prev_char_id, character.id);
        proof {
            assert(rem0 == seq![
                Ok::<CharPosition, CharError>(
                    spec_position(f, character, k_spec, self.x, self.y),
                ),
            ] + layout_items(
                f,
                self.text_line.remaining(),
                self.text_lines.remaining_lines(),
                spec_advance(self.x, character, k_spec),
                self.y,
                character.id,
            ));
        }
        let kerning_value = self.font.find_kerning_value(self.prev_char_id, character.id);
        let page_rect = Rect {
            x: u32_to_i32_wrapping(character.x),
            y: u32_to_i32_wrapping(character.y),
            width: character.width,
            height: character.height,
        };
        let screen_x = self.x.wrapping_add(character.xoffset).wrapping_add(kerning_value);
        let screen_y = match self.font.ordinate_orientation {
            OrdinateOrientation::BottomToTop => {
                self.y.wrapping_add(u32_to_i32_wrapping(self.font.base_height)).wrapping_sub(
                    character.yoffset,
                ).wrapping_sub(u32_to_i32_wrapping(character.height))
            },
            OrdinateOrientation::TopToBottom => self.y.wrapping_add(character.yoffset),
        };
        let screen_rect = Rect {
            x: screen_x,
            y: screen_y,
            width: character.width,
            height: character.height,
        };
        let char_position = CharPosition { page_rect, screen_rect, page_index: character.page_index };
        self.x = self.x.wrapping_add(character.xadvance.wrapping_add(kerning_value));
        self.prev_char_id = character.id;
        proof {
            assert(rem0.drop_first() =~= self.remaining());
        }
        Some(Ok(char_position))
    }
}

/// A source whose `common` line is present, whose two metric tokens read as
/// numbers, and whose recognized section lines all parse, builds a font; its
/// `line_height` and `base_height` are exactly the values of the 2nd and 3rd
/// whitespace-split tokens of the `common` line.
pub proof fn lemma_well_formed_source_builds(src: Seq<char>, orientation: OrdinateOrientation)
    requires
        spec_sections(src).common is Some,
        spec_extract_u32(tok_at(split_ws(spec_sections(src).common->Some_0), 1)) is Some,
        spec_extract_u32(tok_at(split_ws(spec_sections(src).common->Some_0), 2)) is Some,
        parse_pages_from(spec_sections(src).pages, 0) is Ok,
        parse_chars_from(spec_sections(src).chars, 0) is Ok,
        parse_kernings_from(spec_sections(src).kernings, 0) is Ok,
    ensures
        spec_parse_font(src, orientation) is Ok,
        spec_parse_font(src, orientation)->Ok_0.line_height == spec_extract_u32(
            tok_at(split_ws(spec_sections(src).common->Some_0), 1),
        )->Some_0,
        spec_parse_font(src, orientation)->Ok_0.base_height == spec_extract_u32(
            tok_at(split_ws(spec_sections(src).common->Some_0), 2),
        )->Some_0,
{
}

/// Construction succeeds exactly when the `common` line is present, its two
/// metric tokens read as numbers, and every recognized section line parses;
/// on any other source it returns an error rather than a font.
pub proof fn lemma_build_succeeds_iff(src: Seq<char>, orientation: OrdinateOrientation)
    ensures
        spec_parse_font(src, orientation) is Ok <==> {
            &&& spec_sections(src).common is Some
            &&& spec_extract_u32(tok_at(split_ws(spec_sections(src).common->Some_0), 1)) is Some
            &&& spec_extract_u32(tok_at(split_ws(spec_sections(src).common->Some_0), 2)) is Some
            &&& parse_pages_from(spec_sections(src).pages, 0) is Ok
            &&& parse_chars_from(spec_sections(src).chars, 0) is Ok
            &&& parse_kernings_from(spec_sections(src).kernings, 0) is Ok
        },
{
}

/// A source in which no `common` line occurs never builds: construction
/// reports the missing section, distinctly from any field error.
pub proof fn lemma_missing_common_fails(src: Seq<char>, orientation: OrdinateOrientation)
    requires
        spec_sections(src).common is None,
    ensures
        spec_parse_font(src, orientation) == Err::<FontView, ErrorView>(
            ErrorView::MissingCommonSection,
        ),
{
}

/// A code point with no glyph record yields exactly one `MissingCharacter`
/// item at its position, after which layout continues with the pen position
/// and the kerning state unchanged.
pub proof fn lemma_missing_character_continues(
    f: FontView,
    cur: Seq<char>,
    rest: Seq<Seq<char>>,
    x: i32,
    y: i32,
    prev: u32,
)
    requires
        cur.len() > 0,
        single_unit_char(cur[0]),
        spec_find_char(f.characters, cur[0] as u32) is None,
    ensures
        layout_items(f, cur, rest, x, y, prev) == seq![
            Err::<CharPosition, CharError>(CharError::MissingCharacter(cur[0])),
        ] + layout_items(f, cur.drop_first(), rest, x, y, prev),
{
}

/// An empty input string lays out as the empty sequence: no items, no error.
pub proof fn lemma_empty_text_empty_layout(f: FontView)
    ensures
        spec_char_positions(f, Seq::empty()) == Seq::<Result<CharPosition, CharError>>::empty(),
{
    assert(spec_lines(Seq::empty()) =~= Seq::<Seq<char>>::empty());
}

/// Construction is deterministic: two builds from identical source text and
/// the same orientation are the same font image, and every query string then
/// lays out to the same sequence of items.
pub proof fn lemma_idempotent_construction(
    src: Seq<char>,
    orientation: OrdinateOrientation,
    f1: FontView,
    f2: FontView,
    text: Seq<char>,
)
    requires
        spec_parse_font(src, orientation) == Ok::<FontView, ErrorView>(f1),
        spec_parse_font(src, orientation) == Ok::<FontView, ErrorView>(f2),
    ensures
        f1 == f2,
        spec_char_positions(f1, text) == spec_char_positions(f2, text),
{
}

} // verus!
