use vstd::prelude::*;
use vstd::string::StrSliceExecFns;

verus! {

/// Whitespace recognized when splitting a line into tokens: the code points
/// with the Unicode `White_Space` property, as `char::is_whitespace` has it.
pub open spec fn is_ws_char(c: char) -> bool {
    let u = c as u32;
    ||| (0x09 <= u && u <= 0x0D)
    ||| u == 0x20
    ||| u == 0x85
    ||| u == 0xA0
    ||| u == 0x1680
    ||| (0x2000 <= u && u <= 0x200A)
    ||| u == 0x2028
    ||| u == 0x2029
    ||| u == 0x202F
    ||| u == 0x205F
    ||| u == 0x3000
}

pub fn is_ws(c: char) -> (r: bool)
    ensures
        r == is_ws_char(c),
{
    let u = c as u32;
    (0x09 <= u && u <= 0x0D) || u == 0x20 || u == 0x85 || u == 0xA0 || u == 0x1680 || (0x2000 <= u
        && u <= 0x200A) || u == 0x2028 || u == 0x2029 || u == 0x202F || u == 0x205F || u == 0x3000
}

/// Index of the first occurrence of `c` at or after `i`, or the length of `s`
/// when there is none.
pub open spec fn find_from(s: Seq<char>, i: int, c: char) -> int
    decreases s.len() - i,
{
    if i >= s.len() {
        s.len() as int
    } else if s[i] == c {
        i
    } else {
        find_from(s, i + 1, c)
    }
}

pub proof fn lemma_find_from_bounds(s: Seq<char>, i: int, c: char)
    requires
        i <= s.len(),
    ensures
        i <= find_from(s, i, c) <= s.len(),
        find_from(s, i, c) < s.len() ==> s[find_from(s, i, c)] == c,
    decreases s.len() - i,
{
    if i < s.len() && s[i] != c {
        lemma_find_from_bounds(s, i + 1, c);
    }
}

/// Extent of the raw line starting at `i`: everything up to the next line
/// feed, or to the end of the text.
pub open spec fn line_end(s: Seq<char>, i: int) -> int {
    find_from(s, i, '\n')
}

/// The text of the line starting at `i`, with a carriage return immediately
/// before the terminating line feed removed, as `str::lines` does; a
/// carriage return at the end of the text is kept.
pub open spec fn line_at(s: Seq<char>, i: int) -> Seq<char> {
    let e = line_end(s, i);
    if e < s.len() && e > i && s[e - 1] == '\r' {
        s.subrange(i, e - 1)
    } else {
        s.subrange(i, e)
    }
}

/// Start of the line following the one that starts at `i`, or the length of
/// `s` when that line is the last.
pub open spec fn next_line_start(s: Seq<char>, i: int) -> int {
    let e = line_end(s, i);
    if e < s.len() {
        e + 1
    } else {
        e
    }
}

/// The lines of `s` from position `i` on, split as `str::lines` splits: on
/// line feeds, dropping the carriage return of a `\r\n` ending, with no
/// empty line after a final line feed.
pub open spec fn lines_from(s: Seq<char>, i: int) -> Seq<Seq<char>>
    decreases s.len() - i,
    via lines_from_dec
{
    if i >= s.len() {
        Seq::empty()
    } else {
        seq![line_at(s, i)] + lines_from(s, next_line_start(s, i))
    }
}

#[via_fn]
proof fn lines_from_dec(s: Seq<char>, i: int) {
    if i < s.len() {
        lemma_find_from_bounds(s, i, '\n');
    }
}

/// The lines of a whole text.
pub open spec fn spec_lines(s: Seq<char>) -> Seq<Seq<char>> {
    lines_from(s, 0)
}

/// Scans the line beginning at char index `pos`: returns the bounds of its
/// text and the char index where the following line begins, or `None` when
/// no line remains.
pub fn scan_line(s: &str, pos: usize) -> (r: Option<(usize, usize, usize)>)
    requires
        pos <= s@.len(),
    ensures
        match r {
            None => pos == s@.len(),
            Some((start, end, next)) => {
                &&& pos < s@.len()
                &&& start == pos
                &&& pos <= end <= s@.len()
                &&& pos < next <= s@.len()
                &&& s@.subrange(start as int, end as int) == line_at(s@, pos as int)
                &&& next == next_line_start(s@, pos as int)
            },
        },
{
    let n = s.unicode_len();
    if pos == n {
        return None;
    }
    let mut j = pos;
    while j < n && s.get_char(j) != '\n'
        invariant
            n == s@.len(),
            pos <= j <= n,
            find_from(s@, pos as int, '\n') == find_from(s@, j as int, '\n'),
        decreases n - j,
    {
        j += 1;
    }
    assert(find_from(s@, j as int, '\n') == j);
    let mut end = j;
    if j < n && end > pos && s.get_char(end - 1) == '\r' {
        end -= 1;
    }
    let next = if j < n {
        j + 1
    } else {
        j
    };
    Some((pos, end, next))
}

/// First index at or after `i` holding a whitespace character, or the length
/// of `s`: the end of the token that starts at `i`.
pub open spec fn token_end(s: Seq<char>, i: int) -> int
    decreases s.len() - i,
{
    if i >= s.len() {
        s.len() as int
    } else if !is_ws_char(s[i]) {
        token_end(s, i + 1)
    } else {
        i
    }
}

pub proof fn lemma_token_end_bounds(s: Seq<char>, i: int)
    requires
        i <= s.len(),
    ensures
        i <= token_end(s, i) <= s.len(),
    decreases s.len() - i,
{
    if i < s.len() && !is_ws_char(s[i]) {
        lemma_token_end_bounds(s, i + 1);
    }
}

/// The whitespace-separated tokens of `s` from position `i` on.
pub open spec fn tokens_from(s: Seq<char>, i: int) -> Seq<Seq<char>>
    decreases s.len() - i,
    via tokens_from_dec
{
    if i >= s.len() {
        Seq::empty()
    } else if is_ws_char(s[i]) {
        tokens_from(s, i + 1)
    } else {
        seq![s.subrange(i, token_end(s, i))] + tokens_from(s, token_end(s, i))
    }
}

#[via_fn]
proof fn tokens_from_dec(s: Seq<char>, i: int) {
    if i < s.len() && !is_ws_char(s[i]) {
        lemma_token_end_bounds(s, i + 1);
    }
}

/// The whitespace-separated tokens of a whole line.
pub open spec fn split_ws(s: Seq<char>) -> Seq<Seq<char>> {
    tokens_from(s, 0)
}

/// Whether two strings hold the same characters.
pub fn str_eq(a: &str, b: &str) -> (r: bool)
    ensures
        r == (a@ == b@),
{
    let na = a.unicode_len();
    let nb = b.unicode_len();
    if na != nb {
        return false;
    }
    let mut i: usize = 0;
    while i < na
        invariant
            na == a@.len(),
            na == b@.len(),
            i <= na,
            forall|j: int| 0 <= j < i ==> a@[j] == b@[j],
        decreases na - i,
    {
        if a.get_char(i) != b.get_char(i) {
            return false;
        }
        i += 1;
    }
    proof {
        assert(a@ =~= b@);
    }
    true
}

/// Splits a line into its whitespace-separated tokens.
pub fn tokenize<'a>(s: &'a str) -> (r: Vec<&'a str>)
    ensures
        r.deep_view() == split_ws(s@),
{
    let n = s.unicode_len();
    let mut toks: Vec<&'a str> = Vec::new();
    let mut i: usize = 0;
    while i < n
        invariant
            n == s@.len(),
            i <= n,
            split_ws(s@) == toks.deep_view() + tokens_from(s@, i as int),
        decreases n - i,
    {
        if is_ws(s.get_char(i)) {
            i += 1;
        } else {
            let ghost prev_toks = toks.deep_view();
            let mut j = i + 1;
            while j < n && !is_ws(s.get_char(j))
                invariant
                    n == s@.len(),
                    i < j <= n,
                    token_end(s@, i as int) == token_end(s@, j as int),
                decreases n - j,
            {
                j += 1;
            }
            assert(token_end(s@, j as int) == j);
            let tok = s.substring_char(i, j);
            toks.push(tok);
            assert(toks.deep_view() =~= prev_toks.push(tok@));
            assert(tokens_from(s@, i as int) == seq![tok@] + tokens_from(s@, j as int));
            assert(split_ws(s@) =~= toks.deep_view() + tokens_from(s@, j as int));
            i = j;
        }
    }
    assert(tokens_from(s@, i as int) =~= Seq::<Seq<char>>::empty());
    assert(split_ws(s@) =~= toks.deep_view());
    toks
}

} // verus!
