//! Inline text styling: `**bold**`, `_italic_` and `#color{text}` markers are
//! rewritten into LaTeX commands, then runs of spaces and line breaks are
//! flattened so that a paragraph written over several lines becomes one line.
use vstd::prelude::*;
use crate::syntax::{DEF_BOLD, DEF_COLOR, DEF_ITALIC, DEF_LABEL};

verus! {

/// `**text**`: two stars, a run of characters without a star, two stars.
pub const BOLD_PATTERN: &'static str = r"\*{2}(?P<text>[^\*]+?)\*{2}";

/// `_text_`: an underscore, a run of characters without one, an underscore.
pub const ITALIC_PATTERN: &'static str = r"_(?P<text>[^_]+?)_";

/// `#color{text}`: a color name without braces or spaces, then a braced text
/// without braces.
pub const COLOR_PATTERN: &'static str = r"#(?P<color>[^{} ]+)\{(?P<text>[^{}]+)\}";

/// The three inline markers, in the order in which they are resolved.
#[derive(Clone, Copy, PartialEq, Eq, Structural)]
pub enum FormatType {
    Bold,
    Italic,
    Color,
}

/// Where one marker occurrence lies in a string: it spans `[start, end)`, its
/// color name `[color_start, color_end)` (empty but for colors) and its text
/// `[text_start, text_end)`.
pub ghost struct Span {
    pub start: int,
    pub color_start: int,
    pub color_end: int,
    pub text_start: int,
    pub text_end: int,
    pub end: int,
}

/// The first index at or after `k` that holds `a`, `b` or `c`; the length of
/// `s` when there is none.
pub open spec fn scan(s: Seq<char>, k: int, a: char, b: char, c: char) -> int
    decreases s.len() - k,
{
    if k < 0 || k >= s.len() {
        s.len() as int
    } else if s[k] == a || s[k] == b || s[k] == c {
        k
    } else {
        scan(s, k + 1, a, b, c)
    }
}

/// The occurrence of marker `f` that starts at index `i` of `s`, if any.
pub open spec fn match_at(f: FormatType, s: Seq<char>, i: int) -> Option<Span> {
    if i < 0 || i >= s.len() {
        None
    } else {
        match f {
            FormatType::Bold => {
                let j = scan(s, i + 2, '*', '*', '*');
                if i + 1 < s.len() && s[i] == '*' && s[i + 1] == '*' && i + 2 < j && j + 1 < s.len()
                    && s[j + 1] == '*' {
                    Some(Span { start: i, color_start: i, color_end: i, text_start: i + 2, text_end: j, end: j + 2 })
                } else {
                    None
                }
            },
            FormatType::Italic => {
                let j = scan(s, i + 1, '_', '_', '_');
                if s[i] == '_' && i + 1 < j && j < s.len() {
                    Some(Span { start: i, color_start: i, color_end: i, text_start: i + 1, text_end: j, end: j + 1 })
                } else {
                    None
                }
            },
            FormatType::Color => {
                let k = scan(s, i + 1, '{', '}', ' ');
                let e = scan(s, k + 1, '{', '}', '}');
                if s[i] == '#' && i + 1 < k && k < s.len() && s[k] == '{' && k + 1 < e && e < s.len()
                    && s[e] == '}' {
                    Some(Span { start: i, color_start: i + 1, color_end: k, text_start: k + 1, text_end: e, end: e + 1 })
                } else {
                    None
                }
            },
        }
    }
}

/// The leftmost occurrence of marker `f` in `s` that starts at or after `from`.
pub open spec fn first_match(f: FormatType, s: Seq<char>, from: int) -> Option<Span>
    decreases s.len() - from,
{
    if from < 0 || from >= s.len() {
        None
    } else {
        match match_at(f, s, from) {
            Some(sp) => Some(sp),
            None => first_match(f, s, from + 1),
        }
    }
}

/// The leftmost occurrence of `f` in `s`, cut into the text before it, its
/// color name, its text, and the text after it.
pub open spec fn split_first(f: FormatType, s: Seq<char>) -> Option<
    (Seq<char>, Seq<char>, Seq<char>, Seq<char>),
> {
    match first_match(f, s, 0) {
        None => None,
        Some(sp) => Some(
            (
                s.subrange(0, sp.start),
                s.subrange(sp.color_start, sp.color_end),
                s.subrange(sp.text_start, sp.text_end),
                s.subrange(sp.end, s.len() as int),
            ),
        ),
    }
}

/// The strings of `s` with `sep` between each two of them.
pub open spec fn joined(s: Seq<Seq<char>>, sep: Seq<char>) -> Seq<char>
    decreases s.len(),
{
    if s.len() == 0 {
        Seq::empty()
    } else if s.len() == 1 {
        s[0]
    } else {
        joined(s.drop_last(), sep) + sep + s.last()
    }
}

pub open spec fn braces(s: Seq<char>) -> Seq<char> {
    seq!['{'] + s + seq!['}']
}

pub open spec fn brackets(s: Seq<char>) -> Seq<char> {
    seq!['['] + s + seq![']']
}

/// The LaTeX that replaces one occurrence of marker `f`.
pub open spec fn styled(f: FormatType, color: Seq<char>, text: Seq<char>) -> Seq<char> {
    match f {
        FormatType::Bold => DEF_BOLD@ + braces(text),
        FormatType::Italic => DEF_ITALIC@ + braces(text),
        FormatType::Color => braces(DEF_COLOR@ + braces(color) + braces(text)),
    }
}

/// Every occurrence of `f` in `s` replaced, from left to right, each search
/// resuming after the previous occurrence.
pub open spec fn rewrite(f: FormatType, s: Seq<char>) -> Seq<char>
    decreases s.len(),
{
    match split_first(f, s) {
        None => s,
        Some(parts) => {
            proof {
                lemma_first_match_bounds(f, s, 0);
            }
            parts.0 + styled(f, parts.1, parts.2) + rewrite(f, parts.3)
        },
    }
}

/// `s` with every pair of adjacent spaces removed, pairs taken from the left.
pub open spec fn without_double_spaces(s: Seq<char>) -> Seq<char>
    decreases s.len(),
{
    if s.len() < 2 {
        s
    } else if s[0] == ' ' && s[1] == ' ' {
        without_double_spaces(s.subrange(2, s.len() as int))
    } else {
        seq![s[0]] + without_double_spaces(s.subrange(1, s.len() as int))
    }
}

pub open spec fn newline_to_space(c: char) -> char {
    if c == '\n' {
        ' '
    } else {
        c
    }
}

/// `s` with each line break turned into a space.
pub open spec fn single_line(s: Seq<char>) -> Seq<char> {
    s.map_values(|c: char| newline_to_space(c))
}

/// What `format_text` makes of `raw`: bold, then italic, then color markers
/// rewritten, then double spaces dropped and line breaks turned into spaces.
pub open spec fn formatted(raw: Seq<char>) -> Seq<char> {
    single_line(
        without_double_spaces(
            rewrite(FormatType::Color, rewrite(FormatType::Italic, rewrite(FormatType::Bold, raw))),
        ),
    )
}

pub proof fn lemma_scan_bounds(s: Seq<char>, k: int, a: char, b: char, c: char)
    requires
        0 <= k,
    ensures
        k <= scan(s, k, a, b, c) <= s.len() || (k > s.len() && scan(s, k, a, b, c) == s.len()),
        scan(s, k, a, b, c) < s.len() ==> {
            let j = scan(s, k, a, b, c);
            s[j] == a || s[j] == b || s[j] == c
        },
    decreases s.len() - k,
{
    if k < s.len() && !(s[k] == a || s[k] == b || s[k] == c) {
        lemma_scan_bounds(s, k + 1, a, b, c);
    }
}

pub proof fn lemma_match_at_bounds(f: FormatType, s: Seq<char>, i: int)
    ensures
        match_at(f, s, i) matches Some(sp) ==> {
            &&& sp.start == i
            &&& 0 <= i <= sp.color_start <= sp.color_end <= sp.text_start <= sp.text_end < sp.end
                <= s.len()
        },
{
    if 0 <= i < s.len() {
        match f {
            FormatType::Bold => lemma_scan_bounds(s, i + 2, '*', '*', '*'),
            FormatType::Italic => lemma_scan_bounds(s, i + 1, '_', '_', '_'),
            FormatType::Color => {
                lemma_scan_bounds(s, i + 1, '{', '}', ' ');
                let k = scan(s, i + 1, '{', '}', ' ');
                if k + 1 >= 0 {
                    lemma_scan_bounds(s, k + 1, '{', '}', '}');
                }
            },
        }
    }
}

pub proof fn lemma_first_match_bounds(f: FormatType, s: Seq<char>, from: int)
    ensures
        first_match(f, s, from) matches Some(sp) ==> {
            &&& from <= sp.start
            &&& 0 <= sp.start <= sp.color_start <= sp.color_end <= sp.text_start <= sp.text_end
                < sp.end <= s.len()
        },
    decreases s.len() - from,
{
    if 0 <= from < s.len() {
        lemma_match_at_bounds(f, s, from);
        if match_at(f, s, from) is None {
            lemma_first_match_bounds(f, s, from + 1);
        }
    }
}

/// Relies on `String::push`: appends one character.
#[verifier::external_body]
pub(crate) fn push_char(s: &mut String, c: char)
    ensures
        final(s)@ == old(s)@.push(c),
{
    s.push(c);
}

/// The characters of `s`, in order.
fn chars_of(s: &str) -> (r: Vec<char>)
    ensures
        r@ == s@,
{
    let mut r: Vec<char> = Vec::new();
    for c in it: s.chars()
        invariant
            r@ == it.seq().subrange(0, it.index() as int),
    {
        r.push(c);
    }
    r
}

/// Wraps `string` in braces.
pub fn into_braces(string: &String) -> (r: String)
    ensures
        r@ == braces(string@),
{
    let mut r = String::new();
    r.append("{");
    r.append(string.as_str());
    r.append("}");
    proof {
        reveal_strlit("{");
        reveal_strlit("}");
    }
    assert(r@ =~= braces(string@));
    r
}

/// Wraps `string` in square brackets.
pub fn into_brackets(string: &String) -> (r: String)
    ensures
        r@ == brackets(string@),
{
    let mut r = String::new();
    r.append("[");
    r.append(string.as_str());
    r.append("]");
    proof {
        reveal_strlit("[");
        reveal_strlit("]");
    }
    assert(r@ =~= brackets(string@));
    r
}

/// The label command for `label`.
pub open spec fn label_of(label: Seq<char>) -> Seq<char> {
    DEF_LABEL@ + braces(label)
}

/// `\label{string}`.
pub fn into_label(string: &String) -> (r: String)
    ensures
        r@ == label_of(string@),
{
    let mut r = String::from_str(DEF_LABEL);
    r.append(into_braces(string).as_str());
    r
}

/// `\textbf{string}`.
pub fn into_bold(string: &String) -> (r: String)
    ensures
        r@ == styled(FormatType::Bold, Seq::empty(), string@),
{
    let mut r = String::from_str(DEF_BOLD);
    r.append(into_braces(string).as_str());
    r
}

/// `\textit{string}`.
pub fn into_italic(string: &String) -> (r: String)
    ensures
        r@ == styled(FormatType::Italic, Seq::empty(), string@),
{
    let mut r = String::from_str(DEF_ITALIC);
    r.append(into_braces(string).as_str());
    r
}

/// `{\color{color}{string}}`.
pub fn into_color(string: &String, color: &String) -> (r: String)
    ensures
        r@ == styled(FormatType::Color, color@, string@),
{
    let mut inner = String::from_str(DEF_COLOR);
    inner.append(into_braces(color).as_str());
    inner.append(into_braces(string).as_str());
    into_braces(&inner)
}

impl FormatType {
    /// The pattern that finds this marker.
    pub open spec fn pattern_spec(self) -> Seq<char> {
        match self {
            FormatType::Bold => BOLD_PATTERN@,
            FormatType::Italic => ITALIC_PATTERN@,
            FormatType::Color => COLOR_PATTERN@,
        }
    }

    pub fn pattern(&self) -> (r: &'static str)
        ensures
            r@ == self.pattern_spec(),
    {
        match self {
            FormatType::Bold => BOLD_PATTERN,
            FormatType::Italic => ITALIC_PATTERN,
            FormatType::Color => COLOR_PATTERN,
        }
    }

    /// The LaTeX for one occurrence of this marker with the given groups.
    pub fn handle_formatting(&self, text: &String, color: &String) -> (r: String)
        ensures
            r@ == styled(*self, color@, text@),
    {
        match self {
            FormatType::Bold => into_bold(text),
            FormatType::Italic => into_italic(text),
            FormatType::Color => into_color(text, color),
        }
    }
}

/// One occurrence of a marker, as found by a pattern search: the text before
/// it, its `color` and `text` groups (empty where the pattern has no such
/// group) and the text after it.
struct Captured {
    before: String,
    color: String,
    text: String,
    after: String,
}

spec fn captured_view(c: Option<Captured>) -> Option<
    (Seq<char>, Seq<char>, Seq<char>, Seq<char>),
> {
    match c {
        None => None,
        Some(c) => Some((c.before@, c.color@, c.text@, c.after@)),
    }
}

/// Relies on `regex::Regex::new` and `regex::Regex::captures`: the
/// leftmost-first match of one of the three marker patterns, split around the
/// whole match, with its named groups. Each group's class excludes the
/// delimiter that closes it, so a start position admits at most one match,
/// the one that `match_at` describes; the leftmost is `first_match`'s.
#[verifier::external_body]
fn captures_first(pattern: &str, haystack: &str) -> (r: Option<Captured>)
    ensures
        pattern@ == BOLD_PATTERN@ ==> captured_view(r) == split_first(FormatType::Bold, haystack@),
        pattern@ == ITALIC_PATTERN@ ==> captured_view(r) == split_first(FormatType::Italic, haystack@),
        pattern@ == COLOR_PATTERN@ ==> captured_view(r) == split_first(FormatType::Color, haystack@),
{
    let caps = regex::Regex::new(pattern).ok()?.captures(haystack)?;
    let whole = caps.get(0)?;
    Some(Captured {
        before: haystack[..whole.start()].to_string(),
        color: caps.name("color").map_or(String::new(), |g| g.as_str().to_string()),
        text: caps.name("text").map_or(String::new(), |g| g.as_str().to_string()),
        after: haystack[whole.end()..].to_string(),
    })
}

/// Replaces every occurrence of `format_type` in `text`, left to right.
pub fn replace_matches(text: String, format_type: FormatType) -> (r: String)
    ensures
        r@ == rewrite(format_type, text@),
{
    let pattern = format_type.pattern();
    let mut done = String::new();
    let mut rest = text;
    loop
        invariant
            pattern@ == format_type.pattern_spec(),
            done@ + rewrite(format_type, rest@) == rewrite(format_type, text@),
        decreases rest@.len(),
    {
        let found = captures_first(pattern, rest.as_str());
        match found {
            None => {
                assert(done@ + rest@ =~= rewrite(format_type, text@));
                done.append(rest.as_str());
                return done;
            },
            Some(c) => {
                proof {
                    lemma_first_match_bounds(format_type, rest@, 0);
                }
                let piece = format_type.handle_formatting(&c.text, &c.color);
                let ghost before_done = done@;
                done.append(c.before.as_str());
                done.append(piece.as_str());
                assert(done@ + rewrite(format_type, c.after@) =~= before_done + rewrite(
                    format_type,
                    rest@,
                ));
                rest = c.after;
            },
        }
    }
}

/// Resolves `**bold**` markers.
pub fn handle_bold(text: String) -> (r: String)
    ensures
        r@ == rewrite(FormatType::Bold, text@),
{
    replace_matches(text, FormatType::Bold)
}

/// Resolves `_italic_` markers.
pub fn handle_italic(text: String) -> (r: String)
    ensures
        r@ == rewrite(FormatType::Italic, text@),
{
    replace_matches(text, FormatType::Italic)
}

/// Resolves `#color{text}` markers.
pub fn handle_color(text: String) -> (r: String)
    ensures
        r@ == rewrite(FormatType::Color, text@),
{
    replace_matches(text, FormatType::Color)
}

/// Drops every pair of adjacent spaces, pairs taken from the left.
pub fn remove_double_spaces(text: &String) -> (r: String)
    ensures
        r@ == without_double_spaces(text@),
{
    let cs = chars_of(text.as_str());
    let n = cs.len();
    let mut r = String::new();
    let mut i: usize = 0;
    assert(cs@.subrange(0, n as int) =~= cs@);
    assert(r@ + without_double_spaces(cs@) =~= without_double_spaces(cs@));
    while i < n
        invariant
            cs@ == text@,
            n == cs@.len(),
            i <= n,
            r@ + without_double_spaces(cs@.subrange(i as int, n as int)) == without_double_spaces(text@),
        decreases n - i,
    {
        let ghost tail = cs@.subrange(i as int, n as int);
        if i + 1 < n && cs[i] == ' ' && cs[i + 1] == ' ' {
            assert(tail.subrange(2, tail.len() as int) =~= cs@.subrange(i + 2, n as int));
            i = i + 2;
        } else {
            if i + 1 < n {
                assert(tail.subrange(1, tail.len() as int) =~= cs@.subrange(i + 1, n as int));
                assert(r@.push(cs[i as int]) + without_double_spaces(cs@.subrange(i + 1, n as int))
                    =~= r@ + without_double_spaces(tail));
            } else {
                assert(cs@.subrange(i + 1, n as int) =~= Seq::<char>::empty());
                assert(r@.push(cs[i as int]) =~= r@ + without_double_spaces(tail));
            }
            push_char(&mut r, cs[i]);
            i = i + 1;
        }
    }
    assert(cs@.subrange(n as int, n as int) =~= Seq::<char>::empty());
    r
}

/// Turns each line break into a space.
pub fn join_lines(text: &String) -> (r: String)
    ensures
        r@ == single_line(text@),
{
    let cs = chars_of(text.as_str());
    let n = cs.len();
    let mut r = String::new();
    let mut i: usize = 0;
    while i < n
        invariant
            cs@ == text@,
            n == cs@.len(),
            i <= n,
            r@ =~= single_line(text@).subrange(0, i as int),
        decreases n - i,
    {
        let c = cs[i];
        if c == '\n' {
            push_char(&mut r, ' ');
        } else {
            push_char(&mut r, c);
        }
        i = i + 1;
    }
    r
}

/// Rewrites the inline markers of `text` into LaTeX (bold first, then
/// italic, then color) and flattens it onto one line.
pub fn format_text(text: String) -> (r: String)
    ensures
        r@ == formatted(text@),
        forall|i: int| 0 <= i < r@.len() ==> r@[i] != '\n',
{
    let styled_text = handle_color(handle_italic(handle_bold(text)));
    join_lines(&remove_double_spaces(&styled_text))
}

/// The views of `parts`, in order.
pub open spec fn views(parts: Seq<String>) -> Seq<Seq<char>> {
    parts.map_values(|p: String| p@)
}

/// The strings of `parts` with `sep` between each two of them.
pub fn join_strings(parts: &Vec<String>, sep: &str) -> (r: String)
    ensures
        r@ == joined(views(parts@), sep@),
{
    let mut r = String::new();
    let mut i: usize = 0;
    while i < parts.len()
        invariant
            i <= parts@.len(),
            r@ == joined(views(parts@).subrange(0, i as int), sep@),
        decreases parts@.len() - i,
    {
        if i > 0 {
            r.append(sep);
        }
        r.append(parts[i].as_str());
        proof {
            let s = views(parts@).subrange(0, i + 1);
            assert(s.drop_last() =~= views(parts@).subrange(0, i as int));
            if i == 0 {
                assert(r@ =~= joined(s, sep@));
            }
        }
        i = i + 1;
    }
    assert(views(parts@).subrange(0, parts@.len() as int) =~= views(parts@));
    r
}

} // verus!
