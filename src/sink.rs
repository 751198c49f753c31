//! The output sink: an ordered list of lines, each with its indentation depth.
use vstd::prelude::*;
use crate::format::push_char;

verus! {

/// One emitted line: `depth` tab stops, then `text`. A blank line has depth 0
/// and no text.
pub struct Line {
    pub depth: usize,
    pub text: String,
}

/// Where the rendered document goes, line by line, in the order written.
pub struct Sink {
    lines: Vec<Line>,
}

/// The blank separator line.
pub open spec fn blank() -> (int, Seq<char>) {
    (0, Seq::empty())
}

/// `n` tab characters.
pub open spec fn tabs(n: nat) -> Seq<char> {
    Seq::new(n, |i: int| '\t')
}

/// The text of one line: its tabs, its text and a line break.
pub open spec fn line_text(line: (int, Seq<char>)) -> Seq<char> {
    tabs(line.0 as nat) + line.1 + seq!['\n']
}

/// The whole text of a sequence of lines.
pub open spec fn text_of(lines: Seq<(int, Seq<char>)>) -> Seq<char>
    decreases lines.len(),
{
    if lines.len() == 0 {
        Seq::empty()
    } else {
        text_of(lines.drop_last()) + line_text(lines.last())
    }
}

impl View for Sink {
    type V = Seq<(int, Seq<char>)>;

    closed spec fn view(&self) -> Seq<(int, Seq<char>)> {
        self.lines@.map_values(|l: Line| (l.depth as int, l.text@))
    }
}

impl Sink {
    pub fn new() -> (r: Sink)
        ensures
            r@ == Seq::<(int, Seq<char>)>::empty(),
    {
        let r = Sink { lines: Vec::new() };
        assert(r@ =~= Seq::<(int, Seq<char>)>::empty());
        r
    }

    /// Writes `text` on a line of its own, `depth` tab stops in.
    pub fn write_line(&mut self, depth: usize, text: &str)
        ensures
            final(self)@ == old(self)@.push((depth as int, text@)),
    {
        self.lines.push(Line { depth, text: String::from_str(text) });
        assert(self@ =~= old(self)@.push((depth as int, text@)));
    }

    /// Writes a blank separator line.
    pub fn blank_line(&mut self)
        ensures
            final(self)@ == old(self)@.push(blank()),
    {
        self.lines.push(Line { depth: 0, text: String::new() });
        assert(self@ =~= old(self)@.push(blank()));
    }

    pub fn len(&self) -> (r: usize)
        ensures
            r == self@.len(),
    {
        self.lines.len()
    }

    /// The `i`-th line written.
    pub fn line(&self, i: usize) -> (r: &Line)
        requires
            i < self@.len(),
        ensures
            (r.depth as int, r.text@) == self@[i as int],
    {
        &self.lines[i]
    }

    /// Everything written, as text: each line's tabs, text and line break.
    pub fn to_text(&self) -> (r: String)
        ensures
            r@ == text_of(self@),
    {
        let mut r = String::new();
        let mut i: usize = 0;
        while i < self.lines.len()
            invariant
                i <= self@.len(),
                r@ == text_of(self@.subrange(0, i as int)),
            decreases self@.len() - i,
        {
            let line = &self.lines[i];
            let ghost before = r@;
            let mut t: usize = 0;
            while t < line.depth
                invariant
                    t <= line.depth,
                    r@ == before + tabs(t as nat),
                decreases line.depth - t,
            {
                push_char(&mut r, '\t');
                t = t + 1;
                assert(r@ =~= before + tabs(t as nat));
            }
            r.append(line.text.as_str());
            r.append("\n");
            proof {
                reveal_strlit("\n");
                let s = self@.subrange(0, i + 1);
                assert(s.drop_last() =~= self@.subrange(0, i as int));
            }
            assert(r@ =~= text_of(self@.subrange(0, i + 1)));
            i = i + 1;
        }
        assert(self@.subrange(0, self@.len() as int) =~= self@);
        r
    }
}

} // verus!
