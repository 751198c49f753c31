//! The document tree: `Item` is any node that can stand in a container, and
//! the leaf nodes that hold no other node.
//!
//! Every node resolves its indent in a top-down pass before it is rendered:
//! `resolved(p)` says that a node and everything under it hold the indents
//! that this pass gives them when the node's parent has indent `p`.
use vstd::prelude::*;
use crate::container::{Block, Chapter, Enumerate, Section};
use crate::format::{braces, brackets, format_text, into_braces, into_brackets, into_label, label_of};
use crate::sink::{blank, Sink};
use crate::syntax::{
    DEF_BEGIN_FIGURE, DEF_CAPTION, DEF_CENTERING, DEF_END_FIGURE, DEF_INCLUDE_GRAPH, DEF_NEW_PAGE,
};
use crate::table::Table;

verus! {

/// A node of the document tree.
pub enum Item {
    Text(Text),
    Figure(Figure),
    Command(Command),
    PageBreak(PageBreak),
    Table(Table),
    Enumerate(Enumerate),
    Block(Block),
    Section(Section),
    Chapter(Chapter),
}

/// A paragraph of text, its inline markers already rewritten into LaTeX.
pub struct Text {
    pub(crate) text: String,
    pub(crate) indent: usize,
}

/// An image, with optional centering and caption.
pub struct Figure {
    pub(crate) positioning: String,
    pub(crate) centered: bool,
    pub(crate) image_path: String,
    pub(crate) image_option: String,
    pub(crate) caption: Option<Text>,
    pub(crate) label: String,
    pub(crate) indent: usize,
}

/// A raw LaTeX command, written as given.
pub struct Command {
    pub(crate) command: String,
    pub(crate) indent: usize,
}

/// A page break.
pub struct PageBreak {
    pub(crate) indent: usize,
}

/// The indent that a leaf node takes under a parent of indent `p`.
pub open(crate) spec fn leaf_resolved(indent: usize, p: int) -> bool {
    indent == p + 1
}

/// A leaf can take its indent under a parent of indent `p` without overflow,
/// and still render the line one level deeper than itself.
pub open(crate) spec fn leaf_can_assign(p: int) -> bool {
    0 <= p && p + 2 <= usize::MAX
}

/// The text of a caption, if there is one.
pub open(crate) spec fn caption_view(caption: Option<Text>) -> Option<Seq<char>> {
    match caption {
        Some(t) => Some(t.view()),
        None => None,
    }
}

/// The caption line of a figure or table, if it has a caption.
pub open(crate) spec fn caption_lines(caption: Option<Text>, depth: int) -> Seq<(int, Seq<char>)> {
    match caption {
        Some(t) => seq![(depth, DEF_CAPTION@ + braces(t.view()))],
        None => Seq::empty(),
    }
}

/// The centering line of a figure or table, if it is centered.
pub open(crate) spec fn centering_lines(centered: bool, depth: int) -> Seq<(int, Seq<char>)> {
    if centered {
        seq![(depth, DEF_CENTERING@)]
    } else {
        Seq::empty()
    }
}

/// Writes the caption line, if there is a caption.
pub(crate) fn build_caption(caption: &Option<Text>, depth: usize, sink: &mut Sink)
    ensures
        final(sink)@ == old(sink)@ + caption_lines(*caption, depth as int),
{
    match caption {
        Some(caption) => {
            let mut line = String::from_str(DEF_CAPTION);
            line.append(into_braces(&caption.get_string()).as_str());
            assert(line@ =~= DEF_CAPTION@ + braces(caption.view()));
            sink.write_line(depth, line.as_str());
        },
        None => {},
    }
    assert(sink@ =~= old(sink)@ + caption_lines(*caption, depth as int));
}

/// Writes the centering line, if centering is asked for.
pub(crate) fn build_centering(centered: bool, depth: usize, sink: &mut Sink)
    ensures
        final(sink)@ == old(sink)@ + centering_lines(centered, depth as int),
{
    if centered {
        sink.write_line(depth, DEF_CENTERING);
    }
    assert(sink@ =~= old(sink)@ + centering_lines(centered, depth as int));
}

impl Text {
    pub open(crate) spec fn view(self) -> Seq<char> {
        self.text@
    }

    pub open(crate) spec fn indent(self) -> usize {
        self.indent
    }

    /// The paragraph line, then a blank line.
    pub open(crate) spec fn lines(self) -> Seq<(int, Seq<char>)> {
        seq![(self.indent as int, self.text@), blank()]
    }

    /// A paragraph from authored text: markers are rewritten and the text is
    /// put on one line.
    pub fn new(text: &str) -> (r: Text)
        ensures
            r.view() == crate::format::formatted(text@),
            r.indent() == 0,
    {
        Text { text: format_text(String::from_str(text)), indent: 0 }
    }

    /// A copy of the paragraph's text.
    pub fn get_string(&self) -> (r: String)
        ensures
            r@ == self.view(),
    {
        self.text.clone()
    }

    pub fn update_indent(&mut self, super_indent: usize)
        requires
            leaf_can_assign(super_indent as int),
        ensures
            leaf_resolved(final(self).indent(), super_indent as int),
            final(self).view() == old(self).view(),
    {
        self.indent = super_indent + 1;
    }

    pub fn build(&self, sink: &mut Sink)
        ensures
            final(sink)@ == old(sink)@ + self.lines(),
    {
        sink.write_line(self.indent, self.text.as_str());
        sink.blank_line();
        assert(sink@ =~= old(sink)@ + self.lines());
    }
}

impl Figure {
    pub open(crate) spec fn positioning(self) -> Seq<char> {
        self.positioning@
    }

    pub open(crate) spec fn centered(self) -> bool {
        self.centered
    }

    pub open(crate) spec fn image_path(self) -> Seq<char> {
        self.image_path@
    }

    pub open(crate) spec fn image_option(self) -> Seq<char> {
        self.image_option@
    }

    pub open(crate) spec fn caption(self) -> Option<Text> {
        self.caption
    }

    pub open(crate) spec fn label(self) -> Seq<char> {
        self.label@
    }

    pub open(crate) spec fn indent(self) -> usize {
        self.indent
    }

    pub open(crate) spec fn same_content(self, o: Figure) -> bool {
        &&& self.positioning@ == o.positioning@
        &&& self.centered == o.centered
        &&& self.image_path@ == o.image_path@
        &&& self.image_option@ == o.image_option@
        &&& caption_view(self.caption) == caption_view(o.caption)
        &&& self.label@ == o.label@
    }

    /// `\begin{figure}[positioning] \label{label}`.
    pub open(crate) spec fn header(self) -> Seq<char> {
        DEF_BEGIN_FIGURE@ + brackets(self.positioning@) + seq![' '] + label_of(self.label@)
    }

    /// `\includegraphics[option]{path}`.
    pub open(crate) spec fn graphic(self) -> Seq<char> {
        DEF_INCLUDE_GRAPH@ + brackets(self.image_option@) + braces(self.image_path@)
    }

    /// Header; centering, image and caption one level deeper; end marker.
    pub open(crate) spec fn lines(self) -> Seq<(int, Seq<char>)> {
        let d = self.indent as int;
        seq![(d, self.header())] + centering_lines(self.centered, d + 1) + seq![(d + 1, self.graphic())]
            + caption_lines(self.caption, d + 1) + seq![(d, DEF_END_FIGURE@), blank()]
    }

    pub fn new(
        positioning: &str,
        centered: bool,
        image_path: &str,
        image_option: &str,
        caption: Option<Text>,
        label: &str,
    ) -> (r: Figure)
        ensures
            r.positioning() == positioning@,
            r.centered() == centered,
            r.image_path() == image_path@,
            r.image_option() == image_option@,
            r.caption() == caption,
            r.label() == label@,
            r.indent() == 0,
    {
        Figure {
            positioning: String::from_str(positioning),
            centered,
            image_path: String::from_str(image_path),
            image_option: String::from_str(image_option),
            caption,
            label: String::from_str(label),
            indent: 0,
        }
    }

    pub fn update_indent(&mut self, super_indent: usize)
        requires
            leaf_can_assign(super_indent as int),
        ensures
            leaf_resolved(final(self).indent(), super_indent as int),
            old(self).same_content(*final(self)),
    {
        self.indent = super_indent + 1;
    }

    /// `\begin{figure}[positioning] \label{label}`, at the figure's indent.
    fn build_header(&self, sink: &mut Sink)
        ensures
            final(sink)@ == old(sink)@.push((self.indent as int, self.header())),
    {
        let mut header = String::from_str(DEF_BEGIN_FIGURE);
        header.append(into_brackets(&self.positioning).as_str());
        header.append(" ");
        header.append(into_label(&self.label).as_str());
        proof {
            reveal_strlit(" ");
        }
        assert(header@ =~= self.header());
        sink.write_line(self.indent, header.as_str());
    }

    /// `\includegraphics[option]{path}`.
    fn build_graphic(&self, sink: &mut Sink, inner_indent: usize)
        ensures
            final(sink)@ == old(sink)@.push((inner_indent as int, self.graphic())),
    {
        let mut graphic = String::from_str(DEF_INCLUDE_GRAPH);
        graphic.append(into_brackets(&self.image_option).as_str());
        graphic.append(into_braces(&self.image_path).as_str());
        assert(graphic@ =~= self.graphic());
        sink.write_line(inner_indent, graphic.as_str());
    }

    /// `\end{figure}` at the figure's indent, then a blank line.
    fn build_end(&self, sink: &mut Sink)
        ensures
            final(sink)@ == old(sink)@ + seq![(self.indent as int, DEF_END_FIGURE@), blank()],
    {
        sink.write_line(self.indent, DEF_END_FIGURE);
        sink.blank_line();
        assert(sink@ =~= old(sink)@ + seq![(self.indent as int, DEF_END_FIGURE@), blank()]);
    }

    pub fn build(&self, sink: &mut Sink)
        requires
            self.indent() < usize::MAX,
        ensures
            final(sink)@ == old(sink)@ + self.lines(),
    {
        let inner_indent = self.indent + 1;
        self.build_header(sink);
        build_centering(self.centered, inner_indent, sink);
        self.build_graphic(sink, inner_indent);
        build_caption(&self.caption, inner_indent, sink);
        self.build_end(sink);
        assert(sink@ =~= old(sink)@ + self.lines());
    }
}

impl Command {
    pub open(crate) spec fn view(self) -> Seq<char> {
        self.command@
    }

    pub open(crate) spec fn indent(self) -> usize {
        self.indent
    }

    /// The command on a line of its own.
    pub open(crate) spec fn lines(self) -> Seq<(int, Seq<char>)> {
        seq![(self.indent as int, self.command@)]
    }

    pub fn new(command: &str) -> (r: Command)
        ensures
            r.view() == command@,
            r.indent() == 0,
    {
        Command { command: String::from_str(command), indent: 0 }
    }

    pub fn update_indent(&mut self, super_indent: usize)
        requires
            leaf_can_assign(super_indent as int),
        ensures
            leaf_resolved(final(self).indent(), super_indent as int),
            final(self).view() == old(self).view(),
    {
        self.indent = super_indent + 1;
    }

    pub fn build(&self, sink: &mut Sink)
        ensures
            final(sink)@ == old(sink)@ + self.lines(),
    {
        sink.write_line(self.indent, self.command.as_str());
        assert(sink@ =~= old(sink)@ + self.lines());
    }
}

impl PageBreak {
    pub open(crate) spec fn indent(self) -> usize {
        self.indent
    }

    /// The page break command, then a blank line.
    pub open(crate) spec fn lines(self) -> Seq<(int, Seq<char>)> {
        seq![(self.indent as int, DEF_NEW_PAGE@), blank()]
    }

    pub fn new() -> (r: PageBreak)
        ensures
            r.indent() == 0,
    {
        PageBreak { indent: 0 }
    }

    pub fn update_indent(&mut self, super_indent: usize)
        requires
            leaf_can_assign(super_indent as int),
        ensures
            leaf_resolved(final(self).indent(), super_indent as int),
    {
        self.indent = super_indent + 1;
    }

    pub fn build(&self, sink: &mut Sink)
        ensures
            final(sink)@ == old(sink)@ + self.lines(),
    {
        sink.write_line(self.indent, DEF_NEW_PAGE);
        sink.blank_line();
        assert(sink@ =~= old(sink)@ + self.lines());
    }
}

/// Every node of `s` is resolved under a parent of indent `h`.
pub open(crate) spec fn all_resolved(s: Seq<Item>, h: int) -> bool
    decreases s,
{
    forall|k: int| 0 <= k < s.len() ==> (#[trigger] s[k]).resolved(h)
}

/// Every node of `s` can be resolved under a parent of indent `h`.
pub open(crate) spec fn all_can_assign(s: Seq<Item>, h: int) -> bool
    decreases s,
{
    forall|k: int| 0 <= k < s.len() ==> (#[trigger] s[k]).can_assign(h)
}

/// `a` and `b` hold the same nodes, indents aside.
pub open(crate) spec fn all_same(a: Seq<Item>, b: Seq<Item>) -> bool
    decreases a,
{
    a.len() == b.len() && forall|k: int| 0 <= k < a.len() ==> (#[trigger] a[k]).same_content(b[k])
}

/// `a` and `b` hold the same indents, node for node.
pub open(crate) spec fn all_same_indents(a: Seq<Item>, b: Seq<Item>) -> bool
    decreases a,
{
    a.len() == b.len() && forall|k: int| 0 <= k < a.len() ==> (#[trigger] a[k]).same_indents(b[k])
}

/// Every node of `s` can be rendered.
pub open(crate) spec fn all_fit(s: Seq<Item>) -> bool
    decreases s,
{
    forall|k: int| 0 <= k < s.len() ==> (#[trigger] s[k]).fits()
}

/// The lines of the nodes of `s`, one node after the other.
pub open(crate) spec fn lines_of(s: Seq<Item>) -> Seq<(int, Seq<char>)>
    decreases s,
{
    if s.len() == 0 {
        Seq::empty()
    } else {
        lines_of(s.drop_last()) + s.last().lines()
    }
}

impl Item {
    /// The node's own indent.
    pub open(crate) spec fn indent(self) -> int {
        match self {
            Item::Text(n) => n.indent as int,
            Item::Figure(n) => n.indent as int,
            Item::Command(n) => n.indent as int,
            Item::PageBreak(n) => n.indent as int,
            Item::Table(n) => n.indent as int,
            Item::Enumerate(n) => n.indent as int,
            Item::Block(n) => n.indent as int,
            Item::Section(n) => n.indent as int,
            Item::Chapter(n) => n.indent as int,
        }
    }

    /// The nodes that this node owns (a table's rows are not nodes).
    pub open(crate) spec fn children(self) -> Seq<Item> {
        match self {
            Item::Enumerate(n) => n.items@,
            Item::Block(n) => n.items@,
            Item::Section(n) => n.items@,
            Item::Chapter(n) => n.items@,
            _ => Seq::empty(),
        }
    }

    /// The node and everything under it hold the indents that resolution
    /// gives them under a parent of indent `p`.
    pub open(crate) spec fn resolved(self, p: int) -> bool
        decreases self,
    {
        match self {
            Item::Text(n) => leaf_resolved(n.indent, p),
            Item::Figure(n) => leaf_resolved(n.indent, p),
            Item::Command(n) => leaf_resolved(n.indent, p),
            Item::PageBreak(n) => leaf_resolved(n.indent, p),
            Item::Table(n) => n.resolved(p),
            Item::Enumerate(n) => n.resolved(p),
            Item::Block(n) => n.resolved(p),
            Item::Section(n) => n.resolved(p),
            Item::Chapter(n) => n.resolved(p),
        }
    }

    /// Resolution under a parent of indent `p` computes no indent beyond
    /// `usize::MAX`, nor any depth that rendering adds to one.
    pub open(crate) spec fn can_assign(self, p: int) -> bool
        decreases self,
    {
        match self {
            Item::Text(_) => leaf_can_assign(p),
            Item::Figure(_) => leaf_can_assign(p),
            Item::Command(_) => leaf_can_assign(p),
            Item::PageBreak(_) => leaf_can_assign(p),
            Item::Table(n) => n.can_assign(p),
            Item::Enumerate(n) => n.can_assign(p),
            Item::Block(n) => n.can_assign(p),
            Item::Section(n) => n.can_assign(p),
            Item::Chapter(n) => n.can_assign(p),
        }
    }

    /// `o` is the same node as `self`, indents aside, all the way down.
    pub open(crate) spec fn same_content(self, o: Item) -> bool
        decreases self,
    {
        match (self, o) {
            (Item::Text(a), Item::Text(b)) => a.view() == b.view(),
            (Item::Figure(a), Item::Figure(b)) => a.same_content(b),
            (Item::Command(a), Item::Command(b)) => a.view() == b.view(),
            (Item::PageBreak(_), Item::PageBreak(_)) => true,
            (Item::Table(a), Item::Table(b)) => a.same_content(b),
            (Item::Enumerate(a), Item::Enumerate(b)) => a.same_content(b),
            (Item::Block(a), Item::Block(b)) => a.same_content(b),
            (Item::Section(a), Item::Section(b)) => a.same_content(b),
            (Item::Chapter(a), Item::Chapter(b)) => a.same_content(b),
            _ => false,
        }
    }

    /// `o` has the indents of `self`, node for node, all the way down.
    pub open(crate) spec fn same_indents(self, o: Item) -> bool
        decreases self,
    {
        &&& self.indent() == o.indent()
        &&& match (self, o) {
            (Item::Table(a), Item::Table(b)) => a.same_indents(b),
            (Item::Enumerate(a), Item::Enumerate(b)) => all_same_indents(a.items@, b.items@),
            (Item::Block(a), Item::Block(b)) => all_same_indents(a.items@, b.items@),
            (Item::Section(a), Item::Section(b)) => all_same_indents(a.items@, b.items@),
            (Item::Chapter(a), Item::Chapter(b)) => all_same_indents(a.items@, b.items@),
            _ => true,
        }
    }

    /// Rendering computes no depth beyond `usize::MAX`.
    pub open(crate) spec fn fits(self) -> bool
        decreases self,
    {
        match self {
            Item::Figure(n) => n.indent < usize::MAX,
            Item::Table(n) => n.indent < usize::MAX,
            Item::Enumerate(n) => n.fits(),
            Item::Block(n) => n.fits(),
            Item::Section(n) => n.fits(),
            Item::Chapter(n) => n.fits(),
            _ => true,
        }
    }

    /// What the node renders, line by line.
    pub open(crate) spec fn lines(self) -> Seq<(int, Seq<char>)>
        decreases self,
    {
        match self {
            Item::Text(n) => n.lines(),
            Item::Figure(n) => n.lines(),
            Item::Command(n) => n.lines(),
            Item::PageBreak(n) => n.lines(),
            Item::Table(n) => n.lines(),
            Item::Enumerate(n) => n.lines(),
            Item::Block(n) => n.lines(),
            Item::Section(n) => n.lines(),
            Item::Chapter(n) => n.lines(),
        }
    }

    /// Resolves the indents of this node and of everything under it, given
    /// the indent of its parent.
    pub fn update_indent(&mut self, super_indent: usize)
        requires
            old(self).can_assign(super_indent as int),
        ensures
            final(self).resolved(super_indent as int),
            old(self).same_content(*final(self)),
        decreases *old(self),
    {
        match self {
            Item::Text(n) => n.update_indent(super_indent),
            Item::Figure(n) => n.update_indent(super_indent),
            Item::Command(n) => n.update_indent(super_indent),
            Item::PageBreak(n) => n.update_indent(super_indent),
            Item::Table(n) => n.update_indent(super_indent),
            Item::Enumerate(n) => n.update_indent(super_indent),
            Item::Block(n) => n.update_indent(super_indent),
            Item::Section(n) => n.update_indent(super_indent),
            Item::Chapter(n) => n.update_indent(super_indent),
        }
    }

    /// Renders the node with the indents that it holds.
    pub fn build(&self, sink: &mut Sink)
        requires
            self.fits(),
        ensures
            final(sink)@ == old(sink)@ + self.lines(),
        decreases self,
    {
        match self {
            Item::Text(n) => n.build(sink),
            Item::Figure(n) => n.build(sink),
            Item::Command(n) => n.build(sink),
            Item::PageBreak(n) => n.build(sink),
            Item::Table(n) => n.build(sink),
            Item::Enumerate(n) => n.build(sink),
            Item::Block(n) => n.build(sink),
            Item::Section(n) => n.build(sink),
            Item::Chapter(n) => n.build(sink),
        }
    }
}

impl Item {
    /// Whether resolution under a parent of indent `parent` stays within
    /// `usize`.
    pub fn can_resolve(&self, parent: usize) -> (r: bool)
        ensures
            r == self.can_assign(parent as int),
        decreases self,
    {
        match self {
            Item::Text(_) => parent <= usize::MAX - 2,
            Item::Figure(_) => parent <= usize::MAX - 2,
            Item::Command(_) => parent <= usize::MAX - 2,
            Item::PageBreak(_) => parent <= usize::MAX - 2,
            Item::Table(_) => parent <= usize::MAX - 4,
            Item::Enumerate(n) => parent <= usize::MAX - 2 && Item::all_can_resolve(&n.items, parent + 1),
            Item::Block(n) => parent <= usize::MAX - 1 && Item::all_can_resolve(&n.items, parent),
            Item::Section(n) => parent <= usize::MAX - 2 && Item::all_can_resolve(&n.items, parent + 1),
            Item::Chapter(n) => parent <= usize::MAX - 2 && Item::all_can_resolve(&n.items, parent + 1),
        }
    }

    /// Whether each node of `items` can be resolved under a parent of indent
    /// `h`.
    pub fn all_can_resolve(items: &Vec<Item>, h: usize) -> (r: bool)
        ensures
            r == all_can_assign(items@, h as int),
        decreases items,
    {
        let mut i: usize = 0;
        while i < items.len()
            invariant
                i <= items@.len(),
                forall|k: int| 0 <= k < i ==> (#[trigger] items@[k]).can_assign(h as int),
            decreases items@.len() - i,
        {
            proof {
                assert(decreases_to!(items => items@[i as int])) by {
                    broadcast use vstd::std_specs::vec::axiom_vec_index_decreases;

                }
            }
            if !items[i].can_resolve(h) {
                return false;
            }
            i = i + 1;
        }
        true
    }
}

/// A node that can be resolved under a parent of indent `h`, once resolved,
/// can be rendered.
pub proof fn lemma_fit(t: Item, u: Item, p: int)
    requires
        t.can_assign(p),
        t.same_content(u),
        u.resolved(p),
    ensures
        u.fits(),
    decreases t,
{
    match (t, u) {
        (Item::Enumerate(a), Item::Enumerate(b)) => lemma_all_fit(a.items@, b.items@, p + 1),
        (Item::Block(a), Item::Block(b)) => lemma_all_fit(a.items@, b.items@, p),
        (Item::Section(a), Item::Section(b)) => lemma_all_fit(a.items@, b.items@, p + 1),
        (Item::Chapter(a), Item::Chapter(b)) => lemma_all_fit(a.items@, b.items@, p + 1),
        _ => {},
    }
}

pub proof fn lemma_all_fit(a: Seq<Item>, b: Seq<Item>, h: int)
    requires
        all_can_assign(a, h),
        all_same(a, b),
        all_resolved(b, h),
    ensures
        all_fit(b),
    decreases a,
{
    assert forall|k: int| 0 <= k < b.len() implies (#[trigger] b[k]).fits() by {
        lemma_fit(a[k], b[k], h);
    }
}

/// The indent that a resolved node holds: a `Block` keeps its parent's
/// indent, every other node sits one level deeper.
pub proof fn lemma_resolved_indent(x: Item, p: int)
    requires
        x.resolved(p),
    ensures
        x.indent() == p + (if x is Block {
            0int
        } else {
            1int
        }),
{
}

/// In a resolved tree, a container hands its own indent down to each child:
/// a child that is a `Block` keeps it, every other child sits one level
/// deeper. A table hands down the indent of its `tabular` environment, one
/// level deeper than itself, so its rows and rules sit two levels below it.
pub proof fn lemma_child_indents(c: Item, p: int)
    requires
        c.resolved(p),
    ensures
        forall|k: int|
            0 <= k < c.children().len() ==> (#[trigger] c.children()[k]).indent() == c.indent() + (
            if c.children()[k] is Block {
                0int
            } else {
                1int
            }),
        c matches Item::Table(t) ==> forall|k: int|
            0 <= k < t.components().len() ==> (#[trigger] t.components()[k]).indent() == c.indent()
                + 2,
{
    assert forall|k: int| 0 <= k < c.children().len() implies (#[trigger] c.children()[k]).indent()
        == c.indent() + (if c.children()[k] is Block {
        0int
    } else {
        1int
    }) by {
        lemma_resolved_indent(c.children()[k], c.indent());
    }
}

/// Resolving again, from the same parent indent, a tree that is already
/// resolved gives every node the indent that it had.
pub proof fn lemma_resolve_idempotent(t: Item, u: Item, p: int)
    requires
        t.resolved(p),
        t.same_content(u),
        u.resolved(p),
    ensures
        t.same_indents(u),
    decreases t,
{
    match (t, u) {
        (Item::Enumerate(a), Item::Enumerate(b)) => lemma_all_idempotent(a.items@, b.items@, p + 1),
        (Item::Block(a), Item::Block(b)) => lemma_all_idempotent(a.items@, b.items@, p),
        (Item::Section(a), Item::Section(b)) => lemma_all_idempotent(a.items@, b.items@, p + 1),
        (Item::Chapter(a), Item::Chapter(b)) => lemma_all_idempotent(a.items@, b.items@, p + 1),
        _ => {},
    }
}

/// `lemma_resolve_idempotent`, node by node over a list of siblings.
pub proof fn lemma_all_idempotent(a: Seq<Item>, b: Seq<Item>, h: int)
    requires
        all_resolved(a, h),
        all_same(a, b),
        all_resolved(b, h),
    ensures
        all_same_indents(a, b),
    decreases a,
{
    assert forall|k: int| 0 <= k < a.len() implies (#[trigger] a[k]).same_indents(b[k]) by {
        lemma_resolve_idempotent(a[k], b[k], h);
    }
}

/// Resolves each node of `items` under a parent of indent `h`.
pub(crate) fn assign_children(items: &mut Vec<Item>, h: usize)
    requires
        all_can_assign(old(items)@, h as int),
    ensures
        all_resolved(final(items)@, h as int),
        all_same(old(items)@, final(items)@),
    decreases *old(items),
{
    let ghost orig = items@;
    let n = items.len();
    let mut i: usize = 0;
    while i < n
        invariant
            items@.len() == n,
            n == orig.len(),
            orig == old(items)@,
            i <= n,
            all_can_assign(orig, h as int),
            forall|k: int| 0 <= k < i ==> (#[trigger] items@[k]).resolved(h as int),
            forall|k: int| 0 <= k < i ==> orig[k].same_content(#[trigger] items@[k]),
            forall|k: int| i <= k < n ==> (#[trigger] items@[k]) == orig[k],
        decreases n - i,
    {
        let mut child = Item::PageBreak(PageBreak { indent: 0 });
        items.set_and_swap(i, &mut child);
        proof {
            assert(decreases_to!(*old(items) => orig[i as int])) by {
                broadcast use vstd::std_specs::vec::axiom_vec_index_decreases;

            }
            assert(orig[i as int].can_assign(h as int));
        }
        child.update_indent(h);
        items.set_and_swap(i, &mut child);
        i = i + 1;
    }
}

/// Renders the nodes of `items`, in order.
pub(crate) fn build_children(items: &Vec<Item>, sink: &mut Sink)
    requires
        all_fit(items@),
    ensures
        final(sink)@ == old(sink)@ + lines_of(items@),
    decreases items,
{
    let mut i: usize = 0;
    while i < items.len()
        invariant
            all_fit(items@),
            i <= items@.len(),
            sink@ == old(sink)@ + lines_of(items@.subrange(0, i as int)),
        decreases items@.len() - i,
    {
        proof {
            assert(decreases_to!(items => items@[i as int])) by {
                broadcast use vstd::std_specs::vec::axiom_vec_index_decreases;

            }
            assert(items@[i as int].fits());
        }
        items[i].build(sink);
        proof {
            let s = items@.subrange(0, i + 1);
            assert(s.drop_last() =~= items@.subrange(0, i as int));
        }
        i = i + 1;
    }
    assert(items@.subrange(0, items@.len() as int) =~= items@);
}

} // verus!
