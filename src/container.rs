//! Nodes that own an ordered list of other nodes.
use vstd::prelude::*;
use crate::format::{braces, into_braces, into_label, label_of};
use crate::item::{
    all_can_assign, all_fit, all_resolved, all_same, assign_children, build_children, Item,
    lines_of,
};
use crate::sink::{blank, Sink};
use crate::syntax::{
    DEF_BEGIN_ENUMERATE, DEF_CHAPTER, DEF_END_ENUMERATE, DEF_ITEM_ENUMERATE, DEF_SECTION,
    DEF_SUB_SECTION, DEF_SUB_SUB_SECTION,
};

verus! {

/// A node that owns other nodes and derives their indents from its own.
pub trait Container: Sized {
    /// Each child can take the indent handed down to it without overflow.
    spec fn nested_assignable(&self) -> bool;

    /// Each child holds the indents that follow from this container's own.
    spec fn nested_resolved(&self) -> bool;

    /// `other` holds what `self` holds, its own indent included; its children
    /// differ from those of `self` in their indents alone.
    spec fn same_but_nested(&self, other: Self) -> bool;

    /// Hands this container's indent down to each child, recursively.
    fn update_nested_indent(&mut self)
        requires
            old(self).nested_assignable(),
        ensures
            final(self).nested_resolved(),
            old(self).same_but_nested(*final(self)),
    ;
}

/// A numbered list: each child becomes one `\item`.
pub struct Enumerate {
    pub(crate) items: Vec<Item>,
    pub(crate) label: String,
    pub(crate) indent: usize,
}

/// A transparent group: it emits nothing of its own and keeps its parent's
/// indent, so that several nodes can stand under one list item.
pub struct Block {
    pub(crate) items: Vec<Item>,
    pub(crate) indent: usize,
}

/// The level of a `Section`.
#[derive(Clone, Copy, PartialEq, Eq, Structural)]
pub enum SectionType {
    Section,
    SubSection,
    SubSubSection,
}

/// A section, subsection or subsubsection with its content.
pub struct Section {
    pub(crate) name: String,
    pub(crate) sec_type: SectionType,
    pub(crate) display_num: bool,
    pub(crate) items: Vec<Item>,
    pub(crate) label: String,
    pub(crate) indent: usize,
}

/// A chapter with its content.
pub struct Chapter {
    pub(crate) name: String,
    pub(crate) display_num: bool,
    pub(crate) items: Vec<Item>,
    pub(crate) label: String,
    pub(crate) indent: usize,
}

/// The heading line of a section or chapter: the command, a star when the
/// heading is not numbered, the braced name and the label.
pub open(crate) spec fn heading(def: Seq<char>, display_num: bool, name: Seq<char>, label: Seq<char>) -> Seq<char> {
    def + (if display_num {
        Seq::empty()
    } else {
        seq!['*']
    }) + braces(name) + seq![' '] + label_of(label)
}

/// Each node of `s` on its own list item, at depth `d`.
pub open(crate) spec fn enumerated(s: Seq<Item>, d: int) -> Seq<(int, Seq<char>)>
    decreases s,
{
    if s.len() == 0 {
        Seq::empty()
    } else {
        enumerated(s.drop_last(), d) + seq![(d, DEF_ITEM_ENUMERATE@)] + s.last().lines()
    }
}

/// Each node of `items` under its own `\item` at depth `depth`.
fn build_enumerated(items: &Vec<Item>, depth: usize, sink: &mut Sink)
    requires
        all_fit(items@),
    ensures
        final(sink)@ == old(sink)@ + enumerated(items@, depth as int),
    decreases items,
{
    let mut i: usize = 0;
    while i < items.len()
        invariant
            all_fit(items@),
            i <= items@.len(),
            sink@ == old(sink)@ + enumerated(items@.subrange(0, i as int), depth as int),
        decreases items@.len() - i,
    {
        sink.write_line(depth, DEF_ITEM_ENUMERATE);
        proof {
            assert(decreases_to!(items => items@[i as int])) by {
                broadcast use vstd::std_specs::vec::axiom_vec_index_decreases;

            }
            assert(items@[i as int].fits());
        }
        items[i].build(sink);
        proof {
            let s = items@.subrange(0, i + 1);
            assert(s.drop_last() =~= items@.subrange(0, i as int));
        }
        i = i + 1;
    }
    assert(items@.subrange(0, items@.len() as int) =~= items@);
}

fn build_heading(
    def: &str,
    display_num: bool,
    name: &String,
    label: &String,
    indent: usize,
    sink: &mut Sink,
)
    ensures
        final(sink)@ == old(sink)@ + seq![(indent as int, heading(def@, display_num, name@, label@)), blank()],
{
    let mut line = String::from_str(def);
    if !display_num {
        line.append("*");
    }
    line.append(into_braces(name).as_str());
    line.append(" ");
    line.append(into_label(label).as_str());
    proof {
        reveal_strlit("*");
        reveal_strlit(" ");
    }
    assert(line@ =~= heading(def@, display_num, name@, label@));
    sink.write_line(indent, line.as_str());
    sink.blank_line();
    assert(sink@ =~= old(sink)@ + seq![(indent as int, heading(def@, display_num, name@, label@)), blank()]);
}

impl Enumerate {
    pub open(crate) spec fn items(self) -> Seq<Item> {
        self.items@
    }

    pub open(crate) spec fn label(self) -> Seq<char> {
        self.label@
    }

    pub open(crate) spec fn indent(self) -> usize {
        self.indent
    }

    pub open(crate) spec fn resolved(self, p: int) -> bool
        decreases self,
    {
        self.indent == p + 1 && all_resolved(self.items@, self.indent as int)
    }

    pub open(crate) spec fn can_assign(self, p: int) -> bool
        decreases self,
    {
        0 <= p && p + 2 <= usize::MAX && all_can_assign(self.items@, p + 1)
    }

    pub open(crate) spec fn same_content(self, o: Enumerate) -> bool
        decreases self,
    {
        self.label@ == o.label@ && all_same(self.items@, o.items@)
    }

    pub open(crate) spec fn fits(self) -> bool
        decreases self,
    {
        self.indent < usize::MAX && all_fit(self.items@)
    }

    /// `\begin{enumerate} \label{label}`.
    pub open(crate) spec fn header(self) -> Seq<char> {
        DEF_BEGIN_ENUMERATE@ + seq![' '] + label_of(self.label@)
    }

    /// Header, one `\item` line before each child, end marker.
    pub open(crate) spec fn lines(self) -> Seq<(int, Seq<char>)>
        decreases self,
    {
        let d = self.indent as int;
        seq![(d, self.header()), blank()] + enumerated(self.items@, d + 1) + seq![
            (d, DEF_END_ENUMERATE@),
            blank(),
        ]
    }

    pub fn new(label: &str) -> (r: Enumerate)
        ensures
            r.items().len() == 0,
            r.label() == label@,
            r.indent() == 0,
    {
        Enumerate { items: Vec::new(), label: String::from_str(label), indent: 0 }
    }

    /// Appends a child after those already there.
    pub fn add_item(&mut self, item: Item)
        ensures
            final(self).items() == old(self).items().push(item),
            final(self).label() == old(self).label(),
            final(self).indent() == old(self).indent(),
    {
        self.items.push(item);
    }

    pub fn update_indent(&mut self, super_indent: usize)
        requires
            old(self).can_assign(super_indent as int),
        ensures
            final(self).resolved(super_indent as int),
            old(self).same_content(*final(self)),
        decreases *old(self),
    {
        self.indent = super_indent + 1;
        assign_children(&mut self.items, self.indent);
    }

    /// `\begin{enumerate} \label{label}`, then a blank line.
    fn build_header(&self, sink: &mut Sink)
        ensures
            final(sink)@ == old(sink)@ + seq![(self.indent as int, self.header()), blank()],
    {
        let mut header = String::from_str(DEF_BEGIN_ENUMERATE);
        header.append(" ");
        header.append(into_label(&self.label).as_str());
        proof {
            reveal_strlit(" ");
        }
        assert(header@ =~= self.header());
        sink.write_line(self.indent, header.as_str());
        sink.blank_line();
        assert(sink@ =~= old(sink)@ + seq![(self.indent as int, self.header()), blank()]);
    }

    /// `\end{enumerate}`, then a blank line.
    fn build_end(&self, sink: &mut Sink)
        ensures
            final(sink)@ == old(sink)@ + seq![(self.indent as int, DEF_END_ENUMERATE@), blank()],
    {
        sink.write_line(self.indent, DEF_END_ENUMERATE);
        sink.blank_line();
        assert(sink@ =~= old(sink)@ + seq![(self.indent as int, DEF_END_ENUMERATE@), blank()]);
    }

    pub fn build(&self, sink: &mut Sink)
        requires
            self.fits(),
        ensures
            final(sink)@ == old(sink)@ + self.lines(),
        decreases self,
    {
        self.build_header(sink);
        build_enumerated(&self.items, self.indent + 1, sink);
        self.build_end(sink);
        assert(sink@ =~= old(sink)@ + self.lines());
    }
}

impl Container for Enumerate {
    open(crate) spec fn nested_assignable(&self) -> bool {
        all_can_assign(self.items@, self.indent as int)
    }

    open(crate) spec fn nested_resolved(&self) -> bool {
        all_resolved(self.items@, self.indent as int)
    }

    open(crate) spec fn same_but_nested(&self, other: Self) -> bool {
        self.indent == other.indent && self.same_content(other)
    }

    fn update_nested_indent(&mut self) {
        assign_children(&mut self.items, self.indent);
    }
}

impl Block {
    pub open(crate) spec fn items(self) -> Seq<Item> {
        self.items@
    }

    pub open(crate) spec fn indent(self) -> usize {
        self.indent
    }

    pub open(crate) spec fn resolved(self, p: int) -> bool
        decreases self,
    {
        self.indent == p && all_resolved(self.items@, self.indent as int)
    }

    pub open(crate) spec fn can_assign(self, p: int) -> bool
        decreases self,
    {
        0 <= p && p + 1 <= usize::MAX && all_can_assign(self.items@, p)
    }

    pub open(crate) spec fn same_content(self, o: Block) -> bool
        decreases self,
    {
        all_same(self.items@, o.items@)
    }

    pub open(crate) spec fn fits(self) -> bool
        decreases self,
    {
        self.indent < usize::MAX && all_fit(self.items@)
    }

    /// The children's lines, in order, and nothing else.
    pub open(crate) spec fn lines(self) -> Seq<(int, Seq<char>)>
        decreases self,
    {
        lines_of(self.items@)
    }

    pub fn new() -> (r: Block)
        ensures
            r.items().len() == 0,
            r.indent() == 0,
    {
        Block { items: Vec::new(), indent: 0 }
    }

    /// Appends a child after those already there.
    pub fn add_item(&mut self, item: Item)
        ensures
            final(self).items() == old(self).items().push(item),
            final(self).indent() == old(self).indent(),
    {
        self.items.push(item);
    }

    pub fn update_indent(&mut self, super_indent: usize)
        requires
            old(self).can_assign(super_indent as int),
        ensures
            final(self).resolved(super_indent as int),
            old(self).same_content(*final(self)),
        decreases *old(self),
    {
        self.indent = super_indent;
        assign_children(&mut self.items, self.indent);
    }

    pub fn build(&self, sink: &mut Sink)
        requires
            self.fits(),
        ensures
            final(sink)@ == old(sink)@ + self.lines(),
        decreases self,
    {
        build_children(&self.items, sink);
    }
}

impl Container for Block {
    open(crate) spec fn nested_assignable(&self) -> bool {
        all_can_assign(self.items@, self.indent as int)
    }

    open(crate) spec fn nested_resolved(&self) -> bool {
        all_resolved(self.items@, self.indent as int)
    }

    open(crate) spec fn same_but_nested(&self, other: Self) -> bool {
        self.indent == other.indent && self.same_content(other)
    }

    fn update_nested_indent(&mut self) {
        assign_children(&mut self.items, self.indent);
    }
}

impl SectionType {
    pub open spec fn def_spec(self) -> Seq<char> {
        match self {
            SectionType::Section => DEF_SECTION@,
            SectionType::SubSection => DEF_SUB_SECTION@,
            SectionType::SubSubSection => DEF_SUB_SUB_SECTION@,
        }
    }

    /// The sectioning command of this level.
    pub fn get_def(&self) -> (r: &'static str)
        ensures
            r@ == self.def_spec(),
    {
        match self {
            SectionType::Section => DEF_SECTION,
            SectionType::SubSection => DEF_SUB_SECTION,
            SectionType::SubSubSection => DEF_SUB_SUB_SECTION,
        }
    }
}

impl Section {
    pub open(crate) spec fn name(self) -> Seq<char> {
        self.name@
    }

    pub open(crate) spec fn sec_type(self) -> SectionType {
        self.sec_type
    }

    pub open(crate) spec fn display_num(self) -> bool {
        self.display_num
    }

    pub open(crate) spec fn items(self) -> Seq<Item> {
        self.items@
    }

    pub open(crate) spec fn label(self) -> Seq<char> {
        self.label@
    }

    pub open(crate) spec fn indent(self) -> usize {
        self.indent
    }

    pub open(crate) spec fn resolved(self, p: int) -> bool
        decreases self,
    {
        self.indent == p + 1 && all_resolved(self.items@, self.indent as int)
    }

    pub open(crate) spec fn can_assign(self, p: int) -> bool
        decreases self,
    {
        0 <= p && p + 2 <= usize::MAX && all_can_assign(self.items@, p + 1)
    }

    pub open(crate) spec fn same_content(self, o: Section) -> bool
        decreases self,
    {
        &&& self.name@ == o.name@
        &&& self.sec_type == o.sec_type
        &&& self.display_num == o.display_num
        &&& self.label@ == o.label@
        &&& all_same(self.items@, o.items@)
    }

    pub open(crate) spec fn fits(self) -> bool
        decreases self,
    {
        self.indent < usize::MAX && all_fit(self.items@)
    }

    /// The heading, a blank line, then the children.
    pub open(crate) spec fn lines(self) -> Seq<(int, Seq<char>)>
        decreases self,
    {
        seq![
            (self.indent as int, heading(self.sec_type.def_spec(), self.display_num, self.name@, self.label@)),
            blank(),
        ] + lines_of(self.items@)
    }

    pub fn new(name: &str, sec_type: SectionType, display_num: bool, label: &str) -> (r: Section)
        ensures
            r.name() == name@,
            r.sec_type() == sec_type,
            r.display_num() == display_num,
            r.items().len() == 0,
            r.label() == label@,
            r.indent() == 0,
    {
        Section {
            name: String::from_str(name),
            sec_type,
            display_num,
            items: Vec::new(),
            label: String::from_str(label),
            indent: 0,
        }
    }

    /// Appends a child after those already there.
    pub fn add_item(&mut self, item: Item)
        ensures
            final(self).items() == old(self).items().push(item),
            final(self).name() == old(self).name(),
            final(self).sec_type() == old(self).sec_type(),
            final(self).display_num() == old(self).display_num(),
            final(self).label() == old(self).label(),
            final(self).indent() == old(self).indent(),
    {
        self.items.push(item);
    }

    pub fn update_indent(&mut self, super_indent: usize)
        requires
            old(self).can_assign(super_indent as int),
        ensures
            final(self).resolved(super_indent as int),
            old(self).same_content(*final(self)),
        decreases *old(self),
    {
        self.indent = super_indent + 1;
        assign_children(&mut self.items, self.indent);
    }

    pub fn build(&self, sink: &mut Sink)
        requires
            self.fits(),
        ensures
            final(sink)@ == old(sink)@ + self.lines(),
        decreases self,
    {
        build_heading(self.sec_type.get_def(), self.display_num, &self.name, &self.label, self.indent, sink);
        build_children(&self.items, sink);
        assert(sink@ =~= old(sink)@ + self.lines());
    }
}

impl Container for Section {
    open(crate) spec fn nested_assignable(&self) -> bool {
        all_can_assign(self.items@, self.indent as int)
    }

    open(crate) spec fn nested_resolved(&self) -> bool {
        all_resolved(self.items@, self.indent as int)
    }

    open(crate) spec fn same_but_nested(&self, other: Self) -> bool {
        self.indent == other.indent && self.same_content(other)
    }

    fn update_nested_indent(&mut self) {
        assign_children(&mut self.items, self.indent);
    }
}

impl Chapter {
    pub open(crate) spec fn name(self) -> Seq<char> {
        self.name@
    }

    pub open(crate) spec fn display_num(self) -> bool {
        self.display_num
    }

    pub open(crate) spec fn items(self) -> Seq<Item> {
        self.items@
    }

    pub open(crate) spec fn label(self) -> Seq<char> {
        self.label@
    }

    pub open(crate) spec fn indent(self) -> usize {
        self.indent
    }

    pub open(crate) spec fn resolved(self, p: int) -> bool
        decreases self,
    {
        self.indent == p + 1 && all_resolved(self.items@, self.indent as int)
    }

    pub open(crate) spec fn can_assign(self, p: int) -> bool
        decreases self,
    {
        0 <= p && p + 2 <= usize::MAX && all_can_assign(self.items@, p + 1)
    }

    pub open(crate) spec fn same_content(self, o: Chapter) -> bool
        decreases self,
    {
        &&& self.name@ == o.name@
        &&& self.display_num == o.display_num
        &&& self.label@ == o.label@
        &&& all_same(self.items@, o.items@)
    }

    pub open(crate) spec fn fits(self) -> bool
        decreases self,
    {
        self.indent < usize::MAX && all_fit(self.items@)
    }

    /// The heading, a blank line, then the children.
    pub open(crate) spec fn lines(self) -> Seq<(int, Seq<char>)>
        decreases self,
    {
        seq![(self.indent as int, heading(DEF_CHAPTER@, self.display_num, self.name@, self.label@)), blank()]
            + lines_of(self.items@)
    }

    pub fn new(name: &str, display_num: bool, label: &str) -> (r: Chapter)
        ensures
            r.name() == name@,
            r.display_num() == display_num,
            r.items().len() == 0,
            r.label() == label@,
            r.indent() == 0,
    {
        Chapter {
            name: String::from_str(name),
            display_num,
            items: Vec::new(),
            label: String::from_str(label),
            indent: 0,
        }
    }

    /// Appends a child after those already there.
    pub fn add_item(&mut self, item: Item)
        ensures
            final(self).items() == old(self).items().push(item),
            final(self).name() == old(self).name(),
            final(self).display_num() == old(self).display_num(),
            final(self).label() == old(self).label(),
            final(self).indent() == old(self).indent(),
    {
        self.items.push(item);
    }

    pub fn update_indent(&mut self, super_indent: usize)
        requires
            old(self).can_assign(super_indent as int),
        ensures
            final(self).resolved(super_indent as int),
            old(self).same_content(*final(self)),
        decreases *old(self),
    {
        self.indent = super_indent + 1;
        assign_children(&mut self.items, self.indent);
    }

    pub fn build(&self, sink: &mut Sink)
        requires
            self.fits(),
        ensures
            final(sink)@ == old(sink)@ + self.lines(),
        decreases self,
    {
        build_heading(DEF_CHAPTER, self.display_num, &self.name, &self.label, self.indent, sink);
        build_children(&self.items, sink);
        assert(sink@ =~= old(sink)@ + self.lines());
    }
}

impl Container for Chapter {
    open(crate) spec fn nested_assignable(&self) -> bool {
        all_can_assign(self.items@, self.indent as int)
    }

    open(crate) spec fn nested_resolved(&self) -> bool {
        all_resolved(self.items@, self.indent as int)
    }

    open(crate) spec fn same_but_nested(&self, other: Self) -> bool {
        self.indent == other.indent && self.same_content(other)
    }

    fn update_nested_indent(&mut self) {
        assign_children(&mut self.items, self.indent);
    }
}

} // verus!
