//! Tables: a container of rows and horizontal rules, rendered inside a
//! `tabular` environment one level deeper than the table itself.
use vstd::prelude::*;
use crate::container::Container;
use crate::format::{braces, brackets, joined, into_braces, into_brackets, into_label, label_of};
use crate::item::{build_caption, build_centering, caption_lines, caption_view, centering_lines, leaf_can_assign, Text};
use crate::sink::{blank, Sink};
use crate::syntax::{
    DEF_BEGIN_TABLE, DEF_BEGIN_TABULAR, DEF_CELL_SEPARATOR,
    DEF_END_TABLE, DEF_END_TABULAR, DEF_HORIZONTAL_LINE, DEF_ROW_END,
};

verus! {

/// A table of rows and horizontal rules, with optional centering and caption.
pub struct Table {
    pub(crate) positioning: String,
    pub(crate) options: String,
    pub(crate) components: Vec<TableComponent>,
    pub(crate) centered: bool,
    pub(crate) caption: Option<Text>,
    pub(crate) label: String,
    pub(crate) indent: usize,
}

/// What a table holds: a row of cells or a horizontal rule.
pub enum TableComponent {
    HorizontalLine(HorizontalLine),
    TableRow(TableRow),
}

/// A horizontal rule across the table.
pub struct HorizontalLine {
    pub(crate) indent: usize,
}

/// One row of cells.
pub struct TableRow {
    pub(crate) content: Vec<Text>,
    pub(crate) indent: usize,
}

/// The lines of the components of `s`, one after the other.
pub open(crate) spec fn component_lines(s: Seq<TableComponent>) -> Seq<(int, Seq<char>)>
    decreases s.len(),
{
    if s.len() == 0 {
        Seq::empty()
    } else {
        component_lines(s.drop_last()) + seq![s.last().line()]
    }
}

impl TableComponent {
    pub open(crate) spec fn indent(self) -> int {
        match self {
            TableComponent::HorizontalLine(c) => c.indent as int,
            TableComponent::TableRow(c) => c.indent as int,
        }
    }

    pub open(crate) spec fn same_content(self, o: TableComponent) -> bool {
        match (self, o) {
            (TableComponent::HorizontalLine(_), TableComponent::HorizontalLine(_)) => true,
            (TableComponent::TableRow(a), TableComponent::TableRow(b)) => a.cells() == b.cells(),
            _ => false,
        }
    }

    /// The single line that the component renders.
    pub open(crate) spec fn line(self) -> (int, Seq<char>) {
        match self {
            TableComponent::HorizontalLine(c) => (c.indent as int, DEF_HORIZONTAL_LINE@),
            TableComponent::TableRow(c) => (
                c.indent as int,
                joined(c.cells(), DEF_CELL_SEPARATOR@) + DEF_ROW_END@,
            ),
        }
    }

    pub fn update_indent(&mut self, super_indent: usize)
        requires
            leaf_can_assign(super_indent as int),
        ensures
            final(self).indent() == super_indent + 1,
            old(self).same_content(*final(self)),
    {
        match self {
            TableComponent::HorizontalLine(c) => c.indent = super_indent + 1,
            TableComponent::TableRow(c) => c.indent = super_indent + 1,
        }
    }

    pub fn build(&self, sink: &mut Sink)
        ensures
            final(sink)@ == old(sink)@.push(self.line()),
    {
        match self {
            TableComponent::HorizontalLine(c) => sink.write_line(c.indent, DEF_HORIZONTAL_LINE),
            TableComponent::TableRow(c) => c.build(sink),
        }
    }
}

impl HorizontalLine {
    pub open(crate) spec fn indent(self) -> usize {
        self.indent
    }

    pub fn new() -> (r: HorizontalLine)
        ensures
            r.indent() == 0,
    {
        HorizontalLine { indent: 0 }
    }
}

impl TableRow {
    pub open(crate) spec fn content(self) -> Seq<Text> {
        self.content@
    }

    pub open(crate) spec fn indent(self) -> usize {
        self.indent
    }

    /// The texts of the cells.
    pub open(crate) spec fn cells(self) -> Seq<Seq<char>> {
        self.content@.map_values(|t: Text| t.view())
    }

    pub fn new(content: Vec<Text>) -> (r: TableRow)
        ensures
            r.content() == content@,
            r.indent() == 0,
    {
        TableRow { content, indent: 0 }
    }

    fn build(&self, sink: &mut Sink)
        ensures
            final(sink)@ == old(sink)@.push(TableComponent::TableRow(*self).line()),
    {
        let mut row = String::new();
        let mut i: usize = 0;
        while i < self.content.len()
            invariant
                i <= self.content@.len(),
                row@ == joined(self.cells().subrange(0, i as int), DEF_CELL_SEPARATOR@),
            decreases self.content@.len() - i,
        {
            if i > 0 {
                row.append(DEF_CELL_SEPARATOR);
            }
            row.append(self.content[i].get_string().as_str());
            proof {
                let s = self.cells().subrange(0, i + 1);
                assert(s.drop_last() =~= self.cells().subrange(0, i as int));
                if i == 0 {
                    assert(row@ =~= joined(s, DEF_CELL_SEPARATOR@));
                }
            }
            i = i + 1;
        }
        assert(self.cells().subrange(0, self.content@.len() as int) =~= self.cells());
        row.append(DEF_ROW_END);
        sink.write_line(self.indent, row.as_str());
    }
}

impl Table {
    pub open(crate) spec fn positioning(self) -> Seq<char> {
        self.positioning@
    }

    pub open(crate) spec fn options(self) -> Seq<char> {
        self.options@
    }

    pub open(crate) spec fn components(self) -> Seq<TableComponent> {
        self.components@
    }

    pub open(crate) spec fn centered(self) -> bool {
        self.centered
    }

    pub open(crate) spec fn caption(self) -> Option<Text> {
        self.caption
    }

    pub open(crate) spec fn label(self) -> Seq<char> {
        self.label@
    }

    pub open(crate) spec fn indent(self) -> usize {
        self.indent
    }

    /// The table and its components hold the indents that resolution gives
    /// them under a parent of indent `p`: the components sit one level
    /// deeper than the `tabular` environment, itself one deeper than the
    /// table.
    pub open(crate) spec fn resolved(self, p: int) -> bool {
        &&& self.indent == p + 1
        &&& forall|k: int|
            0 <= k < self.components@.len() ==> (#[trigger] self.components@[k]).indent() == self.indent
                + 2
    }

    pub open(crate) spec fn can_assign(self, p: int) -> bool {
        0 <= p && p + 4 <= usize::MAX
    }

    pub open(crate) spec fn same_content(self, o: Table) -> bool {
        &&& self.positioning@ == o.positioning@
        &&& self.options@ == o.options@
        &&& self.components@.len() == o.components@.len()
        &&& forall|k: int|
            0 <= k < self.components@.len() ==> (#[trigger] self.components@[k]).same_content(
                o.components@[k],
            )
        &&& self.centered == o.centered
        &&& caption_view(self.caption) == caption_view(o.caption)
        &&& self.label@ == o.label@
    }

    pub open(crate) spec fn same_indents(self, o: Table) -> bool {
        &&& self.components@.len() == o.components@.len()
        &&& forall|k: int|
            0 <= k < self.components@.len() ==> (#[trigger] self.components@[k]).indent()
                == o.components@[k].indent()
    }

    /// `\begin{table}[positioning] \label{label}`.
    pub open(crate) spec fn header(self) -> Seq<char> {
        DEF_BEGIN_TABLE@ + brackets(self.positioning@) + seq![' '] + label_of(self.label@)
    }

    /// The `tabular` environment at depth `d`, its components inside it.
    pub open(crate) spec fn tabular_lines(self, d: int) -> Seq<(int, Seq<char>)> {
        seq![(d, DEF_BEGIN_TABULAR@ + braces(self.options@))] + component_lines(self.components@)
            + seq![(d, DEF_END_TABULAR@)]
    }

    /// Header; centering, the `tabular` environment and the caption one level
    /// deeper; end marker.
    pub open(crate) spec fn lines(self) -> Seq<(int, Seq<char>)> {
        let d = self.indent as int;
        seq![(d, self.header())] + centering_lines(self.centered, d + 1) + self.tabular_lines(d + 1)
            + caption_lines(self.caption, d + 1) + seq![(d, DEF_END_TABLE@), blank()]
    }

    pub fn new(positioning: &str, options: &str, centered: bool, caption: Option<Text>, label: &str) -> (r: Table)
        ensures
            r.positioning() == positioning@,
            r.options() == options@,
            r.components().len() == 0,
            r.centered() == centered,
            r.caption() == caption,
            r.label() == label@,
            r.indent() == 0,
    {
        Table {
            positioning: String::from_str(positioning),
            options: String::from_str(options),
            components: Vec::new(),
            centered,
            caption,
            label: String::from_str(label),
            indent: 0,
        }
    }

    /// Appends a row or rule after those already there.
    pub fn add_component(&mut self, component: TableComponent)
        ensures
            final(self).components() == old(self).components().push(component),
            final(self).positioning() == old(self).positioning(),
            final(self).options() == old(self).options(),
            final(self).centered() == old(self).centered(),
            final(self).caption() == old(self).caption(),
            final(self).label() == old(self).label(),
            final(self).indent() == old(self).indent(),
    {
        self.components.push(component);
    }

    fn assign_components(&mut self)
        requires
            old(self).indent() as int + 3 <= usize::MAX,
        ensures
            final(self).resolved(old(self).indent() as int - 1),
            old(self).same_content(*final(self)),
            final(self).indent() == old(self).indent(),
    {
        let h = self.indent + 1;
        let n = self.components.len();
        let ghost orig = self.components@;
        let mut i: usize = 0;
        while i < n
            invariant
                self.components@.len() == n,
                n == orig.len(),
                orig == old(self).components(),
                h == self.indent + 1,
                self.indent == old(self).indent,
                self.positioning == old(self).positioning,
                self.options == old(self).options,
                self.centered == old(self).centered,
                self.caption == old(self).caption,
                self.label == old(self).label,
                h + 2 <= usize::MAX,
                i <= n,
                forall|k: int| 0 <= k < i ==> (#[trigger] self.components@[k]).indent() == h + 1,
                forall|k: int| 0 <= k < i ==> orig[k].same_content(#[trigger] self.components@[k]),
                forall|k: int| i <= k < n ==> (#[trigger] self.components@[k]) == orig[k],
            decreases n - i,
        {
            let mut c = TableComponent::HorizontalLine(HorizontalLine { indent: 0 });
            self.components.set_and_swap(i, &mut c);
            c.update_indent(h);
            self.components.set_and_swap(i, &mut c);
            i = i + 1;
        }
    }

    pub fn update_indent(&mut self, super_indent: usize)
        requires
            old(self).can_assign(super_indent as int),
        ensures
            final(self).resolved(super_indent as int),
            old(self).same_content(*final(self)),
    {
        self.indent = super_indent + 1;
        self.assign_components();
    }

    /// `\begin{table}[positioning] \label{label}`, at the table's indent.
    fn build_header(&self, sink: &mut Sink)
        ensures
            final(sink)@ == old(sink)@.push((self.indent as int, self.header())),
    {
        let mut header = String::from_str(DEF_BEGIN_TABLE);
        header.append(into_brackets(&self.positioning).as_str());
        header.append(" ");
        header.append(into_label(&self.label).as_str());
        proof {
            reveal_strlit(" ");
        }
        assert(header@ =~= self.header());
        sink.write_line(self.indent, header.as_str());
    }

    /// The `tabular` environment with each component inside it.
    fn build_tabular(&self, sink: &mut Sink, inner_indent: usize)
        ensures
            final(sink)@ == old(sink)@ + self.tabular_lines(inner_indent as int),
    {
        let mut tabular = String::from_str(DEF_BEGIN_TABULAR);
        tabular.append(into_braces(&self.options).as_str());
        assert(tabular@ =~= DEF_BEGIN_TABULAR@ + braces(self.options@));
        sink.write_line(inner_indent, tabular.as_str());
        let ghost start = sink@;
        let mut i: usize = 0;
        while i < self.components.len()
            invariant
                i <= self.components@.len(),
                sink@ == start + component_lines(self.components@.subrange(0, i as int)),
            decreases self.components@.len() - i,
        {
            self.components[i].build(sink);
            proof {
                let s = self.components@.subrange(0, i + 1);
                assert(s.drop_last() =~= self.components@.subrange(0, i as int));
            }
            i = i + 1;
        }
        assert(self.components@.subrange(0, self.components@.len() as int) =~= self.components@);
        sink.write_line(inner_indent, DEF_END_TABULAR);
        assert(sink@ =~= old(sink)@ + self.tabular_lines(inner_indent as int));
    }

    /// `\end{table}` at the table's indent, then a blank line.
    fn build_end(&self, sink: &mut Sink)
        ensures
            final(sink)@ == old(sink)@ + seq![(self.indent as int, DEF_END_TABLE@), blank()],
    {
        sink.write_line(self.indent, DEF_END_TABLE);
        sink.blank_line();
        assert(sink@ =~= old(sink)@ + seq![(self.indent as int, DEF_END_TABLE@), blank()]);
    }

    pub fn build(&self, sink: &mut Sink)
        requires
            self.indent() < usize::MAX,
        ensures
            final(sink)@ == old(sink)@ + self.lines(),
    {
        let inner_indent = self.indent + 1;
        self.build_header(sink);
        build_centering(self.centered, inner_indent, sink);
        self.build_tabular(sink, inner_indent);
        build_caption(&self.caption, inner_indent, sink);
        self.build_end(sink);
        assert(sink@ =~= old(sink)@ + self.lines());
    }
}

impl Container for Table {
    open(crate) spec fn nested_assignable(&self) -> bool {
        self.indent as int + 3 <= usize::MAX
    }

    open(crate) spec fn nested_resolved(&self) -> bool {
        forall|k: int|
            0 <= k < self.components@.len() ==> (#[trigger] self.components@[k]).indent() == self.indent
                + 2
    }

    open(crate) spec fn same_but_nested(&self, other: Self) -> bool {
        self.indent == other.indent && self.same_content(other)
    }

    fn update_nested_indent(&mut self) {
        self.assign_components();
    }
}

} // verus!
