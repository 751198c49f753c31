//! The document root: class, packages and global commands before
//! `\begin{document}`, the content tree after it.
use vstd::prelude::*;
use crate::format::{braces, brackets, into_braces, into_brackets, join_strings, joined, views};
use crate::item::{
    all_can_assign, all_fit, all_resolved, all_same, assign_children, build_children, lemma_all_fit,
    Command, Item, lines_of,
};
use crate::sink::{blank, Sink};
use crate::syntax::{
    DEFAULT_FLOAT_PACKAGE, DEFAULT_GRAPHICX_PACKAGE, DEFAULT_PACKAGES_COMMENT,
    DEFAULT_XCOLOR_PACKAGE, DEF_BEGIN_DOCUMENT, DEF_DOCUMENT_CLASS, DEF_END_DOCUMENT, DEF_PACKAGE,
    USER_GLOBAL_COMMANDS_COMMENT, USER_PACKAGES_COMMENT,
};

verus! {

/// The separator between the options of a class or package.
pub const OPTION_SEPARATOR: &'static str = ", ";

/// The kind of document.
#[derive(Clone, Copy, PartialEq, Eq, Structural)]
pub enum ClassType {
    Article,
    Report,
    Book,
    Memoir,
    Letter,
    Beamer,
}

/// The document class and its options.
pub struct DocumentClass {
    pub(crate) class_type: ClassType,
    pub(crate) options: Vec<String>,
}

/// A package to load, with its options.
pub struct Package {
    pub(crate) name: String,
    pub(crate) options: Vec<String>,
}

/// The root of a document. Content is rendered into the sink that the
/// document owns.
pub struct Document {
    pub(crate) file: Sink,
    pub(crate) class: DocumentClass,
    pub(crate) packages: Vec<Package>,
    pub(crate) commands: Vec<Command>,
    pub(crate) items: Vec<Item>,
}

/// The views of a list of borrowed strings.
pub open spec fn str_views(parts: Seq<&str>) -> Seq<Seq<char>> {
    parts.map_values(|p: &str| p@)
}

impl ClassType {
    /// The class name that LaTeX knows.
    pub open spec fn name(self) -> Seq<char> {
        match self {
            ClassType::Article => "article"@,
            ClassType::Report => "report"@,
            ClassType::Book => "book"@,
            ClassType::Memoir => "memoir"@,
            ClassType::Letter => "letter"@,
            ClassType::Beamer => "beamer"@,
        }
    }

    pub fn to_str(&self) -> (r: String)
        ensures
            r@ == self.name(),
    {
        match self {
            ClassType::Article => String::from_str("article"),
            ClassType::Report => String::from_str("report"),
            ClassType::Book => String::from_str("book"),
            ClassType::Memoir => String::from_str("memoir"),
            ClassType::Letter => String::from_str("letter"),
            ClassType::Beamer => String::from_str("beamer"),
        }
    }
}

/// Owned copies of `options`, in order.
fn owned_options(options: &Vec<&str>) -> (r: Vec<String>)
    ensures
        views(r@) == str_views(options@),
{
    let mut r: Vec<String> = Vec::new();
    let mut i: usize = 0;
    while i < options.len()
        invariant
            i <= options@.len(),
            r@.len() == i,
            forall|k: int| 0 <= k < i ==> (#[trigger] r@[k])@ == options@[k]@,
        decreases options@.len() - i,
    {
        r.push(String::from_str(options[i]));
        i = i + 1;
    }
    assert(views(r@) =~= str_views(options@));
    r
}

impl DocumentClass {
    pub open(crate) spec fn class_type(self) -> ClassType {
        self.class_type
    }

    pub open(crate) spec fn options(self) -> Seq<Seq<char>> {
        views(self.options@)
    }

    /// `\documentclass[options]{name}`.
    pub open(crate) spec fn line(self) -> Seq<char> {
        DEF_DOCUMENT_CLASS@ + brackets(joined(self.options(), OPTION_SEPARATOR@)) + braces(
            self.class_type.name(),
        )
    }

    pub fn new(class_type: ClassType, options: Vec<&str>) -> (r: DocumentClass)
        ensures
            r.class_type() == class_type,
            r.options() == str_views(options@),
    {
        DocumentClass { class_type, options: owned_options(&options) }
    }
}

impl Package {
    pub open(crate) spec fn name(self) -> Seq<char> {
        self.name@
    }

    pub open(crate) spec fn options(self) -> Seq<Seq<char>> {
        views(self.options@)
    }

    /// `\usepackage[options]{name}`.
    pub open(crate) spec fn line(self) -> Seq<char> {
        DEF_PACKAGE@ + brackets(joined(self.options(), OPTION_SEPARATOR@)) + braces(self.name@)
    }

    pub fn new(name: &str, options: Vec<&str>) -> (r: Package)
        ensures
            r.name() == name@,
            r.options() == str_views(options@),
    {
        Package { name: String::from_str(name), options: owned_options(&options) }
    }

    /// Writes the package's line.
    pub fn build(&self, sink: &mut Sink)
        ensures
            final(sink)@ == old(sink)@.push((0, self.line())),
    {
        let options = join_strings(&self.options, OPTION_SEPARATOR);
        let mut line = String::from_str(DEF_PACKAGE);
        line.append(into_brackets(&options).as_str());
        line.append(into_braces(&self.name).as_str());
        sink.write_line(0, line.as_str());
    }
}

/// One line per package, in order.
pub open(crate) spec fn package_lines(s: Seq<Package>) -> Seq<(int, Seq<char>)>
    decreases s.len(),
{
    if s.len() == 0 {
        Seq::empty()
    } else {
        package_lines(s.drop_last()) + seq![(0, s.last().line())]
    }
}

/// The lines of the commands, in order.
pub open(crate) spec fn command_lines(s: Seq<Command>) -> Seq<(int, Seq<char>)>
    decreases s.len(),
{
    if s.len() == 0 {
        Seq::empty()
    } else {
        command_lines(s.drop_last()) + s.last().lines()
    }
}

/// The packages that every document loads, under their comment.
pub open spec fn default_package_lines() -> Seq<(int, Seq<char>)> {
    seq![
        (0, DEFAULT_PACKAGES_COMMENT@),
        (0, DEFAULT_FLOAT_PACKAGE@),
        (0, DEFAULT_GRAPHICX_PACKAGE@),
        (0, DEFAULT_XCOLOR_PACKAGE@),
    ]
}

impl Document {
    pub open(crate) spec fn file(self) -> Seq<(int, Seq<char>)> {
        self.file@
    }

    pub open(crate) spec fn class(self) -> DocumentClass {
        self.class
    }

    pub open(crate) spec fn packages(self) -> Seq<Package> {
        self.packages@
    }

    pub open(crate) spec fn commands(self) -> Seq<Command> {
        self.commands@
    }

    pub open(crate) spec fn items(self) -> Seq<Item> {
        self.items@
    }

    /// Everything before the content: the class line, the default packages,
    /// the added packages and the global commands, each part closed by a
    /// blank line, then the begin marker.
    pub open(crate) spec fn preamble_lines(self) -> Seq<(int, Seq<char>)> {
        seq![(0, self.class.line()), blank()] + default_package_lines() + seq![
            (0, USER_PACKAGES_COMMENT@),
        ] + package_lines(self.packages@) + seq![blank(), (0, USER_GLOBAL_COMMANDS_COMMENT@)]
            + command_lines(self.commands@) + seq![blank(), (0, DEF_BEGIN_DOCUMENT@), blank()]
    }

    /// What one build writes: the preamble, the content, the end marker.
    pub open(crate) spec fn lines(self) -> Seq<(int, Seq<char>)> {
        self.preamble_lines() + lines_of(self.items@) + seq![(0, DEF_END_DOCUMENT@)]
    }

    /// Every top-level node can be resolved from indent 0 without overflow.
    pub open(crate) spec fn indents_fit_spec(self) -> bool {
        all_can_assign(self.items@, 0)
    }

    pub fn new(doc_class: DocumentClass) -> (r: Document)
        ensures
            r.file().len() == 0,
            r.class() == doc_class,
            r.packages().len() == 0,
            r.commands().len() == 0,
            r.items().len() == 0,
    {
        Document {
            file: Sink::new(),
            class: doc_class,
            packages: Vec::new(),
            commands: Vec::new(),
            items: Vec::new(),
        }
    }

    /// Appends a top-level node after those already there.
    pub fn add_item(&mut self, item: Item)
        ensures
            final(self).items() == old(self).items().push(item),
            final(self).file() == old(self).file(),
            final(self).class() == old(self).class(),
            final(self).packages() == old(self).packages(),
            final(self).commands() == old(self).commands(),
    {
        self.items.push(item);
    }

    /// Appends packages after those already there.
    pub fn add_packages(&mut self, packages: Vec<Package>)
        ensures
            final(self).packages() == old(self).packages() + packages@,
            final(self).file() == old(self).file(),
            final(self).class() == old(self).class(),
            final(self).commands() == old(self).commands(),
            final(self).items() == old(self).items(),
    {
        let mut packages = packages;
        self.packages.append(&mut packages);
    }

    /// Appends global commands after those already there; they are written
    /// before `\begin{document}`.
    pub fn add_global_commands(&mut self, commands: Vec<Command>)
        ensures
            final(self).commands() == old(self).commands() + commands@,
            final(self).file() == old(self).file(),
            final(self).class() == old(self).class(),
            final(self).packages() == old(self).packages(),
            final(self).items() == old(self).items(),
    {
        let mut commands = commands;
        self.commands.append(&mut commands);
    }

    /// Whether `build` can resolve every indent without overflow.
    pub fn indents_fit(&self) -> (r: bool)
        ensures
            r == self.indents_fit_spec(),
    {
        Item::all_can_resolve(&self.items, 0)
    }

    /// Resolves every indent from 0, then writes the whole document to the
    /// sink: preamble, content, end marker.
    pub fn build(&mut self)
        requires
            old(self).indents_fit_spec(),
        ensures
            all_resolved(final(self).items(), 0),
            all_same(old(self).items(), final(self).items()),
            final(self).class() == old(self).class(),
            final(self).packages() == old(self).packages(),
            final(self).commands() == old(self).commands(),
            final(self).file() == old(self).file() + final(self).lines(),
    {
        self.update_indents();
        proof {
            lemma_all_fit(old(self).items@, self.items@, 0);
        }
        self.build_doc_class();
        self.build_packages();
        self.build_commands();
        self.build_items();
        assert(self.file@ =~= old(self).file@ + self.lines());
    }

    fn update_indents(&mut self)
        requires
            old(self).indents_fit_spec(),
        ensures
            all_resolved(final(self).items@, 0),
            all_same(old(self).items@, final(self).items@),
            final(self).file == old(self).file,
            final(self).class == old(self).class,
            final(self).packages == old(self).packages,
            final(self).commands == old(self).commands,
    {
        assign_children(&mut self.items, 0);
    }

    fn build_doc_class(&mut self)
        ensures
            final(self).file@ == old(self).file@ + seq![(0, old(self).class.line()), blank()],
            final(self).class == old(self).class,
            final(self).packages == old(self).packages,
            final(self).commands == old(self).commands,
            final(self).items == old(self).items,
    {
        let options = join_strings(&self.class.options, OPTION_SEPARATOR);
        let mut line = String::from_str(DEF_DOCUMENT_CLASS);
        line.append(into_brackets(&options).as_str());
        line.append(into_braces(&self.class.class_type.to_str()).as_str());
        self.file.write_line(0, line.as_str());
        self.file.blank_line();
        assert(self.file@ =~= old(self).file@ + seq![(0, old(self).class.line()), blank()]);
    }

    fn build_packages(&mut self)
        ensures
            final(self).file@ == old(self).file@ + default_package_lines() + seq![
                (0, USER_PACKAGES_COMMENT@),
            ] + package_lines(old(self).packages@) + seq![blank()],
            final(self).class == old(self).class,
            final(self).packages == old(self).packages,
            final(self).commands == old(self).commands,
            final(self).items == old(self).items,
    {
        self.build_default_packages();
        self.file.write_line(0, USER_PACKAGES_COMMENT);
        let ghost start = self.file@;
        let mut i: usize = 0;
        while i < self.packages.len()
            invariant
                i <= self.packages@.len(),
                self.class == old(self).class,
                self.packages == old(self).packages,
                self.commands == old(self).commands,
                self.items == old(self).items,
                self.file@ == start + package_lines(self.packages@.subrange(0, i as int)),
            decreases self.packages@.len() - i,
        {
            self.packages[i].build(&mut self.file);
            proof {
                let s = self.packages@.subrange(0, i + 1);
                assert(s.drop_last() =~= self.packages@.subrange(0, i as int));
            }
            i = i + 1;
        }
        assert(self.packages@.subrange(0, self.packages@.len() as int) =~= self.packages@);
        self.file.blank_line();
        assert(self.file@ =~= old(self).file@ + default_package_lines() + seq![
            (0, USER_PACKAGES_COMMENT@),
        ] + package_lines(old(self).packages@) + seq![blank()]);
    }

    fn build_default_packages(&mut self)
        ensures
            final(self).file@ == old(self).file@ + default_package_lines(),
            final(self).class == old(self).class,
            final(self).packages == old(self).packages,
            final(self).commands == old(self).commands,
            final(self).items == old(self).items,
    {
        self.file.write_line(0, DEFAULT_PACKAGES_COMMENT);
        self.file.write_line(0, DEFAULT_FLOAT_PACKAGE);
        self.file.write_line(0, DEFAULT_GRAPHICX_PACKAGE);
        self.file.write_line(0, DEFAULT_XCOLOR_PACKAGE);
        assert(self.file@ =~= old(self).file@ + default_package_lines());
    }

    fn build_commands(&mut self)
        ensures
            final(self).file@ == old(self).file@ + seq![(0, USER_GLOBAL_COMMANDS_COMMENT@)]
                + command_lines(old(self).commands@) + seq![blank()],
            final(self).class == old(self).class,
            final(self).packages == old(self).packages,
            final(self).commands == old(self).commands,
            final(self).items == old(self).items,
    {
        self.file.write_line(0, USER_GLOBAL_COMMANDS_COMMENT);
        let ghost start = self.file@;
        let mut i: usize = 0;
        while i < self.commands.len()
            invariant
                i <= self.commands@.len(),
                self.class == old(self).class,
                self.packages == old(self).packages,
                self.commands == old(self).commands,
                self.items == old(self).items,
                self.file@ == start + command_lines(self.commands@.subrange(0, i as int)),
            decreases self.commands@.len() - i,
        {
            self.commands[i].build(&mut self.file);
            proof {
                let s = self.commands@.subrange(0, i + 1);
                assert(s.drop_last() =~= self.commands@.subrange(0, i as int));
            }
            i = i + 1;
        }
        assert(self.commands@.subrange(0, self.commands@.len() as int) =~= self.commands@);
        self.file.blank_line();
        assert(self.file@ =~= old(self).file@ + seq![(0, USER_GLOBAL_COMMANDS_COMMENT@)]
            + command_lines(old(self).commands@) + seq![blank()]);
    }

    fn build_items(&mut self)
        requires
            all_fit(old(self).items@),
        ensures
            final(self).file@ == old(self).file@ + seq![(0, DEF_BEGIN_DOCUMENT@), blank()]
                + lines_of(old(self).items@) + seq![(0, DEF_END_DOCUMENT@)],
            final(self).class == old(self).class,
            final(self).packages == old(self).packages,
            final(self).commands == old(self).commands,
            final(self).items == old(self).items,
    {
        self.file.write_line(0, DEF_BEGIN_DOCUMENT);
        self.file.blank_line();
        build_children(&self.items, &mut self.file);
        self.file.write_line(0, DEF_END_DOCUMENT);
        assert(self.file@ =~= old(self).file@ + seq![(0, DEF_BEGIN_DOCUMENT@), blank()] + lines_of(
            old(self).items@,
        ) + seq![(0, DEF_END_DOCUMENT@)]);
    }

    /// Writes a blank separator line.
    pub fn add_blank_line(&mut self)
        ensures
            final(self).file() == old(self).file().push(blank()),
            final(self).class() == old(self).class(),
            final(self).packages() == old(self).packages(),
            final(self).commands() == old(self).commands(),
            final(self).items() == old(self).items(),
    {
        self.file.blank_line();
    }

    /// The sink that the document has been written to.
    pub fn get_file(&self) -> (r: &Sink)
        ensures
            r@ == self.file(),
    {
        &self.file
    }
}

} // verus!
