use latex_builder::container::{Block, Chapter, Enumerate, Section, SectionType};
use latex_builder::item::{Command, Figure, Item, PageBreak, Text};
use latex_builder::sink::Sink;
use latex_builder::table::{HorizontalLine, Table, TableComponent, TableRow};

fn lines_of(sink: &Sink) -> Vec<(usize, String)> {
    (0..sink.len()).map(|i| {
        let l = sink.line(i);
        (l.depth, l.text.clone())
    }).collect()
}

fn render(item: &Item) -> Vec<(usize, String)> {
    let mut sink = Sink::new();
    item.build(&mut sink);
    lines_of(&sink)
}

fn depth_of(lines: &[(usize, String)], text: &str) -> usize {
    lines.iter().find(|(_, t)| t == text).map(|(d, _)| *d).unwrap()
}

fn nested_tree() -> Item {
    let mut block = Block::new();
    block.add_item(Item::Text(Text::new("in block")));
    let mut list = Enumerate::new("lst");
    list.add_item(Item::Text(Text::new("in list")));
    let mut section = Section::new("S", SectionType::Section, true, "s");
    section.add_item(Item::Text(Text::new("in section")));
    section.add_item(Item::Block(block));
    section.add_item(Item::Enumerate(list));
    Item::Section(section)
}

#[test]
fn children_of_deepening_containers_sit_one_level_deeper() {
    let mut tree = nested_tree();
    tree.update_indent(0);
    let lines = render(&tree);
    assert_eq!(depth_of(&lines, r"\section{S} \label{s}"), 1);
    assert_eq!(depth_of(&lines, "in section"), 2);
    assert_eq!(depth_of(&lines, r"\begin{enumerate} \label{lst}"), 2);
    assert_eq!(depth_of(&lines, "in list"), 3);
}

#[test]
fn block_passes_its_parent_indent_through() {
    let mut tree = nested_tree();
    tree.update_indent(0);
    let lines = render(&tree);
    // The block keeps the section's indent, so its text sits where a direct
    // child of the section would.
    assert_eq!(depth_of(&lines, "in block"), depth_of(&lines, "in section"));
}

#[test]
fn resolving_twice_changes_no_indent() {
    let mut once = nested_tree();
    once.update_indent(3);
    let first = render(&once);
    once.update_indent(3);
    assert_eq!(render(&once), first);
}

#[test]
fn indents_start_at_zero_before_resolution() {
    let lines = render(&nested_tree());
    assert_eq!(depth_of(&lines, r"\section{S} \label{s}"), 0);
}

#[test]
fn unnumbered_section_gets_a_star() {
    let mut section = Item::Section(Section::new("Intro", SectionType::SubSection, false, "i"));
    section.update_indent(0);
    assert_eq!(
        render(&section),
        vec![(1, String::from(r"\subsection*{Intro} \label{i}")), (0, String::new())]
    );
}

#[test]
fn section_types_name_their_commands() {
    assert_eq!(SectionType::Section.get_def(), r"\section");
    assert_eq!(SectionType::SubSection.get_def(), r"\subsection");
    assert_eq!(SectionType::SubSubSection.get_def(), r"\subsubsection");
}

#[test]
fn chapter_heading_and_content() {
    let mut chapter = Chapter::new("One", true, "c1");
    chapter.add_item(Item::PageBreak(PageBreak::new()));
    let mut item = Item::Chapter(chapter);
    item.update_indent(0);
    assert_eq!(
        render(&item),
        vec![
            (1, String::from(r"\chapter{One} \label{c1}")),
            (0, String::new()),
            (2, String::from(r"\newpage")),
            (0, String::new()),
        ]
    );
}

#[test]
fn enumerate_puts_each_child_under_an_item() {
    let mut block = Block::new();
    block.add_item(Item::Text(Text::new("a")));
    block.add_item(Item::Command(Command::new(r"\vspace{1em}")));
    let mut list = Enumerate::new("l");
    list.add_item(Item::Block(block));
    list.add_item(Item::Text(Text::new("b")));
    let mut item = Item::Enumerate(list);
    item.update_indent(0);
    assert_eq!(
        render(&item),
        vec![
            (1, String::from(r"\begin{enumerate} \label{l}")),
            (0, String::new()),
            (2, String::from(r"\item")),
            (2, String::from("a")),
            (0, String::new()),
            (2, String::from(r"\vspace{1em}")),
            (2, String::from(r"\item")),
            (2, String::from("b")),
            (0, String::new()),
            (1, String::from(r"\end{enumerate}")),
            (0, String::new()),
        ]
    );
}

#[test]
fn figure_renders_all_its_parts() {
    let fig = Figure::new("H", true, "img.png", "scale=0.5", Some(Text::new("**Cap**")), "f1");
    let mut item = Item::Figure(fig);
    item.update_indent(0);
    assert_eq!(
        render(&item),
        vec![
            (1, String::from(r"\begin{figure}[H] \label{f1}")),
            (2, String::from(r"\centering")),
            (2, String::from(r"\includegraphics[scale=0.5]{img.png}")),
            (2, String::from(r"\caption{\textbf{Cap}}")),
            (1, String::from(r"\end{figure}")),
            (0, String::new()),
        ]
    );
}

#[test]
fn figure_without_centering_or_caption() {
    let mut item = Item::Figure(Figure::new("t", false, "a.jpg", "", None, "f"));
    item.update_indent(1);
    assert_eq!(
        render(&item),
        vec![
            (2, String::from(r"\begin{figure}[t] \label{f}")),
            (3, String::from(r"\includegraphics[]{a.jpg}")),
            (2, String::from(r"\end{figure}")),
            (0, String::new()),
        ]
    );
}

fn three_row_table() -> Table {
    let mut table = Table::new("H", "|c|c|", true, Some(Text::new("Random caption")), "tab_1");
    table.add_component(TableComponent::HorizontalLine(HorizontalLine::new()));
    for r in 0..3 {
        let row = TableRow::new(vec![
            Text::new(&format!("r{}a", r)),
            Text::new(&format!("#red{{r{}b}}", r)),
        ]);
        table.add_component(TableComponent::TableRow(row));
    }
    table.add_component(TableComponent::HorizontalLine(HorizontalLine::new()));
    table
}

#[test]
fn table_caption_comes_once_between_tabular_end_and_table_end() {
    let mut item = Item::Table(three_row_table());
    item.update_indent(0);
    let lines = render(&item);
    let captions: Vec<usize> = lines
        .iter()
        .enumerate()
        .filter(|(_, (_, t))| t.starts_with(r"\caption"))
        .map(|(i, _)| i)
        .collect();
    assert_eq!(captions.len(), 1);
    let end_tabular = lines.iter().position(|(_, t)| t == r"\end{tabular}").unwrap();
    let end_table = lines.iter().position(|(_, t)| t == r"\end{table}").unwrap();
    assert!(end_tabular < captions[0] && captions[0] < end_table);
    assert_eq!(lines[captions[0]], (2, String::from(r"\caption{Random caption}")));
}

#[test]
fn table_renders_rows_two_levels_below_itself() {
    let mut item = Item::Table(three_row_table());
    item.update_indent(0);
    assert_eq!(
        render(&item),
        vec![
            (1, String::from(r"\begin{table}[H] \label{tab_1}")),
            (2, String::from(r"\centering")),
            (2, String::from(r"\begin{tabular}{|c|c|}")),
            (3, String::from(r"\hline")),
            (3, String::from(r"r0a & {\color{red}{r0b}} \\")),
            (3, String::from(r"r1a & {\color{red}{r1b}} \\")),
            (3, String::from(r"r2a & {\color{red}{r2b}} \\")),
            (3, String::from(r"\hline")),
            (2, String::from(r"\end{tabular}")),
            (2, String::from(r"\caption{Random caption}")),
            (1, String::from(r"\end{table}")),
            (0, String::new()),
        ]
    );
}

#[test]
fn table_without_caption_has_no_caption_line() {
    let mut item = Item::Table(Table::new("h", "c", false, None, "t"));
    item.update_indent(0);
    assert_eq!(
        render(&item),
        vec![
            (1, String::from(r"\begin{table}[h] \label{t}")),
            (2, String::from(r"\begin{tabular}{c}")),
            (2, String::from(r"\end{tabular}")),
            (1, String::from(r"\end{table}")),
            (0, String::new()),
        ]
    );
}

#[test]
fn text_keeps_its_formatted_string() {
    let text = Text::new("a  **b**\nc");
    assert_eq!(text.get_string(), r"a\textbf{b} c");
}

#[test]
fn can_resolve_reports_overflow() {
    let tree = nested_tree();
    assert!(tree.can_resolve(0));
    assert!(!tree.can_resolve(usize::MAX - 2));
}

#[test]
fn sink_text_puts_tabs_before_each_line() {
    let mut sink = Sink::new();
    sink.write_line(2, "x");
    sink.blank_line();
    sink.write_line(0, "y");
    assert_eq!(sink.to_text(), "\t\tx\n\ny\n");
}
