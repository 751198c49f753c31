use latex_builder::container::{Section, SectionType};
use latex_builder::document::{ClassType, Document, DocumentClass, Package};
use latex_builder::item::{Command, Item, Text};

fn report_with_one_section() -> Document {
    let mut doc = Document::new(DocumentClass::new(ClassType::Report, vec!["12pt"]));
    doc.add_packages(vec![Package::new("geometry", vec!["margin=2.5cm"])]);
    let mut section = Section::new("Intro", SectionType::Section, false, "sec:intro");
    section.add_item(Item::Text(Text::new("Hello **world**")));
    doc.add_item(Item::Section(section));
    doc
}

#[test]
fn end_to_end_document_lines_come_in_order() {
    let mut doc = report_with_one_section();
    assert!(doc.indents_fit());
    doc.build();
    let expected = [
        "\\documentclass[12pt]{report}\n",
        "\n",
        "% Default packages\n",
        "\\usepackage{float}\n",
        "\\usepackage{graphicx}\n",
        "\\usepackage{xcolor}\n",
        "% Added packages\n",
        "\\usepackage[margin=2.5cm]{geometry}\n",
        "\n",
        "% Added global commands\n",
        "\n",
        "\\begin{document}\n",
        "\n",
        "\t\\section*{Intro} \\label{sec:intro}\n",
        "\n",
        "\t\tHello \\textbf{world}\n",
        "\n",
        "\\end{document}\n",
    ]
    .concat();
    assert_eq!(doc.get_file().to_text(), expected);
}

#[test]
fn global_commands_come_before_the_content() {
    let mut doc = Document::new(DocumentClass::new(ClassType::Article, vec![]));
    doc.add_global_commands(vec![Command::new(r"\title{T}"), Command::new(r"\author{A}")]);
    doc.add_item(Item::Command(Command::new(r"\maketitle")));
    doc.build();
    let expected = [
        "\\documentclass[]{article}\n",
        "\n",
        "% Default packages\n",
        "\\usepackage{float}\n",
        "\\usepackage{graphicx}\n",
        "\\usepackage{xcolor}\n",
        "% Added packages\n",
        "\n",
        "% Added global commands\n",
        "\\title{T}\n",
        "\\author{A}\n",
        "\n",
        "\\begin{document}\n",
        "\n",
        "\t\\maketitle\n",
        "\\end{document}\n",
    ]
    .concat();
    assert_eq!(doc.get_file().to_text(), expected);
}

#[test]
fn class_and_package_options_are_comma_joined() {
    let mut doc = Document::new(DocumentClass::new(ClassType::Book, vec!["a4paper", "12pt"]));
    doc.add_packages(vec![Package::new("babel", vec!["english", "french"]), Package::new("amsmath", vec![])]);
    doc.build();
    let text = doc.get_file().to_text();
    assert!(text.starts_with("\\documentclass[a4paper, 12pt]{book}\n"));
    assert!(text.contains("\\usepackage[english, french]{babel}\n\\usepackage[]{amsmath}\n"));
}

#[test]
fn class_types_name_their_classes() {
    assert_eq!(ClassType::Article.to_str(), "article");
    assert_eq!(ClassType::Report.to_str(), "report");
    assert_eq!(ClassType::Book.to_str(), "book");
    assert_eq!(ClassType::Memoir.to_str(), "memoir");
    assert_eq!(ClassType::Letter.to_str(), "letter");
    assert_eq!(ClassType::Beamer.to_str(), "beamer");
}

#[test]
fn building_twice_writes_the_document_twice() {
    let mut doc = report_with_one_section();
    doc.build();
    let once = doc.get_file().to_text();
    doc.build();
    assert_eq!(doc.get_file().to_text(), format!("{}{}", once, once));
}

#[test]
fn blank_line_goes_to_the_sink() {
    let mut doc = Document::new(DocumentClass::new(ClassType::Letter, vec![]));
    doc.add_blank_line();
    assert_eq!(doc.get_file().to_text(), "\n");
}

#[test]
fn package_line_alone() {
    let mut sink = latex_builder::sink::Sink::new();
    Package::new("geometry", vec!["margin=2.5cm"]).build(&mut sink);
    assert_eq!(sink.to_text(), "\\usepackage[margin=2.5cm]{geometry}\n");
}
