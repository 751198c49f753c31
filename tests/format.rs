use latex_builder::format::{format_text, into_braces, into_brackets, join_strings};

fn fmt(s: &str) -> String {
    format_text(String::from(s))
}

#[test]
fn bold_marker_becomes_textbf() {
    assert_eq!(fmt("**a**"), r"\textbf{a}");
}

#[test]
fn italic_marker_becomes_textit() {
    assert_eq!(fmt("_a_"), r"\textit{a}");
}

#[test]
fn color_marker_becomes_color_group() {
    assert_eq!(fmt("#red{a}"), r"{\color{red}{a}}");
}

#[test]
fn italic_inside_bold_nests() {
    assert_eq!(fmt("**_a_**"), r"\textbf{\textit{a}}");
}

#[test]
fn color_inside_bold_nests() {
    assert_eq!(fmt("**#blue{x}**"), r"\textbf{{\color{blue}{x}}}");
}

#[test]
fn double_space_is_dropped() {
    assert_eq!(fmt("a  b"), "ab");
}

#[test]
fn newline_becomes_space() {
    assert_eq!(fmt("a\nb"), "a b");
}

#[test]
fn indented_continuation_lines_join() {
    assert_eq!(fmt("one\n    two"), "one two");
}

#[test]
fn consecutive_bold_spans_stay_apart() {
    assert_eq!(fmt("**a** and **b**"), r"\textbf{a} and \textbf{b}");
}

#[test]
fn consecutive_italic_spans_stay_apart() {
    assert_eq!(fmt("_a_ _b_"), r"\textit{a} \textit{b}");
}

#[test]
fn unterminated_markers_are_left_verbatim() {
    assert_eq!(fmt("**a"), "**a");
    assert_eq!(fmt("_a"), "_a");
    assert_eq!(fmt("#red{a"), "#red{a");
}

#[test]
fn empty_markers_are_left_verbatim() {
    assert_eq!(fmt("****"), "****");
    assert_eq!(fmt("__"), "__");
    assert_eq!(fmt("#red{}"), "#red{}");
}

#[test]
fn color_name_with_space_is_not_a_color() {
    assert_eq!(fmt("#re d{a}"), "#re d{a}");
}

#[test]
fn empty_text_stays_empty() {
    assert_eq!(fmt(""), "");
}

#[test]
fn plain_text_is_unchanged() {
    assert_eq!(fmt("Lorem ipsum"), "Lorem ipsum");
}

#[test]
fn markers_in_unicode_text() {
    assert_eq!(fmt("été **ça**"), r"été \textbf{ça}");
}

#[test]
fn leftmost_star_run_starts_the_bold_span() {
    assert_eq!(fmt("***a**"), r"*\textbf{a}");
}

#[test]
fn braces_and_brackets_wrap() {
    assert_eq!(into_braces(&String::from("x")), "{x}");
    assert_eq!(into_brackets(&String::from("x")), "[x]");
}

#[test]
fn join_puts_separator_between_parts() {
    let parts = vec![String::from("a"), String::from("b"), String::from("c")];
    assert_eq!(join_strings(&parts, ", "), "a, b, c");
    assert_eq!(join_strings(&Vec::new(), ", "), "");
}
