//! The fixed pieces of LaTeX syntax that the renderer emits.
use vstd::prelude::*;

verus! {

// Document
pub const DEF_BEGIN_DOCUMENT: &'static str = r"\begin{document}";
pub const DEF_END_DOCUMENT: &'static str = r"\end{document}";
pub const DEF_DOCUMENT_CLASS: &'static str = r"\documentclass";

// Packages
pub const DEF_PACKAGE: &'static str = r"\usepackage";
pub const USER_PACKAGES_COMMENT: &'static str = r"% Added packages";
pub const DEFAULT_PACKAGES_COMMENT: &'static str = r"% Default packages";
pub const DEFAULT_FLOAT_PACKAGE: &'static str = r"\usepackage{float}";
pub const DEFAULT_GRAPHICX_PACKAGE: &'static str = r"\usepackage{graphicx}";
pub const DEFAULT_XCOLOR_PACKAGE: &'static str = r"\usepackage{xcolor}";

// Global commands
pub const USER_GLOBAL_COMMANDS_COMMENT: &'static str = r"% Added global commands";

// Enumerate
pub const DEF_BEGIN_ENUMERATE: &'static str = r"\begin{enumerate}";
pub const DEF_END_ENUMERATE: &'static str = r"\end{enumerate}";
pub const DEF_ITEM_ENUMERATE: &'static str = r"\item";

// Figure
pub const DEF_BEGIN_FIGURE: &'static str = r"\begin{figure}";
pub const DEF_END_FIGURE: &'static str = r"\end{figure}";
pub const DEF_INCLUDE_GRAPH: &'static str = r"\includegraphics";

// Table
pub const DEF_BEGIN_TABULAR: &'static str = r"\begin{tabular}";
pub const DEF_END_TABULAR: &'static str = r"\end{tabular}";
pub const DEF_BEGIN_TABLE: &'static str = r"\begin{table}";
pub const DEF_END_TABLE: &'static str = r"\end{table}";
pub const DEF_HORIZONTAL_LINE: &'static str = r"\hline";
pub const DEF_ROW_END: &'static str = r" \\";
pub const DEF_CELL_SEPARATOR: &'static str = " & ";

// Sectioning
pub const DEF_SECTION: &'static str = r"\section";
pub const DEF_SUB_SECTION: &'static str = r"\subsection";
pub const DEF_SUB_SUB_SECTION: &'static str = r"\subsubsection";
pub const DEF_CHAPTER: &'static str = r"\chapter";
pub const DEF_LABEL: &'static str = r"\label";

// Page break
pub const DEF_NEW_PAGE: &'static str = r"\newpage";

// Caption and positioning
pub const DEF_CAPTION: &'static str = r"\caption";
pub const DEF_CENTERING: &'static str = r"\centering";

// Inline formatting
pub const DEF_BOLD: &'static str = r"\textbf";
pub const DEF_ITALIC: &'static str = r"\textit";
pub const DEF_COLOR: &'static str = r"\color";

} // verus!
