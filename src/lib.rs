//! Builds LaTeX documents from a tree of content nodes: sections, lists,
//! figures, tables, paragraphs and raw commands. Indents are resolved in one
//! top-down pass, then the tree is rendered line by line into a sink.
pub mod container;
pub mod document;
pub mod format;
pub mod item;
pub mod sink;
pub mod syntax;
pub mod table;
