//! Renders a CommonMark document tree as an XML document.
//!
//! `nodes` holds the tree, `escape` the escaping of text, `text` the writing of spaces, digits
//! and fixed strings, `render` what a tree renders to, stated as functions of the tree, and
//! `xml` the renderer, proved to write exactly that.

pub mod escape;
pub mod nodes;
pub mod render;
pub mod text;
pub mod xml;
