//! The document tree that the renderer reads.
use vstd::prelude::*;
use vstd::string::StringSliceAdditionalSpecFns;

verus! {

/// Kind of a list.
#[derive(Clone, Copy, Debug, PartialEq, Eq, Structural)]
pub enum ListType {
    Bullet,
    Ordered,
}

/// Delimiter that follows the number of an ordered list item.
#[derive(Clone, Copy, Debug, PartialEq, Eq, Structural)]
pub enum ListDelimType {
    Period,
    Paren,
}

/// Alignment of a table column.
#[derive(Clone, Copy, Debug, PartialEq, Eq, Structural)]
pub enum TableAlignment {
    Unset,
    Left,
    Center,
    Right,
}

/// Payload of a list or of a list item.
#[derive(Clone, Copy, Debug, PartialEq, Eq, Structural)]
pub struct NodeList {
    pub list_type: ListType,
    pub marker_offset: usize,
    pub padding: usize,
    pub start: usize,
    pub delimiter: ListDelimType,
    pub bullet_char: u8,
    pub tight: bool,
}

/// Payload of an item of a description list.
#[derive(Clone, Copy, Debug, PartialEq, Eq, Structural)]
pub struct NodeDescriptionItem {
    pub marker_offset: usize,
    pub padding: usize,
}

/// Payload of a fenced or indented code block.
#[derive(Debug)]
pub struct NodeCodeBlock {
    pub fenced: bool,
    pub fence_char: u8,
    pub fence_length: usize,
    pub fence_offset: usize,
    pub info: Vec<u8>,
    pub literal: Vec<u8>,
}

/// Payload of a block of raw HTML.
#[derive(Debug)]
pub struct NodeHtmlBlock {
    pub block_type: u8,
    pub literal: Vec<u8>,
}

/// Payload of a heading.
#[derive(Clone, Copy, Debug, PartialEq, Eq, Structural)]
pub struct NodeHeading {
    pub level: u8,
    pub setext: bool,
}

/// Payload of a link or an image.
#[derive(Debug)]
pub struct NodeLink {
    pub url: Vec<u8>,
    pub title: Vec<u8>,
}

/// Payload of an inline code span.
#[derive(Debug)]
pub struct NodeCode {
    pub num_backticks: usize,
    pub literal: Vec<u8>,
}

/// The type of a node, with what it carries.
#[derive(Debug)]
pub enum NodeValue {
    Document,
    FrontMatter(Vec<u8>),
    BlockQuote,
    List(NodeList),
    Item(NodeList),
    DescriptionList,
    DescriptionItem(NodeDescriptionItem),
    DescriptionTerm,
    DescriptionDetails,
    CodeBlock(NodeCodeBlock),
    HtmlBlock(NodeHtmlBlock),
    Paragraph,
    Heading(NodeHeading),
    ThematicBreak,
    FootnoteDefinition(Vec<u8>),
    Table(Vec<TableAlignment>),
    TableRow(bool),
    TableCell,
    Text(Vec<u8>),
    TaskItem(bool),
    SoftBreak,
    LineBreak,
    Code(NodeCode),
    HtmlInline(Vec<u8>),
    Emph,
    Strong,
    Strikethrough,
    Superscript,
    Link(NodeLink),
    Image(NodeLink),
    FootnoteReference(Vec<u8>),
}

/// A node of the tree: its value, its source span (zero where unknown) and its children in
/// document order.
#[derive(Debug)]
pub struct Node {
    pub value: NodeValue,
    pub start_line: usize,
    pub start_column: usize,
    pub end_line: usize,
    pub end_column: usize,
    pub children: Vec<Node>,
}

/// The element name of each node type.
pub open spec fn tag_name(v: NodeValue) -> Seq<u8> {
    match v {
        NodeValue::Document => "document".spec_bytes(),
        NodeValue::FrontMatter(_) => "frontmatter".spec_bytes(),
        NodeValue::BlockQuote => "block_quote".spec_bytes(),
        NodeValue::List(_) => "list".spec_bytes(),
        NodeValue::Item(_) => "item".spec_bytes(),
        NodeValue::DescriptionList => "description_list".spec_bytes(),
        NodeValue::DescriptionItem(_) => "description_item".spec_bytes(),
        NodeValue::DescriptionTerm => "description_term".spec_bytes(),
        NodeValue::DescriptionDetails => "description_details".spec_bytes(),
        NodeValue::CodeBlock(_) => "code_block".spec_bytes(),
        NodeValue::HtmlBlock(_) => "html_block".spec_bytes(),
        NodeValue::Paragraph => "paragraph".spec_bytes(),
        NodeValue::Heading(_) => "heading".spec_bytes(),
        NodeValue::ThematicBreak => "thematic_break".spec_bytes(),
        NodeValue::FootnoteDefinition(_) => "footnote_definition".spec_bytes(),
        NodeValue::Table(_) => "table".spec_bytes(),
        NodeValue::TableRow(_) => "table_row".spec_bytes(),
        NodeValue::TableCell => "table_cell".spec_bytes(),
        NodeValue::Text(_) => "text".spec_bytes(),
        NodeValue::TaskItem(_) => "taskitem".spec_bytes(),
        NodeValue::SoftBreak => "softbreak".spec_bytes(),
        NodeValue::LineBreak => "linebreak".spec_bytes(),
        NodeValue::Code(_) => "code".spec_bytes(),
        NodeValue::HtmlInline(_) => "html_inline".spec_bytes(),
        NodeValue::Emph => "emph".spec_bytes(),
        NodeValue::Strong => "strong".spec_bytes(),
        NodeValue::Strikethrough => "strikethrough".spec_bytes(),
        NodeValue::Superscript => "superscript".spec_bytes(),
        NodeValue::Link(_) => "link".spec_bytes(),
        NodeValue::Image(_) => "image".spec_bytes(),
        NodeValue::FootnoteReference(_) => "footnote_reference".spec_bytes(),
    }
}

/// The value of the `delim` attribute of an ordered list.
pub open spec fn delim_name(d: ListDelimType) -> Seq<u8> {
    match d {
        ListDelimType::Period => "period".spec_bytes(),
        ListDelimType::Paren => "paren".spec_bytes(),
    }
}

/// The raw text that a literal node carries; `None` for every other node type.
pub open spec fn literal_of(v: NodeValue) -> Option<Seq<u8>> {
    match v {
        NodeValue::Text(l) => Some(l@),
        NodeValue::Code(c) => Some(c.literal@),
        NodeValue::HtmlBlock(h) => Some(h.literal@),
        NodeValue::HtmlInline(l) => Some(l@),
        NodeValue::CodeBlock(cb) => Some(cb.literal@),
        _ => None,
    }
}

/// A node that encloses its children between an opening and a closing tag: one that is not
/// literal and has at least one child.
pub open spec fn is_container(n: Node) -> bool {
    literal_of(n.value) is None && n.children.len() > 0
}

impl NodeValue {
    /// The element name of this node type.
    pub fn xml_node_name(&self) -> (r: &'static str)
        ensures
            r.spec_bytes() == tag_name(*self),
    {
        match self {
            NodeValue::Document => "document",
            NodeValue::FrontMatter(_) => "frontmatter",
            NodeValue::BlockQuote => "block_quote",
            NodeValue::List(_) => "list",
            NodeValue::Item(_) => "item",
            NodeValue::DescriptionList => "description_list",
            NodeValue::DescriptionItem(_) => "description_item",
            NodeValue::DescriptionTerm => "description_term",
            NodeValue::DescriptionDetails => "description_details",
            NodeValue::CodeBlock(_) => "code_block",
            NodeValue::HtmlBlock(_) => "html_block",
            NodeValue::Paragraph => "paragraph",
            NodeValue::Heading(_) => "heading",
            NodeValue::ThematicBreak => "thematic_break",
            NodeValue::FootnoteDefinition(_) => "footnote_definition",
            NodeValue::Table(_) => "table",
            NodeValue::TableRow(_) => "table_row",
            NodeValue::TableCell => "table_cell",
            NodeValue::Text(_) => "text",
            NodeValue::TaskItem(_) => "taskitem",
            NodeValue::SoftBreak => "softbreak",
            NodeValue::LineBreak => "linebreak",
            NodeValue::Code(_) => "code",
            NodeValue::HtmlInline(_) => "html_inline",
            NodeValue::Emph => "emph",
            NodeValue::Strong => "strong",
            NodeValue::Strikethrough => "strikethrough",
            NodeValue::Superscript => "superscript",
            NodeValue::Link(_) => "link",
            NodeValue::Image(_) => "image",
            NodeValue::FootnoteReference(_) => "footnote_reference",
        }
    }
}

impl NodeValue {
    /// The raw text of a literal node (text, inline code, inline or block HTML, code block).
    pub fn literal(&self) -> (r: Option<&[u8]>)
        ensures
            r is Some <==> literal_of(*self) is Some,
            r is Some ==> literal_of(*self) == Some(r->0@),
    {
        match self {
            NodeValue::Text(l) => Some(l.as_slice()),
            NodeValue::Code(c) => Some(c.literal.as_slice()),
            NodeValue::HtmlBlock(h) => Some(h.literal.as_slice()),
            NodeValue::HtmlInline(l) => Some(l.as_slice()),
            NodeValue::CodeBlock(cb) => Some(cb.literal.as_slice()),
            _ => None,
        }
    }
}

impl ListDelimType {
    /// The value of the `delim` attribute for this delimiter.
    pub fn xml_name(&self) -> (r: &'static str)
        ensures
            r.spec_bytes() == delim_name(*self),
    {
        match self {
            ListDelimType::Period => "period",
            ListDelimType::Paren => "paren",
        }
    }
}

impl Node {
    /// A node of the given value with no source span and no children.
    pub fn new(value: NodeValue) -> (r: Node)
        ensures
            r.value == value,
            r.start_line == 0 && r.start_column == 0,
            r.end_line == 0 && r.end_column == 0,
            r.children@.len() == 0,
    {
        Node {
            value,
            start_line: 0,
            start_column: 0,
            end_line: 0,
            end_column: 0,
            children: Vec::new(),
        }
    }

    /// Adds a child after the existing ones.
    pub fn append(&mut self, child: Node)
        ensures
            final(self).value == old(self).value,
            final(self).start_line == old(self).start_line,
            final(self).start_column == old(self).start_column,
            final(self).end_line == old(self).end_line,
            final(self).end_column == old(self).end_column,
            final(self).children@ == old(self).children@.push(child),
    {
        self.children.push(child);
    }
}

} // verus!
