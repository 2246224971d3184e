//! What the renderer writes for a tree, stated as functions of the tree.
use vstd::prelude::*;
use vstd::string::StringSliceAdditionalSpecFns;

use crate::escape::escape_bytes;
use crate::nodes::{delim_name, is_container, literal_of, tag_name, ListType, Node, NodeList, NodeValue};
use crate::text::{bool_text, decimal, spaces};

verus! {

/// The two lines that come before the root element.
pub open spec fn prolog() -> Seq<u8> {
    "<?xml version=\"1.0\" encoding=\"UTF-8\"?>\n".spec_bytes()
        + "<!DOCTYPE document SYSTEM \"CommonMark.dtd\">\n".spec_bytes()
}

/// The `sourcepos` attribute: present only when asked for and when the node's start line is
/// known (nonzero).
pub open spec fn sourcepos_attr(n: Node, sourcepos: bool) -> Seq<u8> {
    if sourcepos && n.start_line != 0 {
        " sourcepos=\"".spec_bytes() + decimal(n.start_line as nat) + ":".spec_bytes() + decimal(
            n.start_column as nat,
        ) + "-".spec_bytes() + decimal(n.end_line as nat) + ":".spec_bytes() + decimal(
            n.end_column as nat,
        ) + "\"".spec_bytes()
    } else {
        Seq::empty()
    }
}

/// The attributes of a list: its type, start and delimiter when ordered, and tightness.
pub open spec fn list_attrs(nl: NodeList) -> Seq<u8> {
    (if nl.list_type == ListType::Bullet {
        " type=\"bullet\"".spec_bytes()
    } else {
        " type=\"ordered\" start=\"".spec_bytes() + decimal(nl.start as nat) + "\" delim=\"".spec_bytes()
            + delim_name(nl.delimiter) + "\"".spec_bytes()
    }) + " tight=\"".spec_bytes() + bool_text(nl.tight) + "\"".spec_bytes()
}

/// The attributes that a node type carries, other than `sourcepos` and `xml:space`.
pub open spec fn value_attrs(v: NodeValue) -> Seq<u8> {
    match v {
        NodeValue::Document => " xmlns=\"http://commonmark.org/xml/1.0\"".spec_bytes(),
        NodeValue::List(nl) => list_attrs(nl),
        NodeValue::Heading(h) => " level=\"".spec_bytes() + decimal(h.level as nat)
            + "\"".spec_bytes(),
        NodeValue::CodeBlock(cb) => if cb.info@.len() == 0 {
            Seq::empty()
        } else {
            " info=\"".spec_bytes() + escape_bytes(cb.info@) + "\"".spec_bytes()
        },
        NodeValue::Link(l) => link_attrs(l.url@, l.title@),
        NodeValue::Image(l) => link_attrs(l.url@, l.title@),
        _ => Seq::empty(),
    }
}

/// The attributes of a link or an image; both are written, empty or not.
pub open spec fn link_attrs(url: Seq<u8>, title: Seq<u8>) -> Seq<u8> {
    " destination=\"".spec_bytes() + escape_bytes(url) + "\" title=\"".spec_bytes() + escape_bytes(
        title,
    ) + "\"".spec_bytes()
}

/// The start of a node's opening tag: its name and attributes, unclosed.
pub open spec fn tag_head(n: Node, sourcepos: bool) -> Seq<u8> {
    "<".spec_bytes() + tag_name(n.value) + sourcepos_attr(n, sourcepos) + value_attrs(n.value)
}

/// A literal node's escaped text and its closing tag, which end its line.
pub open spec fn literal_tail(v: NodeValue, literal: Seq<u8>) -> Seq<u8> {
    " xml:space=\"preserve\">".spec_bytes() + escape_bytes(literal) + "</".spec_bytes() + tag_name(
        v,
    ) + ">\n".spec_bytes()
}

/// The line written when a node is entered, indented by `k`: the whole element for a literal or
/// empty node, the opening tag for a container.
pub open spec fn open_text(n: Node, k: nat, sourcepos: bool) -> Seq<u8> {
    spaces(k) + tag_head(n, sourcepos) + match literal_of(n.value) {
        Some(l) => literal_tail(n.value, l),
        None => if n.children.len() > 0 {
            ">\n".spec_bytes()
        } else {
            " />\n".spec_bytes()
        },
    }
}

/// The closing tag of a container, indented by `k`.
pub open spec fn close_text(n: Node, k: nat) -> Seq<u8> {
    spaces(k) + "</".spec_bytes() + tag_name(n.value) + ">\n".spec_bytes()
}

/// The XML of a subtree whose root stands at indentation `k`.
pub open spec fn render(n: Node, k: nat, sourcepos: bool) -> Seq<u8>
    decreases n,
{
    if is_container(n) {
        open_text(n, k, sourcepos) + render_list(n.children@, k + 2, sourcepos) + close_text(n, k)
    } else {
        open_text(n, k, sourcepos)
    }
}

/// The XML of a run of sibling subtrees, in order.
pub open spec fn render_list(s: Seq<Node>, k: nat, sourcepos: bool) -> Seq<u8>
    decreases s,
{
    if s.len() == 0 {
        Seq::empty()
    } else {
        render(s[0], k, sourcepos) + render_list(s.drop_first(), k, sourcepos)
    }
}

/// A subtree flattened to text: the escaped text of text, code and inline HTML nodes, a space
/// for each line break, and nothing else of the markup.
pub open spec fn render_plain(n: Node) -> Seq<u8>
    decreases n,
{
    match n.value {
        NodeValue::Text(l) => escape_bytes(l@),
        NodeValue::Code(c) => escape_bytes(c.literal@),
        NodeValue::HtmlInline(l) => escape_bytes(l@),
        NodeValue::LineBreak => " ".spec_bytes(),
        NodeValue::SoftBreak => " ".spec_bytes(),
        _ => render_plain_list(n.children@),
    }
}

/// Sibling subtrees flattened to text, in order.
pub open spec fn render_plain_list(s: Seq<Node>) -> Seq<u8>
    decreases s,
{
    if s.len() == 0 {
        Seq::empty()
    } else {
        render_plain(s[0]) + render_plain_list(s.drop_first())
    }
}

/// The whole document: the prolog, then the tree from indentation zero.
pub open spec fn document_text(root: Node, sourcepos: bool) -> Seq<u8> {
    prolog() + render(root, 0, sourcepos)
}

/// The unescaped text of a subtree: text and code literals, a space for each line break.
pub open spec fn collected(n: Node) -> Seq<u8>
    decreases n,
{
    match n.value {
        NodeValue::Text(l) => l@,
        NodeValue::Code(c) => c.literal@,
        NodeValue::LineBreak => " ".spec_bytes(),
        NodeValue::SoftBreak => " ".spec_bytes(),
        _ => collected_list(n.children@),
    }
}

/// The unescaped text of sibling subtrees, in order.
pub open spec fn collected_list(s: Seq<Node>) -> Seq<u8>
    decreases s,
{
    if s.len() == 0 {
        Seq::empty()
    } else {
        collected(s[0]) + collected_list(s.drop_first())
    }
}

/// Every container of the subtree, entered at indentation `k`, leaves room to indent its
/// children within `usize`.
pub open spec fn depth_fits(n: Node, k: nat) -> bool
    decreases n,
{
    is_container(n) ==> k + 2 <= usize::MAX && forall|i: int|
        0 <= i < n.children.len() ==> depth_fits(#[trigger] n.children@[i], k + 2)
}

/// A container's XML is bracketed by its own opening tag and its matching closing tag, both at
/// the container's indentation, with its children between them one level deeper.
pub proof fn lemma_container_balanced(n: Node, k: nat, sourcepos: bool)
    requires
        is_container(n),
    ensures
        render(n, k, sourcepos) == spaces(k) + tag_head(n, sourcepos) + ">\n".spec_bytes()
            + render_list(n.children@, k + 2, sourcepos) + spaces(k) + "</".spec_bytes() + tag_name(
            n.value,
        ) + ">\n".spec_bytes(),
{
    assert(render(n, k, sourcepos) =~= spaces(k) + tag_head(n, sourcepos) + ">\n".spec_bytes()
        + render_list(n.children@, k + 2, sourcepos) + spaces(k) + "</".spec_bytes() + tag_name(
        n.value,
    ) + ">\n".spec_bytes());
}

/// A literal node renders as one line: its indentation, its opening tag with
/// `xml:space="preserve"`, its escaped text and its closing tag.
pub proof fn lemma_literal_shape(n: Node, k: nat, sourcepos: bool)
    requires
        literal_of(n.value) is Some,
    ensures
        !is_container(n),
        render(n, k, sourcepos) == spaces(k) + tag_head(n, sourcepos)
            + " xml:space=\"preserve\">".spec_bytes() + escape_bytes(literal_of(n.value)->0)
            + "</".spec_bytes() + tag_name(n.value) + ">\n".spec_bytes(),
{
    assert(render(n, k, sourcepos) =~= spaces(k) + tag_head(n, sourcepos)
        + " xml:space=\"preserve\">".spec_bytes() + escape_bytes(literal_of(n.value)->0)
        + "</".spec_bytes() + tag_name(n.value) + ">\n".spec_bytes());
}

/// A node with no children and no literal text renders as one self-closing tag.
pub proof fn lemma_empty_shape(n: Node, k: nat, sourcepos: bool)
    requires
        literal_of(n.value) is None,
        n.children.len() == 0,
    ensures
        render(n, k, sourcepos) == spaces(k) + tag_head(n, sourcepos) + " />\n".spec_bytes(),
{
}

/// A code block with an empty info string carries no `info` attribute, and a node whose start
/// line is zero carries no `sourcepos` attribute, whatever the option says.
pub proof fn lemma_attribute_omission(n: Node, sourcepos: bool)
    ensures
        n.start_line == 0 ==> sourcepos_attr(n, sourcepos) == Seq::<u8>::empty(),
        (n.value matches NodeValue::CodeBlock(cb) && cb.info@.len() == 0) ==> value_attrs(n.value)
            == Seq::<u8>::empty(),
        (n.value matches NodeValue::CodeBlock(cb) && cb.info@.len() == 0) && n.start_line == 0
            ==> tag_head(n, sourcepos) == "<".spec_bytes() + tag_name(n.value),
{
    if n.start_line == 0 {
        if let NodeValue::CodeBlock(cb) = n.value {
            if cb.info@.len() == 0 {
                assert(tag_head(n, sourcepos) =~= "<".spec_bytes() + tag_name(n.value));
            }
        }
    }
}

} // verus!
