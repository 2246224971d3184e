use comrak_xml::nodes::{
    ListDelimType, ListType, Node, NodeCode, NodeCodeBlock, NodeHeading, NodeHtmlBlock, NodeLink,
    NodeList, NodeValue,
};
use comrak_xml::xml::{format_document, format_document_with_plugins, Plugins, XmlFormatter, XmlOptions};

const PROLOG: &str =
    "<?xml version=\"1.0\" encoding=\"UTF-8\"?>\n<!DOCTYPE document SYSTEM \"CommonMark.dtd\">\n";

fn text(s: &str) -> Node {
    Node::new(NodeValue::Text(s.as_bytes().to_vec()))
}

fn with(value: NodeValue, children: Vec<Node>) -> Node {
    let mut n = Node::new(value);
    for c in children {
        n.append(c);
    }
    n
}

fn render(root: &Node, sourcepos: bool) -> String {
    let mut out = Vec::new();
    format_document(root, &XmlOptions { sourcepos }, &mut out);
    String::from_utf8(out).unwrap()
}

fn render_node(node: &Node, sourcepos: bool) -> String {
    let mut f = XmlFormatter::new(&XmlOptions { sourcepos }, &Plugins {});
    f.format(node, false);
    String::from_utf8(f.output).unwrap()
}

fn escaped(s: &[u8]) -> String {
    let mut f = XmlFormatter::new(&XmlOptions { sourcepos: false }, &Plugins {});
    f.escape(s);
    String::from_utf8(f.output).unwrap()
}

fn ordered(start: usize, delimiter: ListDelimType, tight: bool) -> NodeList {
    NodeList {
        list_type: ListType::Ordered,
        marker_offset: 0,
        padding: 3,
        start,
        delimiter,
        bullet_char: 0,
        tight,
    }
}

#[test]
fn document_paragraph_text() {
    let root = with(NodeValue::Document, vec![with(NodeValue::Paragraph, vec![text("Hi")])]);
    let out = render(&root, false);
    let expected = "<document xmlns=\"http://commonmark.org/xml/1.0\">\n  <paragraph>\n    <text xml:space=\"preserve\">Hi</text>\n  </paragraph>\n</document>\n";
    assert!(out.contains(expected));
    assert_eq!(out, format!("{}{}", PROLOG, expected));
}

#[test]
fn ordered_list_without_children() {
    let list = Node::new(NodeValue::List(ordered(3, ListDelimType::Paren, true)));
    assert_eq!(
        render_node(&list, false),
        "<list type=\"ordered\" start=\"3\" delim=\"paren\" tight=\"true\" />\n"
    );
}

#[test]
fn bullet_list_loose() {
    let mut nl = ordered(1, ListDelimType::Period, false);
    nl.list_type = ListType::Bullet;
    let list = with(NodeValue::List(nl), vec![with(NodeValue::Item(nl), vec![])]);
    assert_eq!(
        render_node(&list, false),
        "<list type=\"bullet\" tight=\"false\">\n  <item />\n</list>\n"
    );
}

#[test]
fn ordered_list_period_multi_digit_start() {
    let list = Node::new(NodeValue::List(ordered(1204, ListDelimType::Period, false)));
    assert_eq!(
        render_node(&list, false),
        "<list type=\"ordered\" start=\"1204\" delim=\"period\" tight=\"false\" />\n"
    );
}

#[test]
fn text_literal_is_escaped() {
    assert_eq!(
        render_node(&text("<a & b>"), false),
        "<text xml:space=\"preserve\">&lt;a &amp; b&gt;</text>\n"
    );
}

#[test]
fn link_with_empty_title() {
    let link = Node::new(NodeValue::Link(NodeLink {
        url: b"http://x".to_vec(),
        title: Vec::new(),
    }));
    assert_eq!(
        render_node(&link, false),
        "<link destination=\"http://x\" title=\"\" />\n"
    );
}

#[test]
fn image_attributes_are_escaped() {
    let image = with(
        NodeValue::Image(NodeLink { url: b"a?b=1&c=\"2\"".to_vec(), title: b"<t>".to_vec() }),
        vec![text("alt")],
    );
    assert_eq!(
        render_node(&image, false),
        "<image destination=\"a?b=1&amp;c=&quot;2&quot;\" title=\"&lt;t&gt;\">\n  <text xml:space=\"preserve\">alt</text>\n</image>\n"
    );
}

#[test]
fn escape_without_reserved_is_identity() {
    let s = "plain text, with UTF-8: \u{e9}\u{4e2d} and 'quotes'";
    assert_eq!(escaped(s.as_bytes()), s);
    assert_eq!(escaped(b""), "");
}

#[test]
fn escape_only_reserved() {
    assert_eq!(escaped(b"&<>\""), "&amp;&lt;&gt;&quot;");
    assert_eq!(escaped(b"\"\"<"), "&quot;&quot;&lt;");
}

#[test]
fn escape_mixed_runs() {
    assert_eq!(escaped(b"a<b>c&d\"e"), "a&lt;b&gt;c&amp;d&quot;e");
    assert_eq!(escaped(b"x&"), "x&amp;");
}

#[test]
fn literal_node_shapes() {
    let code = Node::new(NodeValue::Code(NodeCode { num_backticks: 1, literal: b"a<b".to_vec() }));
    assert_eq!(render_node(&code, false), "<code xml:space=\"preserve\">a&lt;b</code>\n");
    let inline = Node::new(NodeValue::HtmlInline(b"<br>".to_vec()));
    assert_eq!(
        render_node(&inline, false),
        "<html_inline xml:space=\"preserve\">&lt;br&gt;</html_inline>\n"
    );
    let block = Node::new(NodeValue::HtmlBlock(NodeHtmlBlock { block_type: 6, literal: b"<div>\n".to_vec() }));
    assert_eq!(
        render_node(&block, false),
        "<html_block xml:space=\"preserve\">&lt;div&gt;\n</html_block>\n"
    );
    let empty = text("");
    assert_eq!(render_node(&empty, false), "<text xml:space=\"preserve\"></text>\n");
}

fn code_block(info: &[u8], literal: &[u8]) -> Node {
    Node::new(NodeValue::CodeBlock(NodeCodeBlock {
        fenced: true,
        fence_char: b'`',
        fence_length: 3,
        fence_offset: 0,
        info: info.to_vec(),
        literal: literal.to_vec(),
    }))
}

#[test]
fn code_block_without_info() {
    assert_eq!(
        render_node(&code_block(b"", b"x < y\n"), false),
        "<code_block xml:space=\"preserve\">x &lt; y\n</code_block>\n"
    );
}

#[test]
fn code_block_with_info() {
    assert_eq!(
        render_node(&code_block(b"rust \"x\"", b"fn f() {}\n"), false),
        "<code_block info=\"rust &quot;x&quot;\" xml:space=\"preserve\">fn f() {}\n</code_block>\n"
    );
}

#[test]
fn empty_nodes_self_close() {
    assert_eq!(render_node(&Node::new(NodeValue::ThematicBreak), false), "<thematic_break />\n");
    assert_eq!(render_node(&Node::new(NodeValue::Paragraph), false), "<paragraph />\n");
    assert_eq!(render_node(&Node::new(NodeValue::SoftBreak), false), "<softbreak />\n");
    assert_eq!(render_node(&Node::new(NodeValue::TableRow(true)), false), "<table_row />\n");
    assert_eq!(render_node(&Node::new(NodeValue::TaskItem(true)), false), "<taskitem />\n");
}

#[test]
fn heading_level() {
    let h = with(NodeValue::Heading(NodeHeading { level: 2, setext: false }), vec![text("T")]);
    assert_eq!(
        render_node(&h, false),
        "<heading level=\"2\">\n  <text xml:space=\"preserve\">T</text>\n</heading>\n"
    );
}

#[test]
fn sourcepos_when_known_and_asked() {
    let mut p = with(NodeValue::Paragraph, vec![text("a")]);
    p.start_line = 1;
    p.start_column = 2;
    p.end_line = 13;
    p.end_column = 40;
    assert_eq!(
        render_node(&p, true),
        "<paragraph sourcepos=\"1:2-13:40\">\n  <text xml:space=\"preserve\">a</text>\n</paragraph>\n"
    );
    assert_eq!(
        render_node(&p, false),
        "<paragraph>\n  <text xml:space=\"preserve\">a</text>\n</paragraph>\n"
    );
}

#[test]
fn no_sourcepos_when_start_line_is_zero() {
    let mut p = Node::new(NodeValue::ThematicBreak);
    p.start_column = 4;
    p.end_line = 2;
    p.end_column = 9;
    assert_eq!(render_node(&p, true), "<thematic_break />\n");
}

#[test]
fn nested_indentation_and_balance() {
    let root = with(
        NodeValue::Document,
        vec![
            with(
                NodeValue::BlockQuote,
                vec![with(
                    NodeValue::Paragraph,
                    vec![
                        with(NodeValue::Emph, vec![text("e")]),
                        Node::new(NodeValue::LineBreak),
                        with(NodeValue::Strong, vec![text("s")]),
                    ],
                )],
            ),
            Node::new(NodeValue::ThematicBreak),
        ],
    );
    let expected = [
        "<document xmlns=\"http://commonmark.org/xml/1.0\">\n",
        "  <block_quote>\n",
        "    <paragraph>\n",
        "      <emph>\n",
        "        <text xml:space=\"preserve\">e</text>\n",
        "      </emph>\n",
        "      <linebreak />\n",
        "      <strong>\n",
        "        <text xml:space=\"preserve\">s</text>\n",
        "      </strong>\n",
        "    </paragraph>\n",
        "  </block_quote>\n",
        "  <thematic_break />\n",
        "</document>\n"
    ]
    .concat();
    assert_eq!(render(&root, false), format!("{}{}", PROLOG, expected));
    let mut f = XmlFormatter::new(&XmlOptions { sourcepos: false }, &Plugins {});
    f.format(&root, false);
    assert_eq!(f.indent, 0);
}

#[test]
fn with_plugins_matches_plain_entry() {
    let root = with(NodeValue::Document, vec![text("x")]);
    let mut a = Vec::new();
    format_document_with_plugins(&root, &XmlOptions { sourcepos: false }, &mut a, &Plugins {});
    let mut b = Vec::new();
    format_document(&root, &XmlOptions { sourcepos: false }, &mut b);
    assert_eq!(a, b);
}

#[test]
fn output_is_appended() {
    let root = Node::new(NodeValue::Document);
    let mut out = b"before\n".to_vec();
    format_document(&root, &XmlOptions { sourcepos: false }, &mut out);
    assert_eq!(
        String::from_utf8(out).unwrap(),
        format!("before\n{}<document xmlns=\"http://commonmark.org/xml/1.0\" />\n", PROLOG)
    );
}

#[test]
fn plain_mode_flattens_to_text() {
    let p = with(
        NodeValue::Paragraph,
        vec![
            text("a<"),
            Node::new(NodeValue::SoftBreak),
            with(NodeValue::Emph, vec![Node::new(NodeValue::Code(NodeCode { num_backticks: 1, literal: b"c&".to_vec() }))]),
            Node::new(NodeValue::LineBreak),
            Node::new(NodeValue::HtmlInline(b"<i>".to_vec())),
        ],
    );
    let mut f = XmlFormatter::new(&XmlOptions { sourcepos: true }, &Plugins {});
    f.format(&p, true);
    assert_eq!(String::from_utf8(f.output).unwrap(), "a&lt; c&amp; &lt;i&gt;");
}

#[test]
fn collect_text_is_unescaped() {
    let p = with(
        NodeValue::Paragraph,
        vec![
            text("a<"),
            Node::new(NodeValue::SoftBreak),
            with(NodeValue::Strong, vec![Node::new(NodeValue::Code(NodeCode { num_backticks: 1, literal: b"c&".to_vec() }))]),
            Node::new(NodeValue::HtmlInline(b"<i>".to_vec())),
        ],
    );
    let f = XmlFormatter::new(&XmlOptions { sourcepos: false }, &Plugins {});
    let mut out = Vec::new();
    f.collect_text(&p, &mut out);
    assert_eq!(out, b"a< c&".to_vec());
}

#[test]
fn format_node_leaving_closes_container() {
    let p = with(NodeValue::Paragraph, vec![text("a")]);
    let mut f = XmlFormatter::new(&XmlOptions { sourcepos: false }, &Plugins {});
    assert!(!f.format_node(&p, true));
    assert_eq!(f.indent, 2);
    f.format_node(&p, false);
    assert_eq!(f.indent, 0);
    assert_eq!(String::from_utf8(f.output).unwrap(), "<paragraph>\n</paragraph>\n");
    let t = text("z");
    let mut g = XmlFormatter::new(&XmlOptions { sourcepos: false }, &Plugins {});
    g.format_node(&t, false);
    assert!(g.output.is_empty());
}

#[test]
fn node_names() {
    assert_eq!(NodeValue::DescriptionDetails.xml_node_name(), "description_details");
    assert_eq!(NodeValue::FootnoteReference(b"1".to_vec()).xml_node_name(), "footnote_reference");
    assert_eq!(ListDelimType::Paren.xml_name(), "paren");
    assert_eq!(ListDelimType::Period.xml_name(), "period");
}
