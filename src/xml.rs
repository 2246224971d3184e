//! The XML renderer: a node renderer driven by an iterative traversal.
use vstd::prelude::*;
use vstd::string::StringSliceAdditionalSpecFns;

use crate::escape::{escape_bytes, write_escaped};
use crate::nodes::{is_container, tag_name, ListType, Node, NodeValue};
use crate::render::{
    close_text, collected, collected_list, depth_fits, document_text, open_text, render,
    render_list, render_plain, render_plain_list, sourcepos_attr, tag_head, value_attrs,
};
use crate::text::{spaces, write_bool, write_bytes, write_decimal, write_spaces, write_str};

verus! {

/// Rendering options.
pub struct XmlOptions {
    /// Whether nodes with a known source span carry a `sourcepos` attribute.
    pub sourcepos: bool,
}

/// Registry of rendering extensions. None is registered: extension node types render as a bare
/// element.
pub struct Plugins {}

/// Renderer state: the text written so far, the options in force and the current indentation.
pub struct XmlFormatter {
    pub output: Vec<u8>,
    pub sourcepos: bool,
    pub indent: usize,
}

/// Whether a traversal step opens a node or closes it.
enum Phase {
    Pre,
    Post,
}

/// What a node renders to in the given mode: flattened text in plain mode, else its XML.
pub open spec fn frame_text(n: Node, plain: bool, k: nat, sourcepos: bool) -> Seq<u8> {
    if plain {
        render_plain(n)
    } else {
        render(n, k, sourcepos)
    }
}

/// What a run of siblings renders to in the given mode.
pub open spec fn list_text(s: Seq<Node>, plain: bool, k: nat, sourcepos: bool) -> Seq<u8> {
    if plain {
        render_plain_list(s)
    } else {
        render_list(s, k, sourcepos)
    }
}

/// The number of nodes of a subtree.
spec fn size(n: Node) -> nat
    decreases n,
{
    1 + size_list(n.children@)
}

spec fn size_list(s: Seq<Node>) -> nat
    decreases s,
{
    if s.len() == 0 {
        0
    } else {
        size(s[0]) + size_list(s.drop_first())
    }
}

/// The text that the steps on the stack have yet to write, the top (last) step first, when
/// the indentation is `k`.
spec fn pending(s: Seq<(&Node, bool, Phase)>, k: nat, sourcepos: bool) -> Seq<u8>
    decreases s.len(),
{
    if s.len() == 0 {
        Seq::empty()
    } else {
        let f = s.last();
        let rest = s.drop_last();
        match f.2 {
            Phase::Pre => frame_text(*f.0, f.1, k, sourcepos) + pending(rest, k, sourcepos),
            Phase::Post => if is_container(*f.0) {
                close_text(*f.0, (k - 2) as nat) + pending(rest, (k - 2) as nat, sourcepos)
            } else {
                pending(rest, k, sourcepos)
            },
        }
    }
}

/// The steps on the stack can run from indentation `k` without leaving `usize`, and leave the
/// indentation at `k0`.
spec fn stack_ok(s: Seq<(&Node, bool, Phase)>, k: nat, k0: nat) -> bool
    decreases s.len(),
{
    if s.len() == 0 {
        k == k0
    } else {
        let f = s.last();
        let rest = s.drop_last();
        match f.2 {
            Phase::Pre => (f.1 || depth_fits(*f.0, k)) && stack_ok(rest, k, k0),
            Phase::Post => if is_container(*f.0) {
                k >= 2 && stack_ok(rest, (k - 2) as nat, k0)
            } else {
                stack_ok(rest, k, k0)
            },
        }
    }
}

/// A bound on the steps that the stack has yet to take.
spec fn work(s: Seq<(&Node, bool, Phase)>) -> nat
    decreases s.len(),
{
    if s.len() == 0 {
        0
    } else {
        (match s.last().2 {
            Phase::Pre => 2 * size(*s.last().0),
            Phase::Post => 1,
        }) + work(s.drop_last())
    }
}

proof fn lemma_push_frame(s: Seq<(&Node, bool, Phase)>, f: (&Node, bool, Phase))
    ensures
        s.push(f).drop_last() == s,
        s.push(f).last() == f,
        s.push(f).len() > 0,
{
    assert(s.push(f).drop_last() =~= s);
}

proof fn lemma_list_step(s: Seq<Node>, i: int, plain: bool, k: nat, sourcepos: bool)
    requires
        0 < i <= s.len(),
    ensures
        list_text(s.subrange(i - 1, s.len() as int), plain, k, sourcepos) == frame_text(
            s[i - 1],
            plain,
            k,
            sourcepos,
        ) + list_text(s.subrange(i, s.len() as int), plain, k, sourcepos),
        size_list(s.subrange(i - 1, s.len() as int)) == size(s[i - 1]) + size_list(
            s.subrange(i, s.len() as int),
        ),
        collected_list(s.subrange(i - 1, s.len() as int)) == collected(s[i - 1]) + collected_list(
            s.subrange(i, s.len() as int),
        ),
{
    let t = s.subrange(i - 1, s.len() as int);
    assert(t[0] == s[i - 1]);
    assert(t.drop_first() =~= s.subrange(i, s.len() as int));
}

/// Pushes the children of `n` as opening steps in mode `plain`, last child first, so that they
/// are taken in document order.
fn push_children<'a>(
    stack: &mut Vec<(&'a Node, bool, Phase)>,
    n: &'a Node,
    plain: bool,
    k: Ghost<nat>,
    k0: Ghost<nat>,
    sourcepos: Ghost<bool>,
)
    ensures
        pending(final(stack)@, k@, sourcepos@) == list_text(n.children@, plain, k@, sourcepos@)
            + pending(old(stack)@, k@, sourcepos@),
        stack_ok(old(stack)@, k@, k0@) && (plain || forall|i: int|
            0 <= i < n.children.len() ==> depth_fits(#[trigger] n.children@[i], k@)) ==> stack_ok(
            final(stack)@,
            k@,
            k0@,
        ),
        work(final(stack)@) == work(old(stack)@) + 2 * size_list(n.children@),
{
    let ghost base = stack@;
    let ghost ch = n.children@;
    let mut i: usize = n.children.len();
    assert(ch.subrange(ch.len() as int, ch.len() as int) =~= Seq::<Node>::empty());
    while i > 0
        invariant
            0 <= i <= ch.len(),
            ch == n.children@,
            pending(stack@, k@, sourcepos@) == list_text(
                ch.subrange(i as int, ch.len() as int),
                plain,
                k@,
                sourcepos@,
            ) + pending(base, k@, sourcepos@),
            stack_ok(base, k@, k0@) && (plain || forall|j: int|
                0 <= j < ch.len() ==> depth_fits(#[trigger] ch[j], k@)) ==> stack_ok(
                stack@,
                k@,
                k0@,
            ),
            work(stack@) == work(base) + 2 * size_list(ch.subrange(i as int, ch.len() as int)),
        decreases i,
    {
        i = i - 1;
        let ghost before = stack@;
        stack.push((&n.children[i], plain, Phase::Pre));
        proof {
            lemma_push_frame(before, (&n.children[i as int], plain, Phase::Pre));
            lemma_list_step(ch, i + 1, plain, k@, sourcepos@);
            assert(pending(stack@, k@, sourcepos@) =~= list_text(
                ch.subrange(i as int, ch.len() as int),
                plain,
                k@,
                sourcepos@,
            ) + pending(base, k@, sourcepos@));
        }
    }
    assert(ch.subrange(0, ch.len() as int) =~= ch);
}

/// Renders the tree under `root` as an XML document appended to `output`: the XML prolog and
/// doctype, then the root element and all that it holds, indented two spaces per level.
pub fn format_document(root: &Node, options: &XmlOptions, output: &mut Vec<u8>)
    requires
        depth_fits(*root, 0),
    ensures
        final(output)@ == old(output)@ + document_text(*root, options.sourcepos),
{
    format_document_with_plugins(root, options, output, &Plugins {  })
}

/// Renders the tree under `root` as `format_document` does, with the given extension
/// registry.
pub fn format_document_with_plugins(
    root: &Node,
    options: &XmlOptions,
    output: &mut Vec<u8>,
    plugins: &Plugins,
)
    requires
        depth_fits(*root, 0),
    ensures
        final(output)@ == old(output)@ + document_text(*root, options.sourcepos),
{
    let ghost start = output@;
    write_str(output, "<?xml version=\"1.0\" encoding=\"UTF-8\"?>\n");
    write_str(output, "<!DOCTYPE document SYSTEM \"CommonMark.dtd\">\n");
    let mut formatter = XmlFormatter::new(options, plugins);
    formatter.format(root, false);
    output.append(&mut formatter.output);
    assert(output@ =~= start + document_text(*root, options.sourcepos));
}

impl XmlFormatter {
    /// A renderer with nothing written yet, at indentation zero.
    pub fn new(options: &XmlOptions, plugins: &Plugins) -> (r: XmlFormatter)
        ensures
            r.output@.len() == 0,
            r.sourcepos == options.sourcepos,
            r.indent == 0,
    {
        XmlFormatter { output: Vec::new(), sourcepos: options.sourcepos, indent: 0 }
    }

    /// Writes `buffer` with each of `&`, `<`, `>` and `"` replaced by its named entity.
    pub fn escape(&mut self, buffer: &[u8])
        ensures
            final(self).output@ == old(self).output@ + escape_bytes(buffer@),
            final(self).sourcepos == old(self).sourcepos,
            final(self).indent == old(self).indent,
    {
        write_escaped(&mut self.output, buffer);
    }

    /// Writes as many spaces as the current indentation.
    pub fn indent(&mut self)
        ensures
            final(self).output@ == old(self).output@ + spaces(old(self).indent as nat),
            final(self).sourcepos == old(self).sourcepos,
            final(self).indent == old(self).indent,
    {
        write_spaces(&mut self.output, self.indent);
    }

    /// Writes the attributes of a node type other than `sourcepos` and `xml:space`.
    fn write_value_attrs(&mut self, value: &NodeValue)
        ensures
            final(self).output@ == old(self).output@ + value_attrs(*value),
            final(self).sourcepos == old(self).sourcepos,
            final(self).indent == old(self).indent,
    {
        let ghost start = self.output@;
        match value {
            NodeValue::Document => {
                write_str(&mut self.output, " xmlns=\"http://commonmark.org/xml/1.0\"");
            },
            NodeValue::List(nl) => {
                if nl.list_type == ListType::Bullet {
                    write_str(&mut self.output, " type=\"bullet\"");
                } else {
                    write_str(&mut self.output, " type=\"ordered\" start=\"");
                    write_decimal(&mut self.output, nl.start);
                    write_str(&mut self.output, "\" delim=\"");
                    write_str(&mut self.output, nl.delimiter.xml_name());
                    write_str(&mut self.output, "\"");
                }
                write_str(&mut self.output, " tight=\"");
                write_bool(&mut self.output, nl.tight);
                write_str(&mut self.output, "\"");
            },
            NodeValue::Heading(h) => {
                write_str(&mut self.output, " level=\"");
                write_decimal(&mut self.output, h.level as usize);
                write_str(&mut self.output, "\"");
            },
            NodeValue::CodeBlock(cb) => {
                if cb.info.len() > 0 {
                    write_str(&mut self.output, " info=\"");
                    self.escape(cb.info.as_slice());
                    write_str(&mut self.output, "\"");
                }
            },
            NodeValue::Link(l) | NodeValue::Image(l) => {
                write_str(&mut self.output, " destination=\"");
                self.escape(l.url.as_slice());
                write_str(&mut self.output, "\" title=\"");
                self.escape(l.title.as_slice());
                write_str(&mut self.output, "\"");
            },
            _ => {},
        }
        assert(self.output@ =~= start + value_attrs(*value));
    }

    /// Writes the `sourcepos` attribute where it is asked for and the start line is known.
    fn write_sourcepos(&mut self, node: &Node)
        ensures
            final(self).output@ == old(self).output@ + sourcepos_attr(*node, old(self).sourcepos),
            final(self).sourcepos == old(self).sourcepos,
            final(self).indent == old(self).indent,
    {
        let ghost start = self.output@;
        if self.sourcepos && node.start_line != 0 {
            write_str(&mut self.output, " sourcepos=\"");
            write_decimal(&mut self.output, node.start_line);
            write_str(&mut self.output, ":");
            write_decimal(&mut self.output, node.start_column);
            write_str(&mut self.output, "-");
            write_decimal(&mut self.output, node.end_line);
            write_str(&mut self.output, ":");
            write_decimal(&mut self.output, node.end_column);
            write_str(&mut self.output, "\"");
        }
        assert(self.output@ =~= start + sourcepos_attr(*node, self.sourcepos));
    }

    /// Writes the start of a node's opening tag, `name` being its element name.
    fn write_head(&mut self, node: &Node, name: &str)
        requires
            name.spec_bytes() == tag_name(node.value),
        ensures
            final(self).output@ == old(self).output@ + tag_head(*node, old(self).sourcepos),
            final(self).sourcepos == old(self).sourcepos,
            final(self).indent == old(self).indent,
    {
        let ghost start = self.output@;
        write_str(&mut self.output, "<");
        write_str(&mut self.output, name);
        self.write_sourcepos(node);
        self.write_value_attrs(&node.value);
        assert(self.output@ =~= start + tag_head(*node, self.sourcepos));
    }

    /// Renders the subtree of `node` from the current indentation: as XML, or flattened to text
    /// where `plain` holds. Works through an explicit stack of steps rather than recursion, so
    /// the depth of the tree does not bound the call stack.
    pub fn format(&mut self, node: &Node, plain: bool)
        requires
            plain || depth_fits(*node, old(self).indent as nat),
        ensures
            final(self).output@ == old(self).output@ + frame_text(
                *node,
                plain,
                old(self).indent as nat,
                old(self).sourcepos,
            ),
            final(self).indent == old(self).indent,
            final(self).sourcepos == old(self).sourcepos,
    {
        let ghost start = self.output@;
        let ghost k0 = self.indent as nat;
        let ghost sp = self.sourcepos;
        let mut stack: Vec<(&Node, bool, Phase)> = Vec::new();
        stack.push((node, plain, Phase::Pre));
        proof {
            let e = Seq::<(&Node, bool, Phase)>::empty();
            lemma_push_frame(e, (node, plain, Phase::Pre));
            assert(stack@ == e.push((node, plain, Phase::Pre)));
            assert(pending(e, k0, sp) == Seq::<u8>::empty());
            assert(stack_ok(e, k0, k0));
            assert(self.output@ + pending(stack@, k0, sp) =~= start + frame_text(*node, plain, k0, sp));
        }
        while stack.len() > 0
            invariant
                self.sourcepos == sp,
                self.output@ + pending(stack@, self.indent as nat, sp) == start + frame_text(
                    *node,
                    plain,
                    k0,
                    sp,
                ),
                stack_ok(stack@, self.indent as nat, k0),
            decreases work(stack@),
        {
            let ghost out0 = self.output@;
            let ghost whole = stack@;
            let ghost k = self.indent as nat;
            self.step(&mut stack, Ghost(k0));
            assert(self.output@ + pending(stack@, self.indent as nat, sp) =~= out0 + pending(
                whole,
                k,
                sp,
            ));
        }
    }

    /// Takes the top step off the stack and carries it out: writes what it stands for and
    /// pushes the steps that it leaves to do.
    fn step<'a>(&mut self, stack: &mut Vec<(&'a Node, bool, Phase)>, k0: Ghost<nat>)
        requires
            old(stack)@.len() > 0,
            stack_ok(old(stack)@, old(self).indent as nat, k0@),
        ensures
            final(self).sourcepos == old(self).sourcepos,
            final(self).output@ + pending(final(stack)@, final(self).indent as nat, old(self).sourcepos)
                == old(self).output@ + pending(old(stack)@, old(self).indent as nat, old(self).sourcepos),
            stack_ok(final(stack)@, final(self).indent as nat, k0@),
            work(final(stack)@) < work(old(stack)@),
    {
        let ghost whole = stack@;
        let ghost out0 = self.output@;
        let ghost k = self.indent as nat;
        let ghost sp = self.sourcepos;
        let (n, pl, phase) = stack.pop().unwrap();
        let ghost rest = stack@;
        assert(rest == whole.drop_last());
        match phase {
            Phase::Pre => {
                if pl {
                    self.step_plain(stack, n, Ghost(k0@));
                } else {
                    self.step_open(stack, n, Ghost(k0@));
                }
            },
            Phase::Post => {
                self.format_node(n, false);
                assert(self.output@ + pending(stack@, self.indent as nat, sp) =~= out0 + pending(
                    whole,
                    k,
                    sp,
                ));
            },
        }
    }

    /// Carries out an opening step outside plain mode, `stack` holding the steps below it:
    /// writes what entering the node writes and pushes its closing step, then, for a container,
    /// its children.
    fn step_open<'a>(&mut self, stack: &mut Vec<(&'a Node, bool, Phase)>, n: &'a Node, k0: Ghost<nat>)
        requires
            depth_fits(*n, old(self).indent as nat),
            stack_ok(old(stack)@, old(self).indent as nat, k0@),
        ensures
            final(self).sourcepos == old(self).sourcepos,
            final(self).output@ + pending(final(stack)@, final(self).indent as nat, old(self).sourcepos)
                == old(self).output@ + render(*n, old(self).indent as nat, old(self).sourcepos) + pending(
                old(stack)@,
                old(self).indent as nat,
                old(self).sourcepos,
            ),
            stack_ok(final(stack)@, final(self).indent as nat, k0@),
            work(final(stack)@) < work(old(stack)@) + 2 * size(*n),
    {
        let ghost out0 = self.output@;
        let ghost rest = stack@;
        let ghost k = self.indent as nat;
        let ghost sp = self.sourcepos;
        stack.push((n, false, Phase::Post));
        proof {
            lemma_push_frame(rest, (n, false, Phase::Post));
        }
        let new_plain = self.format_node(n, true);
        if n.children.len() > 0 && n.value.literal().is_none() {
            let ghost k2 = self.indent as nat;
            let ghost with_post = stack@;
            assert(pending(with_post, k2, sp) == close_text(*n, k) + pending(rest, k, sp));
            push_children(stack, n, new_plain, Ghost(k2), Ghost(k0@), Ghost(sp));
            assert(self.output@ + pending(stack@, k2, sp) =~= out0 + render(*n, k, sp) + pending(rest, k, sp));
        } else {
            assert(self.output@ + pending(stack@, k, sp) =~= out0 + render(*n, k, sp) + pending(rest, k, sp));
        }
    }

    /// Carries out an opening step in plain mode, `stack` holding the steps below it: writes
    /// the escaped text of text, code and inline HTML nodes and a space for a line break, and
    /// pushes the children of any other node in plain mode.
    fn step_plain<'a>(&mut self, stack: &mut Vec<(&'a Node, bool, Phase)>, n: &'a Node, k0: Ghost<nat>)
        requires
            stack_ok(old(stack)@, old(self).indent as nat, k0@),
        ensures
            final(self).sourcepos == old(self).sourcepos,
            final(self).indent == old(self).indent,
            final(self).output@ + pending(final(stack)@, old(self).indent as nat, old(self).sourcepos)
                == old(self).output@ + render_plain(*n) + pending(
                old(stack)@,
                old(self).indent as nat,
                old(self).sourcepos,
            ),
            stack_ok(final(stack)@, old(self).indent as nat, k0@),
            work(final(stack)@) < work(old(stack)@) + 2 * size(*n),
    {
        let ghost out0 = self.output@;
        let ghost rest = stack@;
        let ghost k = self.indent as nat;
        let ghost sp = self.sourcepos;
        match &n.value {
            NodeValue::Text(l) => self.escape(l.as_slice()),
            NodeValue::Code(c) => self.escape(c.literal.as_slice()),
            NodeValue::HtmlInline(l) => self.escape(l.as_slice()),
            NodeValue::LineBreak | NodeValue::SoftBreak => {
                write_str(&mut self.output, " ");
            },
            _ => {
                push_children(stack, n, true, Ghost(k), Ghost(k0@), Ghost(sp));
            },
        }
        assert(self.output@ + pending(stack@, k, sp) =~= out0 + render_plain(*n) + pending(rest, k, sp));
    }

    /// Appends to `output` the unescaped text of the subtree of `node`: text and code literals,
    /// and a space for each line break.
    pub fn collect_text(&self, node: &Node, output: &mut Vec<u8>)
        ensures
            final(output)@ == old(output)@ + collected(*node),
        decreases node,
    {
        let ghost start = output@;
        match &node.value {
            NodeValue::Text(l) => write_bytes(output, l.as_slice()),
            NodeValue::Code(c) => write_bytes(output, c.literal.as_slice()),
            NodeValue::LineBreak | NodeValue::SoftBreak => write_str(output, " "),
            _ => {
                let ghost ch = node.children@;
                let mut i: usize = 0;
                assert(ch.subrange(0, ch.len() as int) =~= ch);
                while i < node.children.len()
                    invariant
                        0 <= i <= ch.len(),
                        ch == node.children@,
                        output@ + collected_list(ch.subrange(i as int, ch.len() as int)) == start
                            + collected_list(ch),
                    decreases ch.len() - i,
                {
                    proof {
                        lemma_list_step(ch, i + 1, false, 0, false);
                    }
                    self.collect_text(&node.children[i], output);
                    i = i + 1;
                    assert(output@ + collected_list(ch.subrange(i as int, ch.len() as int)) =~= start
                        + collected_list(ch));
                }
                assert(ch.subrange(ch.len() as int, ch.len() as int) =~= Seq::<Node>::empty());
                assert(output@ =~= start + collected_list(ch));
            },
        }
    }

    /// Writes what a node needs on entering (`entering`) or on leaving it. On entering: the
    /// whole element of a literal or empty node, or the opening tag of a container, after which
    /// the indentation grows by two. On leaving a container: the indentation shrinks by two and
    /// the closing tag is written; leaving any other node writes nothing. Returns whether the
    /// children are to be rendered in plain mode, which no node type asks for.
    #[verifier::rlimit(40)]
    pub fn format_node(&mut self, node: &Node, entering: bool) -> (r: bool)
        requires
            entering && is_container(*node) ==> old(self).indent + 2 <= usize::MAX,
            !entering && is_container(*node) ==> old(self).indent >= 2,
        ensures
            !r,
            final(self).sourcepos == old(self).sourcepos,
            entering ==> final(self).output@ == old(self).output@ + open_text(
                *node,
                old(self).indent as nat,
                old(self).sourcepos,
            ),
            entering ==> final(self).indent == if is_container(*node) {
                old(self).indent + 2
            } else {
                old(self).indent as int
            },
            !entering && is_container(*node) ==> final(self).indent == old(self).indent - 2
                && final(self).output@ == old(self).output@ + close_text(
                *node,
                final(self).indent as nat,
            ),
            !entering && !is_container(*node) ==> final(self).indent == old(self).indent
                && final(self).output@ == old(self).output@,
    {
        let ghost start = self.output@;
        let literal = node.value.literal();
        let has_children = node.children.len() > 0;
        if entering {
            self.indent();
            let name = node.value.xml_node_name();
            self.write_head(node, name);
            let ghost head_end = self.output@;
            match literal {
                Some(l) => {
                    write_str(&mut self.output, " xml:space=\"preserve\">");
                    self.escape(l);
                    write_str(&mut self.output, "</");
                    write_str(&mut self.output, name);
                    write_str(&mut self.output, ">\n");
                },
                None => {
                    if has_children {
                        self.indent = self.indent + 2;
                        write_str(&mut self.output, ">\n");
                    } else {
                        write_str(&mut self.output, " />\n");
                    }
                },
            }
            assert(self.output@ =~= start + open_text(*node, old(self).indent as nat, self.sourcepos))
                by {
                assert(head_end =~= start + spaces(old(self).indent as nat) + tag_head(
                    *node,
                    self.sourcepos,
                ));
            }
        } else if has_children && literal.is_none() {
            self.indent = self.indent - 2;
            self.indent();
            write_str(&mut self.output, "</");
            write_str(&mut self.output, node.value.xml_node_name());
            write_str(&mut self.output, ">\n");
            assert(self.output@ =~= start + close_text(*node, self.indent as nat));
        }
        false
    }
}

} // verus!
