//! Graph rendering: serializing one function body's basic blocks and
//! successor edges into a textual directed-graph (dot) description.

use vstd::prelude::*;
use vstd::string::*;
use crate::cfg::{
    Edge, EdgeLabel, Terminator, edges_of, recognized_opt, successor_edges,
};

verus! {

/// One basic block of a function body: an ordered list of statements
/// (opaque, printable labels) and an optional terminator. A block without
/// a terminator has no outgoing edges.
#[derive(Debug)]
pub struct Block {
    pub statements: Vec<String>,
    pub terminator: Option<Terminator>,
}

/// Rendering error: the block at index `block` carries a terminator kind
/// the classifier does not recognize, so no description is emitted for the
/// unit.
#[derive(Clone, Copy, Debug, PartialEq, Eq, Structural)]
pub struct MalformedIr {
    pub block: usize,
}

/// The fixed first line of every description: the graph-start marker and
/// the default node shape directive.
pub open spec fn prologue() -> Seq<char> {
    "digraph cfg { node [shape=box];\n"@
}

/// The fixed last line of every description: the graph-end marker.
pub open spec fn epilogue() -> Seq<char> {
    "}\n"@
}

/// The character for one decimal digit.
pub open spec fn digit_char(d: nat) -> char
    recommends
        d < 10,
{
    if d == 0 {
        '0'
    } else if d == 1 {
        '1'
    } else if d == 2 {
        '2'
    } else if d == 3 {
        '3'
    } else if d == 4 {
        '4'
    } else if d == 5 {
        '5'
    } else if d == 6 {
        '6'
    } else if d == 7 {
        '7'
    } else if d == 8 {
        '8'
    } else {
        '9'
    }
}

/// The decimal digits of `n`, most significant first, with no leading
/// zeros (`0` itself is the single digit `0`).
pub open spec fn dec_digits(n: nat) -> Seq<char>
    decreases n,
{
    if n < 10 {
        seq![digit_char(n)]
    } else {
        dec_digits(n / 10).push(digit_char(n % 10))
    }
}

/// The views of a block's statements.
pub open spec fn stmt_views(statements: Seq<String>) -> Seq<Seq<char>> {
    statements.map_values(|s: String| s@)
}

/// The statement part of a node label: the statements joined by the
/// two-character escape `\n`, so that each statement sits on its own line
/// of the displayed label. An empty statement list yields an empty region.
pub open spec fn label_body(stmts: Seq<Seq<char>>) -> Seq<char>
    decreases stmts.len(),
{
    if stmts.len() == 0 {
        Seq::empty()
    } else if stmts.len() == 1 {
        stmts[0]
    } else {
        label_body(stmts.drop_last()) + "\\n"@ + stmts.last()
    }
}

/// The node line of the block at index `i`: the block index, then a label
/// holding the index, a blank line, and the statement list.
pub open spec fn node_line(i: nat, stmts: Seq<Seq<char>>) -> Seq<char> {
    dec_digits(i) + " [label=\""@ + dec_digits(i) + "\\n\\n"@ + label_body(stmts) + "\"];\n"@
}

/// The text of an edge label.
pub open spec fn label_text(l: EdgeLabel) -> Seq<char> {
    match l {
        EdgeLabel::Goto => "Goto"@,
        EdgeLabel::SwitchInt => "SwitchInt"@,
        EdgeLabel::Call => "Call"@,
        EdgeLabel::Cleanup => "Cleanup"@,
        EdgeLabel::Drop => "Drop"@,
        EdgeLabel::Unwind => "Unwind"@,
        EdgeLabel::DropReplace => "DropReplace"@,
        EdgeLabel::Assertion => "Assert"@,
    }
}

/// One edge line: source index, arrow, destination index, label.
pub open spec fn edge_line(src: nat, e: Edge) -> Seq<char> {
    dec_digits(src) + " -> "@ + dec_digits(e.target as nat) + " [label=\""@ + label_text(e.label)
        + "\"];\n"@
}

/// The edge lines of one block, in edge order.
pub open spec fn edge_lines(src: nat, edges: Seq<Edge>) -> Seq<char>
    decreases edges.len(),
{
    if edges.len() == 0 {
        Seq::empty()
    } else {
        edge_lines(src, edges.drop_last()) + edge_line(src, edges.last())
    }
}

/// All node lines of a body, in block order.
pub open spec fn node_section(blocks: Seq<Block>) -> Seq<char>
    decreases blocks.len(),
{
    if blocks.len() == 0 {
        Seq::empty()
    } else {
        node_section(blocks.drop_last()) + node_line(
            (blocks.len() - 1) as nat,
            stmt_views(blocks.last().statements@),
        )
    }
}

/// All edge lines of a body, grouped by source block in block order.
pub open spec fn edge_section(blocks: Seq<Block>) -> Seq<char>
    decreases blocks.len(),
{
    if blocks.len() == 0 {
        Seq::empty()
    } else {
        edge_section(blocks.drop_last()) + edge_lines(
            (blocks.len() - 1) as nat,
            edges_of(blocks.last().terminator),
        )
    }
}

/// Whether every block of the body carries a recognized (or absent)
/// terminator.
pub open spec fn body_recognized(blocks: Seq<Block>) -> bool {
    forall|i: int| 0 <= i < blocks.len() ==> recognized_opt(#[trigger] blocks[i].terminator)
}

/// The full description of a body: prologue, all node lines, all edge
/// lines, epilogue.
pub open spec fn render_spec(blocks: Seq<Block>) -> Seq<char> {
    prologue() + node_section(blocks) + edge_section(blocks) + epilogue()
}

/// Appends the decimal digits of `n`.
fn push_decimal(out: &mut String, n: usize)
    ensures
        final(out)@ == old(out)@ + dec_digits(n as nat),
    decreases n,
{
    if n >= 10 {
        push_decimal(out, n / 10);
    }
    let d: usize = n % 10;
    let s: &str = if d == 0 {
        "0"
    } else if d == 1 {
        "1"
    } else if d == 2 {
        "2"
    } else if d == 3 {
        "3"
    } else if d == 4 {
        "4"
    } else if d == 5 {
        "5"
    } else if d == 6 {
        "6"
    } else if d == 7 {
        "7"
    } else if d == 8 {
        "8"
    } else {
        "9"
    };
    proof {
        reveal_strlit("0");
        reveal_strlit("1");
        reveal_strlit("2");
        reveal_strlit("3");
        reveal_strlit("4");
        reveal_strlit("5");
        reveal_strlit("6");
        reveal_strlit("7");
        reveal_strlit("8");
        reveal_strlit("9");
        assert(s@ =~= seq![digit_char(n as nat % 10)]);
    }
    out.append(s);
    proof {
        assert(out@ =~= old(out)@ + dec_digits(n as nat));
    }
}

/// Appends the node line of the block at index `i`.
fn push_node_line(out: &mut String, i: usize, statements: &Vec<String>)
    ensures
        final(out)@ == old(out)@ + node_line(i as nat, stmt_views(statements@)),
{
    push_decimal(out, i);
    out.append(" [label=\"");
    push_decimal(out, i);
    out.append("\\n\\n");
    let ghost views = stmt_views(statements@);
    let mut j: usize = 0;
    while j < statements.len()
        invariant
            j <= statements@.len(),
            views == stmt_views(statements@),
            out@ == old(out)@ + dec_digits(i as nat) + " [label=\""@ + dec_digits(i as nat)
                + "\\n\\n"@ + label_body(views.take(j as int)),
        decreases statements@.len() - j,
    {
        if j > 0 {
            out.append("\\n");
        }
        out.append(statements[j].as_str());
        proof {
            assert(views.take(j + 1).drop_last() =~= views.take(j as int));
            assert(views.take(j + 1).last() == statements@[j as int]@);
            assert(out@ =~= old(out)@ + dec_digits(i as nat) + " [label=\""@ + dec_digits(i as nat)
                + "\\n\\n"@ + label_body(views.take(j + 1)));
        }
        j += 1;
    }
    proof {
        assert(views.take(statements@.len() as int) =~= views);
    }
    out.append("\"];\n");
    proof {
        assert(out@ =~= old(out)@ + node_line(i as nat, stmt_views(statements@)));
    }
}

/// Appends one edge line.
fn push_edge_line(out: &mut String, src: usize, e: &Edge)
    ensures
        final(out)@ == old(out)@ + edge_line(src as nat, *e),
{
    push_decimal(out, src);
    out.append(" -> ");
    push_decimal(out, e.target);
    out.append(" [label=\"");
    let label: &str = match e.label {
        EdgeLabel::Goto => "Goto",
        EdgeLabel::SwitchInt => "SwitchInt",
        EdgeLabel::Call => "Call",
        EdgeLabel::Cleanup => "Cleanup",
        EdgeLabel::Drop => "Drop",
        EdgeLabel::Unwind => "Unwind",
        EdgeLabel::DropReplace => "DropReplace",
        EdgeLabel::Assertion => "Assert",
    };
    assert(label@ == label_text(e.label));
    out.append(label);
    out.append("\"];\n");
    proof {
        assert(out@ =~= old(out)@ + edge_line(src as nat, *e));
    }
}

/// Appends all edge lines of one block.
fn push_edge_lines(out: &mut String, src: usize, edges: &Vec<Edge>)
    ensures
        final(out)@ == old(out)@ + edge_lines(src as nat, edges@),
{
    let mut k: usize = 0;
    while k < edges.len()
        invariant
            k <= edges@.len(),
            out@ == old(out)@ + edge_lines(src as nat, edges@.take(k as int)),
        decreases edges@.len() - k,
    {
        push_edge_line(out, src, &edges[k]);
        proof {
            assert(edges@.take(k + 1).drop_last() =~= edges@.take(k as int));
            assert(edges@.take(k + 1).last() == edges@[k as int]);
            assert(out@ =~= old(out)@ + edge_lines(src as nat, edges@.take(k + 1)));
        }
        k += 1;
    }
    proof {
        assert(edges@.take(edges@.len() as int) =~= edges@);
    }
}

impl MalformedIr {
    /// The failure, as a line of text naming the offending block, for
    /// error reports that must locate the failure for the caller.
    pub fn describe(&self) -> (s: String)
        ensures
            s@ == "unrecognized terminator in block "@ + dec_digits(self.block as nat),
    {
        let mut s = String::from_str("unrecognized terminator in block ");
        push_decimal(&mut s, self.block);
        s
    }
}

/// A body with no blocks renders to the prologue and the epilogue alone,
/// with no node or edge lines between them.
pub proof fn lemma_render_empty()
    ensures
        render_spec(Seq::empty()) == prologue() + epilogue(),
{
    assert(render_spec(Seq::empty()) =~= prologue() + epilogue());
}

/// Rendering is a pure function of the body: the same blocks always yield
/// byte-identical descriptions, however often they are rendered.
pub proof fn lemma_render_deterministic(a: Seq<Block>, b: Seq<Block>)
    requires
        a == b,
    ensures
        render_spec(a) == render_spec(b),
{
}

/// Renders one function body as a directed-graph description: the fixed
/// prologue, one node line per basic block (identified by its index), one
/// edge line per successor edge, and the fixed epilogue. If any block
/// carries an unrecognized terminator, no description is produced and the
/// first such block is reported instead.
pub fn render_body(blocks: &Vec<Block>) -> (r: Result<String, MalformedIr>)
    ensures
        r matches Ok(s) ==> s@ == render_spec(blocks@),
        r is Err <==> !body_recognized(blocks@),
        r matches Err(e) ==> {
            &&& e.block < blocks@.len()
            &&& !recognized_opt(blocks@[e.block as int].terminator)
            &&& forall|j: int|
                0 <= j < e.block ==> recognized_opt(#[trigger] blocks@[j].terminator)
        },
{
    let mut nodes = String::new();
    let mut edge_text = String::new();
    let mut i: usize = 0;
    while i < blocks.len()
        invariant
            i <= blocks@.len(),
            nodes@ == node_section(blocks@.take(i as int)),
            edge_text@ == edge_section(blocks@.take(i as int)),
            forall|j: int| 0 <= j < i ==> recognized_opt(#[trigger] blocks@[j].terminator),
        decreases blocks@.len() - i,
    {
        let b = &blocks[i];
        push_node_line(&mut nodes, i, &b.statements);
        match successor_edges(&b.terminator) {
            Ok(es) => push_edge_lines(&mut edge_text, i, &es),
            Err(_) => {
                return Err(MalformedIr { block: i });
            },
        }
        proof {
            assert(blocks@.take(i + 1).drop_last() =~= blocks@.take(i as int));
            assert(blocks@.take(i + 1).last() == blocks@[i as int]);
            assert(nodes@ =~= node_section(blocks@.take(i + 1)));
            assert(edge_text@ =~= edge_section(blocks@.take(i + 1)));
        }
        i += 1;
    }
    proof {
        assert(blocks@.take(blocks@.len() as int) =~= blocks@);
    }
    let mut out = String::from_str("digraph cfg { node [shape=box];\n");
    out.append(nodes.as_str());
    out.append(edge_text.as_str());
    out.append("}\n");
    proof {
        assert(out@ =~= render_spec(blocks@));
    }
    Ok(out)
}

} // verus!
