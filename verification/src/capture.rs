//! Captured syntax nodes, as plain values.

use vstd::prelude::*;
use vstd::utf8::encode_utf8;

verus! {

/// What extraction reads of a captured syntax node.
#[derive(Debug)]
pub struct CapturedNode {
    /// Byte offset where the node starts.
    pub start_byte: usize,
    /// Byte offset where the node ends.
    pub end_byte: usize,
    /// Row of the node's first byte, counted from 0.
    pub start_row: usize,
    /// Row of the node's last byte, counted from 0.
    pub end_row: usize,
    /// The source text that the node spans; `None` where those bytes are not
    /// text on their own.
    pub text: Option<String>,
}

/// What a [`CapturedNode`] holds, as mathematical values.
pub struct NodeView {
    pub start_byte: nat,
    pub end_byte: nat,
    pub start_row: nat,
    pub end_row: nat,
    pub text: Option<Seq<char>>,
}

impl View for CapturedNode {
    type V = NodeView;

    open spec fn view(&self) -> NodeView {
        NodeView {
            start_byte: self.start_byte as nat,
            end_byte: self.end_byte as nat,
            start_row: self.start_row as nat,
            end_row: self.end_row as nat,
            text: match self.text {
                Some(t) => Some(t@),
                None => None,
            },
        }
    }
}

impl NodeView {
    /// Whether the node is one that a syntax tree can hold: it ends no earlier
    /// than it starts, and its rows can be counted from 1.
    pub open spec fn well_formed(self) -> bool {
        &&& self.start_byte <= self.end_byte
        &&& self.start_row <= self.end_row
        &&& self.end_row < usize::MAX
    }

    /// Whether the node lies in `source` and its text, where it has one, is
    /// the slice of `source` between its byte offsets.
    pub open spec fn spans(self, source: Seq<char>) -> bool {
        &&& self.end_byte <= encode_utf8(source).len()
        &&& self.text matches Some(t) ==> encode_utf8(t) == encode_utf8(source).subrange(
            self.start_byte as int,
            self.end_byte as int,
        )
    }
}

/// The views of the captured nodes of one match.
pub open spec fn node_views(nodes: Seq<CapturedNode>) -> Seq<NodeView> {
    nodes.map_values(|n: CapturedNode| n@)
}

/// The views of the captured nodes of a run of matches.
pub open spec fn match_views(matches: Seq<Vec<CapturedNode>>) -> Seq<Seq<NodeView>> {
    matches.map_values(|m: Vec<CapturedNode>| node_views(m@))
}

/// Whether every node of every match is well formed.
pub open spec fn all_well_formed(matches: Seq<Seq<NodeView>>) -> bool {
    forall|i: int, j: int|
        0 <= i < matches.len() && 0 <= j < matches[i].len() ==> (#[trigger] matches[i][j]).well_formed()
}

/// Whether every node of every match spans its text in `source`.
pub open spec fn all_span(matches: Seq<Seq<NodeView>>, source: Seq<char>) -> bool {
    forall|i: int, j: int|
        0 <= i < matches.len() && 0 <= j < matches[i].len() ==> (#[trigger] matches[i][j]).spans(source)
}

} // verus!
