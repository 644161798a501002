//! Structural extraction: from the captures of a language's two patterns to
//! semantic units.

use crate::capture::{all_span, all_well_formed, match_views, node_views, CapturedNode, NodeView};
use crate::text::{chars_of, first_line, line_views, lines, split_lines, string_of, trim, trimmed};
use crate::unit::{spans_ordered, unit_views, SemanticUnit, UnitKind, UnitView};
use vstd::prelude::*;
use vstd::utf8::encode_utf8;

verus! {

/// The text that a captured node is labelled by: its own text, or a stand-in
/// where it has none.
pub open spec fn label_source(node: NodeView) -> Seq<char> {
    match node.text {
        Some(t) => t,
        None => "<unknown>"@,
    }
}

/// The content of the unit made of a captured node: the node's text, or the
/// empty text where it has none.
pub open spec fn node_content(node: NodeView) -> Seq<char> {
    match node.text {
        Some(t) => t,
        None => Seq::empty(),
    }
}

/// The unit that stands for a captured node. Its name is the first line of
/// the node's text without the white space around it, which need not be the
/// declared name of the construct.
pub open spec fn code_unit(node: NodeView, kind: UnitKind, language: Seq<char>) -> UnitView {
    let label = trim(first_line(label_source(node)));
    UnitView {
        unit_type: kind.tag(),
        name: label,
        start_line: node.start_row + 1,
        end_line: node.end_row + 1,
        start_byte: node.start_byte,
        end_byte: node.end_byte,
        signature: label,
        content: node_content(node),
        language,
    }
}

/// The units of a run of matches: one for each match that has captured
/// something, made of the first node it has captured, in the order of the
/// matches.
pub open spec fn units_of(matches: Seq<Seq<NodeView>>, kind: UnitKind, language: Seq<char>) -> Seq<
    UnitView,
>
    decreases matches.len(),
{
    if matches.len() == 0 {
        Seq::empty()
    } else {
        let rest = units_of(matches.drop_last(), kind, language);
        if matches.last().len() > 0 {
            rest.push(code_unit(matches.last()[0], kind, language))
        } else {
            rest
        }
    }
}

/// The units of well-formed nodes have their line spans in order, and there
/// is at most one unit for each match.
pub proof fn lemma_units_of_ordered(matches: Seq<Seq<NodeView>>, kind: UnitKind, language: Seq<char>)
    requires
        all_well_formed(matches),
    ensures
        spans_ordered(units_of(matches, kind, language)),
        units_of(matches, kind, language).len() <= matches.len(),
    decreases matches.len(),
{
    if matches.len() > 0 {
        let front = matches.drop_last();
        assert forall|i: int, j: int| 0 <= i < front.len() && 0 <= j < front[i].len() implies (
        #[trigger] front[i][j]).well_formed() by {
            assert(front[i] == matches[i]);
            assert(matches[i][j].well_formed());
        }
        lemma_units_of_ordered(front, kind, language);
        if matches.last().len() > 0 {
            let n = matches[matches.len() - 1][0];
            assert(n.well_formed());
        }
    }
}

/// Whether a unit lies in `source`: its byte span is within the text, and
/// its content is the slice of the text between its byte offsets. Only the
/// unit of a node without text, which is named by the stand-in and has no
/// content, need not hold the slice.
pub open spec fn lies_in(unit: UnitView, source: Seq<char>) -> bool {
    &&& unit.start_byte <= unit.end_byte <= encode_utf8(source).len()
    &&& encode_utf8(unit.content) == encode_utf8(source).subrange(
        unit.start_byte as int,
        unit.end_byte as int,
    ) || (unit.content.len() == 0 && unit.name == trim(first_line("<unknown>"@)))
}

/// The content of the unit of a node that has a text and spans it in
/// `source` is the slice of `source` between the unit's byte offsets.
pub proof fn lemma_content_is_slice(
    node: NodeView,
    kind: UnitKind,
    language: Seq<char>,
    source: Seq<char>,
)
    requires
        node.spans(source),
        node.text is Some,
    ensures
        encode_utf8(code_unit(node, kind, language).content) == encode_utf8(source).subrange(
            code_unit(node, kind, language).start_byte as int,
            code_unit(node, kind, language).end_byte as int,
        ),
{
}

/// Whether every unit of a list lies in `source`.
pub open spec fn all_lie_in(units: Seq<UnitView>, source: Seq<char>) -> bool {
    forall|i: int| 0 <= i < units.len() ==> lies_in(#[trigger] units[i], source)
}

/// The units of nodes that span their text in `source` lie in `source`.
pub proof fn lemma_units_lie_in(
    matches: Seq<Seq<NodeView>>,
    kind: UnitKind,
    language: Seq<char>,
    source: Seq<char>,
)
    requires
        all_well_formed(matches),
        all_span(matches, source),
    ensures
        all_lie_in(units_of(matches, kind, language), source),
    decreases matches.len(),
{
    if matches.len() > 0 {
        let front = matches.drop_last();
        assert forall|i: int, j: int| 0 <= i < front.len() && 0 <= j < front[i].len() implies (
        #[trigger] front[i][j]).well_formed() && front[i][j].spans(source) by {
            assert(front[i] == matches[i]);
            assert(matches[i][j].well_formed());
            assert(matches[i][j].spans(source));
        }
        lemma_units_lie_in(front, kind, language, source);
        if matches.last().len() > 0 {
            let n = matches[matches.len() - 1][0];
            assert(n.well_formed());
            assert(n.spans(source));
        }
    }
}

/// The first line of `text` without the white space around it.
pub fn first_line_trimmed(text: &str) -> (s: String)
    ensures
        s@ == trim(first_line(text@)),
{
    let chars = chars_of(text);
    let ls = split_lines(&chars);
    if ls.len() > 0 {
        assert(lines(text@)[0] == ls@[0]@);
        let t = trimmed(&ls[0]);
        string_of(&t)
    } else {
        assert(lines(text@).len() == line_views(ls@).len());
        let empty: Vec<char> = Vec::new();
        let t = trimmed(&empty);
        string_of(&t)
    }
}

/// The unit that stands for a captured node.
pub fn unit_from_node(node: &CapturedNode, kind: UnitKind, language: &str) -> (unit: SemanticUnit)
    requires
        node@.well_formed(),
    ensures
        unit@ == code_unit(node@, kind, language@),
{
    let name = match &node.text {
        Some(t) => first_line_trimmed(t.as_str()),
        None => first_line_trimmed("<unknown>"),
    };
    let content = match &node.text {
        Some(t) => t.clone(),
        None => String::new(),
    };
    SemanticUnit {
        unit_type: kind.label(),
        name: name.clone(),
        start_line: node.start_row + 1,
        end_line: node.end_row + 1,
        start_byte: node.start_byte,
        end_byte: node.end_byte,
        signature: name,
        content,
        language: language.to_owned(),
    }
}

/// Turns the captures of one pattern into units: each match that has
/// captured something gives one unit, made of its first captured node.
pub fn units_from_captures(matches: &Vec<Vec<CapturedNode>>, kind: UnitKind, language: &str) -> (units:
    Vec<SemanticUnit>)
    requires
        all_well_formed(match_views(matches@)),
    ensures
        unit_views(units@) == units_of(match_views(matches@), kind, language@),
        spans_ordered(unit_views(units@)),
        units.len() <= matches.len(),
{
    let mut units: Vec<SemanticUnit> = Vec::new();
    let ghost all = match_views(matches@);
    let mut i: usize = 0;
    assert(all.take(0) =~= Seq::<Seq<NodeView>>::empty());
    assert(unit_views(units@) =~= Seq::<UnitView>::empty());
    while i < matches.len()
        invariant
            i <= matches.len(),
            all == match_views(matches@),
            all_well_formed(all),
            unit_views(units@) == units_of(all.take(i as int), kind, language@),
        decreases matches.len() - i,
    {
        let m = &matches[i];
        proof {
            assert(all.take(i + 1).drop_last() =~= all.take(i as int));
            assert(all.take(i + 1).last() == all[i as int]);
            assert(all[i as int] == node_views(m@));
        }
        if m.len() > 0 {
            proof {
                assert(all[i as int][0] == m@[0]@);
                assert(all[i as int][0].well_formed());
            }
            let unit = unit_from_node(&m[0], kind, language);
            let ghost before = units@;
            units.push(unit);
            assert(unit_views(units@) =~= unit_views(before).push(unit@));
        }
        i += 1;
    }
    proof {
        assert(all.take(matches.len() as int) =~= all);
        lemma_units_of_ordered(all, kind, language@);
    }
    units
}

} // verus!
