//! The records that extraction produces.

use vstd::prelude::*;

verus! {

/// One extracted construct.
#[derive(Debug)]
pub struct SemanticUnit {
    /// `function` or `class`.
    pub unit_type: String,
    /// A label for the construct: the first line of a code unit, the key of a
    /// configuration section.
    pub name: String,
    /// First line of the construct, counted from 1.
    pub start_line: usize,
    /// Last line of the construct, counted from 1.
    pub end_line: usize,
    /// For a code unit the byte offset where it starts; `0` for a
    /// configuration section.
    pub start_byte: usize,
    /// For a code unit the byte offset where it ends; for a configuration
    /// section the length in bytes of `content`.
    pub end_byte: usize,
    /// The same text as `name`.
    pub signature: String,
    /// The text of the construct.
    pub content: String,
    /// The language or configuration format of the source.
    pub language: String,
}

/// What a [`SemanticUnit`] holds, as mathematical values.
pub struct UnitView {
    pub unit_type: Seq<char>,
    pub name: Seq<char>,
    pub start_line: nat,
    pub end_line: nat,
    pub start_byte: nat,
    pub end_byte: nat,
    pub signature: Seq<char>,
    pub content: Seq<char>,
    pub language: Seq<char>,
}

impl View for SemanticUnit {
    type V = UnitView;

    open spec fn view(&self) -> UnitView {
        UnitView {
            unit_type: self.unit_type@,
            name: self.name@,
            start_line: self.start_line as nat,
            end_line: self.end_line as nat,
            start_byte: self.start_byte as nat,
            end_byte: self.end_byte as nat,
            signature: self.signature@,
            content: self.content@,
            language: self.language@,
        }
    }
}

impl Clone for SemanticUnit {
    fn clone(&self) -> (r: Self)
        ensures
            r@ == self@,
    {
        SemanticUnit {
            unit_type: self.unit_type.clone(),
            name: self.name.clone(),
            start_line: self.start_line,
            end_line: self.end_line,
            start_byte: self.start_byte,
            end_byte: self.end_byte,
            signature: self.signature.clone(),
            content: self.content.clone(),
            language: self.language.clone(),
        }
    }
}

/// The views of a list of units, in order.
pub open spec fn unit_views(units: Seq<SemanticUnit>) -> Seq<UnitView> {
    units.map_values(|u: SemanticUnit| u@)
}

/// Whether the line span of every unit is in order.
pub open spec fn spans_ordered(units: Seq<UnitView>) -> bool {
    forall|i: int| 0 <= i < units.len() ==> (#[trigger] units[i]).start_line <= units[i].end_line
}

/// The outcome of extracting one file.
#[derive(Debug)]
pub struct ParseResult {
    /// The path that was handed in.
    pub file_path: String,
    /// The language or configuration format that the path's extension names.
    pub language: String,
    /// The extracted units, in the order in which they were found.
    pub units: Vec<SemanticUnit>,
    /// How long the extraction took, by the wall clock.
    pub parse_time: core::time::Duration,
}

/// What a [`ParseResult`] holds, as mathematical values. The duration is
/// left out: it is not a function of the input.
pub struct ResultView {
    pub file_path: Seq<char>,
    pub language: Seq<char>,
    pub units: Seq<UnitView>,
}

impl View for ParseResult {
    type V = ResultView;

    open spec fn view(&self) -> ResultView {
        ResultView {
            file_path: self.file_path@,
            language: self.language@,
            units: unit_views(self.units@),
        }
    }
}

impl Clone for ParseResult {
    fn clone(&self) -> (r: Self)
        ensures
            r@ == self@,
    {
        let mut units: Vec<SemanticUnit> = Vec::new();
        let mut i: usize = 0;
        while i < self.units.len()
            invariant
                i <= self.units.len(),
                unit_views(units@) == unit_views(self.units@).take(i as int),
            decreases self.units.len() - i,
        {
            let unit = self.units[i].clone();
            assert(unit@ == self.units@[i as int]@);
            let ghost before = units@;
            units.push(unit);
            assert(unit_views(units@) =~= unit_views(before).push(unit@));
            assert(unit_views(self.units@).take(i + 1) =~= unit_views(self.units@).take(i as int).push(
                self.units@[i as int]@,
            ));
            i += 1;
        }
        assert(unit_views(self.units@).take(self.units.len() as int) =~= unit_views(self.units@));
        ParseResult {
            file_path: self.file_path.clone(),
            language: self.language.clone(),
            units,
            parse_time: self.parse_time,
        }
    }
}

/// The kind of construct a unit stands for.
#[derive(Clone, Copy, Debug, PartialEq, Eq, Structural)]
pub enum UnitKind {
    Function,
    Class,
}

impl UnitKind {
    /// The tag that units of this kind carry in `unit_type`.
    pub open spec fn tag(self) -> Seq<char> {
        match self {
            UnitKind::Function => "function"@,
            UnitKind::Class => "class"@,
        }
    }

    /// The tag as a string.
    pub fn label(self) -> (s: String)
        ensures
            s@ == self.tag(),
    {
        match self {
            UnitKind::Function => "function".to_owned(),
            UnitKind::Class => "class".to_owned(),
        }
    }
}

} // verus!
