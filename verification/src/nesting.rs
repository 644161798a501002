//! How deep the value nests that a TOML text describes, found without
//! parsing the text.
//!
//! The text is read once, code point by code point. Strings and comments
//! are told from the rest as TOML tells them, so that a bracket or a dot in
//! a string neither opens nor closes anything. Outside strings and
//! comments the reading keeps the open brackets and braces on a stack and
//! counts the dots of the keys that enclose the place where it stands; the
//! dots of a key are dropped where its value ends. The parts of the table
//! header under which a statement stands are counted with it. Each unit of
//! the count is a table or an array of the value that a parser builds, one
//! inside the other.
//!
//! For a text that is TOML the count is the nesting of its value, with one
//! exception: a part of a header is counted twice where it may name an
//! array of tables, which is judged by the longest header in double
//! brackets read so far and not by its keys. For a text that is not TOML
//! the count is a count and nothing more.

use crate::text::chars_of;
use vstd::prelude::*;

verus! {

/// The nesting up to which a TOML text is handed to its parser. The parser,
/// and everything that later walks the value it has built, descends one
/// level of calls for each level of nesting and keeps no bound of its own;
/// the stack of a thread does. A worker thread with a stack of 2 MiB holds
/// at least 512 levels where the code is not optimised and more where it
/// is; the limit leaves half of that unused.
pub const TOML_NESTING_LIMIT: usize = 256;

/// Where in a text the reading stands.
#[derive(Clone, Copy, Debug, PartialEq, Eq, Structural)]
pub enum Mode {
    /// Outside strings and comments.
    Plain,
    /// In a comment, which runs to the end of its line.
    Comment,
    /// One quote has been read; a string begins.
    Opened { double: bool },
    /// Two quotes have been read: an empty string, or the start of a string
    /// of several lines.
    OpenedTwice { double: bool },
    /// In a string of one line.
    Quoted { double: bool },
    /// After a backslash in a string in double quotes.
    Escaped { block: bool },
    /// In a string of several lines, `run` quotes of its kind having just
    /// been read.
    Block { double: bool, run: u8 },
    /// The three quotes that close a string of several lines have been read;
    /// `extra` more have followed and belong to the string.
    Closed { double: bool, extra: u8 },
}

/// An open bracket or brace.
#[derive(Clone, Copy, Debug)]
pub struct Frame {
    /// Whether it is a brace.
    pub brace: bool,
    /// The dots that were open where it was read.
    pub base: usize,
}

/// What a [`Frame`] holds, as mathematical values.
pub struct FrameView {
    pub brace: bool,
    pub base: int,
}

impl View for Frame {
    type V = FrameView;

    open spec fn view(&self) -> FrameView {
        FrameView { brace: self.brace, base: self.base as int }
    }
}

/// The views of a stack of frames.
pub open spec fn frame_views(stack: Seq<Frame>) -> Seq<FrameView> {
    stack.map_values(|f: Frame| f@)
}

/// What the reading of a text keeps, as mathematical values.
pub struct ScanView {
    pub mode: Mode,
    /// The brackets and braces that are open, the innermost last.
    pub stack: Seq<FrameView>,
    /// Whether a key may come next.
    pub keying: bool,
    /// The dots of the keys that enclose the place of reading.
    pub dots: int,
    /// The brackets of a table header that is being read: none, one or two.
    pub heading: int,
    /// The levels that the table header above the place of reading stands
    /// for.
    pub table: int,
    /// The greatest number of parts of a header in double brackets so far.
    pub arrays: int,
}

/// The reading before the first code point.
pub open spec fn scan_start() -> ScanView {
    ScanView {
        mode: Mode::Plain,
        stack: Seq::empty(),
        keying: true,
        dots: 0,
        heading: 0,
        table: 0,
        arrays: 0,
    }
}

/// The quote that delimits a string in double or in single quotes.
pub open spec fn quote(double: bool) -> char {
    if double {
        '"'
    } else {
        '\''
    }
}

/// The lesser of two numbers.
pub open spec fn lesser(a: int, b: int) -> int {
    if a <= b {
        a
    } else {
        b
    }
}

/// The greater of two numbers.
pub open spec fn greater(a: int, b: int) -> int {
    if a >= b {
        a
    } else {
        b
    }
}

/// The reading at the start of a line. With nothing open a new statement
/// begins: a key may come, and no dots are open.
pub open spec fn next_line(s: ScanView) -> ScanView {
    if s.stack.len() == 0 {
        ScanView { mode: Mode::Plain, keying: true, dots: 0, heading: 0, ..s }
    } else {
        ScanView { mode: Mode::Plain, keying: false, ..s }
    }
}

/// The reading after the bracket that closes a table header of
/// `s.dots + 1` parts. Each part is a table; as many of them as the longest
/// header in double brackets has parts may be an array of tables besides.
pub open spec fn header_read(s: ScanView) -> ScanView {
    let parts = s.dots + 1;
    let arrays = if s.heading == 2 {
        greater(s.arrays, parts)
    } else {
        s.arrays
    };
    ScanView {
        keying: false,
        dots: 0,
        heading: 0,
        table: parts + lesser(parts, arrays),
        arrays,
        ..s
    }
}

/// The reading after an open bracket or brace.
pub open spec fn opened(s: ScanView, brace: bool) -> ScanView {
    ScanView {
        stack: s.stack.push(FrameView { brace, base: s.dots }),
        keying: brace,
        ..s
    }
}

/// The reading after the bracket or brace that closes the innermost open
/// one: the dots of the keys inside it are dropped.
pub open spec fn closed(s: ScanView) -> ScanView {
    ScanView { stack: s.stack.drop_last(), keying: false, dots: s.stack.last().base, ..s }
}

/// The reading after `c`, read outside strings and comments.
pub open spec fn plain_step(s: ScanView, c: char) -> ScanView {
    let s = ScanView { mode: Mode::Plain, ..s };
    if c == '\n' {
        next_line(s)
    } else if c == '#' {
        ScanView { mode: Mode::Comment, ..s }
    } else if c == '"' {
        ScanView { mode: Mode::Opened { double: true }, ..s }
    } else if c == '\'' {
        ScanView { mode: Mode::Opened { double: false }, ..s }
    } else if c == '[' {
        if s.stack.len() == 0 && s.keying && s.dots == 0 && s.heading < 2 {
            ScanView { heading: s.heading + 1, table: 0, ..s }
        } else {
            opened(s, false)
        }
    } else if c == '{' {
        opened(s, true)
    } else if c == ']' {
        if s.stack.len() == 0 {
            if s.heading > 0 {
                header_read(s)
            } else {
                s
            }
        } else if !s.stack.last().brace {
            closed(s)
        } else {
            s
        }
    } else if c == '}' {
        if s.stack.len() > 0 && s.stack.last().brace {
            closed(s)
        } else {
            s
        }
    } else if c == '=' {
        ScanView { keying: false, ..s }
    } else if c == ',' {
        if s.stack.len() > 0 {
            ScanView { keying: s.stack.last().brace, dots: s.stack.last().base, ..s }
        } else {
            s
        }
    } else if c == '.' && s.keying {
        ScanView { dots: s.dots + 1, ..s }
    } else {
        s
    }
}

/// The reading after `c`, read in a string of one line in the given quotes.
pub open spec fn quoted_step(s: ScanView, double: bool, c: char) -> ScanView {
    if c == '\n' {
        next_line(s)
    } else if c == quote(double) {
        ScanView { mode: Mode::Plain, ..s }
    } else if double && c == '\\' {
        ScanView { mode: Mode::Escaped { block: false }, ..s }
    } else {
        ScanView { mode: Mode::Quoted { double }, ..s }
    }
}

/// The reading after `c`.
pub open spec fn step(s: ScanView, c: char) -> ScanView {
    match s.mode {
        Mode::Plain => plain_step(s, c),
        Mode::Comment => if c == '\n' {
            next_line(s)
        } else {
            s
        },
        Mode::Opened { double } => if c == quote(double) {
            ScanView { mode: Mode::OpenedTwice { double }, ..s }
        } else {
            quoted_step(s, double, c)
        },
        Mode::OpenedTwice { double } => if c == quote(double) {
            ScanView { mode: Mode::Block { double, run: 0 }, ..s }
        } else {
            plain_step(s, c)
        },
        Mode::Quoted { double } => quoted_step(s, double, c),
        Mode::Escaped { block } => if block {
            ScanView { mode: Mode::Block { double: true, run: 0 }, ..s }
        } else if c == '\n' {
            next_line(s)
        } else {
            ScanView { mode: Mode::Quoted { double: true }, ..s }
        },
        Mode::Block { double, run } => if c == quote(double) {
            if run >= 2 {
                ScanView { mode: Mode::Closed { double, extra: 0 }, ..s }
            } else {
                ScanView { mode: Mode::Block { double, run: (run + 1) as u8 }, ..s }
            }
        } else if double && c == '\\' {
            ScanView { mode: Mode::Escaped { block: true }, ..s }
        } else {
            ScanView { mode: Mode::Block { double, run: 0 }, ..s }
        },
        Mode::Closed { double, extra } => if c == quote(double) && extra < 2 {
            ScanView { mode: Mode::Closed { double, extra: (extra + 1) as u8 }, ..s }
        } else {
            plain_step(s, c)
        },
    }
}

/// The reading at the end of `text`.
pub open spec fn scan(text: Seq<char>) -> ScanView
    decreases text.len(),
{
    if text.len() == 0 {
        scan_start()
    } else {
        step(scan(text.drop_last()), text.last())
    }
}

/// How deep the value nests where the reading stands: the levels of the
/// table header, the open brackets and braces, and the open dots of keys.
pub open spec fn nesting(s: ScanView) -> int {
    s.table + s.heading + s.stack.len() + s.dots
}

/// Whether `source` nowhere nests deeper than `limit`.
pub open spec fn nesting_within(source: Seq<char>, limit: int) -> bool {
    forall|n: int| 0 <= n <= source.len() ==> nesting(scan(#[trigger] source.take(n))) <= limit
}

/// What the reading of a text keeps.
#[derive(Debug)]
pub struct Scan {
    mode: Mode,
    stack: Vec<Frame>,
    keying: bool,
    dots: usize,
    heading: u8,
    table: usize,
    arrays: usize,
}

impl View for Scan {
    type V = ScanView;

    closed spec fn view(&self) -> ScanView {
        ScanView {
            mode: self.mode,
            stack: frame_views(self.stack@),
            keying: self.keying,
            dots: self.dots as int,
            heading: self.heading as int,
            table: self.table as int,
            arrays: self.arrays as int,
        }
    }
}

/// The quote that delimits a string in double or in single quotes.
fn delimiter(double: bool) -> (c: char)
    ensures
        c == quote(double),
{
    if double {
        '"'
    } else {
        '\''
    }
}

impl Scan {
    /// Whether the reading is one that `advance` can have made: no frame
    /// remembers more dots than are open now or than a frame above it, and
    /// the small counters are in their range.
    pub closed spec fn well_formed(&self) -> bool {
        &&& self.heading <= 2
        &&& forall|i: int| 0 <= i < self.stack@.len() ==> (#[trigger] self.stack@[i]).base <= self.dots
        &&& forall|i: int, j: int|
            0 <= i <= j < self.stack@.len() ==> (#[trigger] self.stack@[i]).base <= (
            #[trigger] self.stack@[j]).base
        &&& self.mode matches Mode::Block { run, .. } ==> run <= 2
        &&& self.mode matches Mode::Closed { extra, .. } ==> extra <= 2
    }

    /// The reading before the first code point.
    pub fn start() -> (s: Scan)
        ensures
            s@ == scan_start(),
            s.well_formed(),
            nesting(s@) == 0,
    {
        let s = Scan {
            mode: Mode::Plain,
            stack: Vec::new(),
            keying: true,
            dots: 0,
            heading: 0,
            table: 0,
            arrays: 0,
        };
        assert(frame_views(s.stack@) =~= Seq::<FrameView>::empty());
        s
    }

    /// How deep the value nests where the reading stands.
    pub fn level(&self) -> (n: usize)
        requires
            self.well_formed(),
            nesting(self@) <= usize::MAX,
        ensures
            n == nesting(self@),
    {
        let heading: usize = self.heading as usize;
        self.table + heading + self.stack.len() + self.dots
    }

    fn with_mode(self, mode: Mode) -> (s: Scan)
        requires
            self.well_formed(),
            mode matches Mode::Block { run, .. } ==> run <= 2,
            mode matches Mode::Closed { extra, .. } ==> extra <= 2,
        ensures
            s@ == (ScanView { mode, ..self@ }),
            s.well_formed(),
    {
        Scan { mode, ..self }
    }

    fn line_start(self) -> (s: Scan)
        requires
            self.well_formed(),
        ensures
            s@ == next_line(self@),
            s.well_formed(),
            nesting(s@) <= nesting(self@),
    {
        if self.stack.len() == 0 {
            let s = Scan { mode: Mode::Plain, keying: true, dots: 0, heading: 0, ..self };
            s
        } else {
            Scan { mode: Mode::Plain, keying: false, ..self }
        }
    }

    fn open(self, brace: bool, limit: usize) -> (r: Option<Scan>)
        requires
            self.well_formed(),
            self.mode == Mode::Plain,
            nesting(self@) <= limit,
        ensures
            match r {
                Some(s) => s@ == opened(self@, brace) && s.well_formed() && nesting(s@) <= limit,
                None => nesting(opened(self@, brace)) > limit,
            },
    {
        if self.level() >= limit {
            return None;
        }
        let mut s = self;
        let ghost before = s.stack@;
        s.stack.push(Frame { brace, base: s.dots });
        s.keying = brace;
        proof {
            assert(frame_views(s.stack@) =~= frame_views(before).push(
                FrameView { brace, base: s.dots as int },
            ));
        }
        Some(s)
    }

    fn close(self) -> (s: Scan)
        requires
            self.well_formed(),
            self.mode == Mode::Plain,
            self.stack@.len() > 0,
        ensures
            s@ == closed(self@),
            s.well_formed(),
            nesting(s@) <= nesting(self@),
    {
        let mut s = self;
        let ghost before = s.stack@;
        let frame = s.stack.pop().unwrap();
        s.dots = frame.base;
        s.keying = false;
        proof {
            assert(frame_views(s.stack@) =~= frame_views(before).drop_last());
            assert(frame_views(before).last() == frame@);
            assert forall|i: int| 0 <= i < s.stack@.len() implies (#[trigger] s.stack@[i]).base
                <= s.dots by {
                assert(s.stack@[i] == before[i]);
                assert(before[i].base <= before[before.len() - 1].base);
            }
            assert forall|i: int, j: int| 0 <= i <= j < s.stack@.len() implies (
            #[trigger] s.stack@[i]).base <= (#[trigger] s.stack@[j]).base by {
                assert(s.stack@[i] == before[i]);
                assert(s.stack@[j] == before[j]);
            }
        }
        s
    }

    fn header_end(self, limit: usize) -> (r: Option<Scan>)
        requires
            self.well_formed(),
            self.mode == Mode::Plain,
            self.stack@.len() == 0,
            self.heading > 0,
            nesting(self@) <= limit,
        ensures
            match r {
                Some(s) => s@ == header_read(self@) && s.well_formed() && nesting(s@) <= limit,
                None => nesting(header_read(self@)) > limit,
            },
    {
        let parts: usize = self.dots + 1;
        let arrays: usize = if self.heading == 2 && parts > self.arrays {
            parts
        } else {
            self.arrays
        };
        let twice: usize = if parts <= arrays {
            parts
        } else {
            arrays
        };
        if twice > limit - parts {
            return None;
        }
        let s = Scan {
            keying: false,
            dots: 0,
            heading: 0,
            table: parts + twice,
            arrays,
            ..self
        };
        Some(s)
    }

    fn plain(self, c: char, limit: usize) -> (r: Option<Scan>)
        requires
            self.well_formed(),
            nesting(self@) <= limit,
        ensures
            match r {
                Some(s) => s@ == plain_step(self@, c) && s.well_formed() && nesting(s@) <= limit,
                None => nesting(plain_step(self@, c)) > limit,
            },
    {
        let s = self.with_mode(Mode::Plain);
        if c == '\n' {
            Some(s.line_start())
        } else if c == '#' {
            Some(s.with_mode(Mode::Comment))
        } else if c == '"' {
            Some(s.with_mode(Mode::Opened { double: true }))
        } else if c == '\'' {
            Some(s.with_mode(Mode::Opened { double: false }))
        } else if c == '[' {
            if s.stack.len() == 0 && s.keying && s.dots == 0 && s.heading < 2 {
                if s.level() - s.table >= limit {
                    return None;
                }
                Some(Scan { heading: s.heading + 1, table: 0, ..s })
            } else {
                s.open(false, limit)
            }
        } else if c == '{' {
            s.open(true, limit)
        } else if c == ']' {
            if s.stack.len() == 0 {
                if s.heading > 0 {
                    s.header_end(limit)
                } else {
                    Some(s)
                }
            } else if !s.stack[s.stack.len() - 1].brace {
                Some(s.close())
            } else {
                Some(s)
            }
        } else if c == '}' {
            if s.stack.len() > 0 && s.stack[s.stack.len() - 1].brace {
                Some(s.close())
            } else {
                Some(s)
            }
        } else if c == '=' {
            Some(Scan { keying: false, ..s })
        } else if c == ',' {
            if s.stack.len() > 0 {
                let last = s.stack[s.stack.len() - 1];
                proof {
                    assert(frame_views(s.stack@).last() == last@);
                }
                Some(Scan { keying: last.brace, dots: last.base, ..s })
            } else {
                Some(s)
            }
        } else if c == '.' && s.keying {
            if s.level() >= limit {
                return None;
            }
            Some(Scan { dots: s.dots + 1, ..s })
        } else {
            Some(s)
        }
    }

    fn quoted(self, double: bool, c: char) -> (s: Scan)
        requires
            self.well_formed(),
        ensures
            s@ == quoted_step(self@, double, c),
            s.well_formed(),
            nesting(s@) <= nesting(self@),
    {
        if c == '\n' {
            self.line_start()
        } else if c == delimiter(double) {
            self.with_mode(Mode::Plain)
        } else if double && c == '\\' {
            self.with_mode(Mode::Escaped { block: false })
        } else {
            self.with_mode(Mode::Quoted { double })
        }
    }

    /// The reading after `c`, or `None` where that reading nests deeper
    /// than `limit`.
    pub fn advance(self, c: char, limit: usize) -> (r: Option<Scan>)
        requires
            self.well_formed(),
            nesting(self@) <= limit,
        ensures
            match r {
                Some(s) => s@ == step(self@, c) && s.well_formed() && nesting(s@) <= limit,
                None => nesting(step(self@, c)) > limit,
            },
    {
        match self.mode {
            Mode::Plain => self.plain(c, limit),
            Mode::Comment => if c == '\n' {
                Some(self.line_start())
            } else {
                Some(self)
            },
            Mode::Opened { double } => if c == delimiter(double) {
                Some(self.with_mode(Mode::OpenedTwice { double }))
            } else {
                Some(self.quoted(double, c))
            },
            Mode::OpenedTwice { double } => if c == delimiter(double) {
                Some(self.with_mode(Mode::Block { double, run: 0 }))
            } else {
                self.plain(c, limit)
            },
            Mode::Quoted { double } => Some(self.quoted(double, c)),
            Mode::Escaped { block } => if block {
                Some(self.with_mode(Mode::Block { double: true, run: 0 }))
            } else if c == '\n' {
                Some(self.line_start())
            } else {
                Some(self.with_mode(Mode::Quoted { double: true }))
            },
            Mode::Block { double, run } => if c == delimiter(double) {
                if run >= 2 {
                    Some(self.with_mode(Mode::Closed { double, extra: 0 }))
                } else {
                    Some(self.with_mode(Mode::Block { double, run: run + 1 }))
                }
            } else if double && c == '\\' {
                Some(self.with_mode(Mode::Escaped { block: true }))
            } else {
                Some(self.with_mode(Mode::Block { double, run: 0 }))
            },
            Mode::Closed { double, extra } => if c == delimiter(double) && extra < 2 {
                Some(self.with_mode(Mode::Closed { double, extra: extra + 1 }))
            } else {
                self.plain(c, limit)
            },
        }
    }
}

/// Whether `source` nowhere nests deeper than `limit`.
pub fn nesting_is_within(source: &str, limit: usize) -> (ok: bool)
    ensures
        ok == nesting_within(source@, limit as int),
{
    let text = chars_of(source);
    let mut state = Scan::start();
    let mut i: usize = 0;
    assert(text@.take(0) =~= Seq::<char>::empty());
    while i < text.len()
        invariant
            i <= text.len(),
            text@ == source@,
            state.well_formed(),
            state@ == scan(text@.take(i as int)),
            forall|n: int| 0 <= n <= i ==> nesting(scan(#[trigger] text@.take(n))) <= limit,
        decreases text.len() - i,
    {
        let c = text[i];
        proof {
            assert(text@.take(i + 1).drop_last() =~= text@.take(i as int));
            assert(text@.take(i + 1).last() == c);
        }
        match state.advance(c, limit) {
            Some(next) => {
                state = next;
            },
            None => {
                assert(nesting(scan(text@.take(i + 1))) > limit);
                return false;
            },
        }
        i += 1;
    }
    true
}

} // verus!
