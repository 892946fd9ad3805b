//! From raw source lines to positioned, classified lines.

use crate::error::Error;
use crate::util::{create_default_out_file_pathbuf, default_out_file, names_file};
use itertools::Itertools;
use line::builder::{
    is_blank, line_fault, line_of, state_after_line, Builder as LineBuilder, BuilderState,
};
use line::error::{Error as LineError, ErrorKind as LineErrorKind};
use line::indentation::{indent_depth, indent_is_mixed, indent_kind, lemma_run_end_bounds};
use line::nesting::lemma_next_state_wf;
use line::{kind_between, CssLineKind, Line, LineView, NumberedLine};
use vstd::prelude::*;

pub mod builder;
pub mod indentation;
pub mod line;

verus! {

/// What becomes of the raw lines of a file: the lines built up to the first
/// fault, and that fault if there is one.
pub struct Built {
    /// The state of the line builder after the last raw line it took.
    pub state: BuilderState,
    /// The lines with content, each with its row, in the order of the file.
    pub lines: Seq<(nat, LineView)>,
    /// The first fault, with its row and column.
    pub fault: Option<(LineErrorKind, nat, nat)>,
}

/// Builds the raw lines `raws` from the start of a file. Building stops at
/// the first line at fault: no line after it is looked at.
pub open spec fn built(raws: Seq<Seq<char>>) -> Built
    decreases raws.len(),
{
    if raws.len() == 0 {
        Built { state: BuilderState::initial(), lines: Seq::empty(), fault: None }
    } else {
        let before = built(raws.drop_last());
        let raw = raws.last();
        if before.fault is Some {
            before
        } else {
            Built {
                state: state_after_line(before.state, raw),
                lines: if is_blank(raw) || line_fault(before.state.nesting, raw) is Some {
                    before.lines
                } else {
                    before.lines.push((before.state.row + 1, line_of(raw)))
                },
                fault: match line_fault(before.state.nesting, raw) {
                    Some((kind, col)) => Some((kind, before.state.row + 1, col)),
                    None => None,
                },
            }
        }
    }
}

/// The depth of the line that follows line `i` of `lines`; the end of the
/// file follows the last line.
pub open spec fn depth_after(lines: Seq<(nat, LineView)>, i: int) -> nat {
    if i + 1 < lines.len() {
        lines[i + 1].1.depth()
    } else {
        LineView::eof().depth()
    }
}

/// The kind of each line of a file: one kind for each line, told by the
/// line and the one that follows it.
pub open spec fn kinds_of(lines: Seq<(nat, LineView)>) -> Seq<CssLineKind> {
    Seq::new(lines.len(), |i: int| kind_between(lines[i].1.depth(), depth_after(lines, i)))
}

/// The raw lines as sequences of characters.
pub open spec fn raw_lines(source: Seq<String>) -> Seq<Seq<char>> {
    source.map_values(|raw: String| raw@)
}

/// The lines as plain values.
pub open spec fn line_views(lines: Seq<NumberedLine>) -> Seq<(nat, LineView)> {
    lines.map_values(|numbered: NumberedLine| (numbered.0 as nat, numbered.1@))
}

/// Pairs each line with the line that follows it, in order.
///
/// Rests on `Itertools::tuple_windows` of the crate itertools: over a
/// sequence of references it yields every pair of neighbours, the earlier
/// ones first, and nothing for a sequence of less than two.
#[verifier::external_body]
fn line_windows<'a>(lines: &'a Vec<NumberedLine>) -> (windows: Vec<
    (&'a NumberedLine, &'a NumberedLine),
>)
    ensures
        lines@.len() == 0 ==> windows@.len() == 0,
        lines@.len() > 0 ==> windows@.len() == lines@.len() - 1,
        forall|i: int|
            0 <= i < windows@.len() ==> *(#[trigger] windows@[i]).0 == lines@[i] && *windows@[i].1
                == lines@[i + 1],
{
    lines.iter().tuple_windows().collect()
}

/// Tells the kind of each line of `lines` but the last, by the line that
/// follows it.
pub fn classify(lines: &Vec<NumberedLine>) -> (kinds: Vec<CssLineKind>)
    ensures
        lines@.len() == 0 ==> kinds@.len() == 0,
        lines@.len() > 0 ==> kinds@.len() == lines@.len() - 1,
        forall|i: int|
            0 <= i < kinds@.len() ==> #[trigger] kinds@[i] == kind_between(
                lines@[i].1@.depth(),
                lines@[i + 1].1@.depth(),
            ),
{
    let windows = line_windows(lines);
    let mut kinds: Vec<CssLineKind> = Vec::new();
    let mut i: usize = 0;
    while i < windows.len()
        invariant
            i <= windows@.len(),
            kinds@.len() == i,
            lines@.len() == 0 ==> windows@.len() == 0,
            lines@.len() > 0 ==> windows@.len() == lines@.len() - 1,
            forall|j: int|
                0 <= j < windows@.len() ==> *(#[trigger] windows@[j]).0 == lines@[j]
                    && *windows@[j].1 == lines@[j + 1],
            forall|j: int|
                0 <= j < i ==> #[trigger] kinds@[j] == kind_between(
                    lines@[j].1@.depth(),
                    lines@[j + 1].1@.depth(),
                ),
        decreases windows@.len() - i,
    {
        let (line, next) = windows[i];
        kinds.push(Line::determine_kind(&line.1, &next.1));
        i += 1;
    }
    kinds
}

/// Builds the lines of a file from its raw lines, and closes them with the
/// end of the file.
pub fn build_lines(source: &Vec<String>) -> (res: Result<Vec<NumberedLine>, LineError>)
    ensures
        match res {
            Ok(lines) => {
                &&& built(raw_lines(source@)).fault is None
                &&& line_views(lines@) == built(raw_lines(source@)).lines.push(
                    (0nat, LineView::eof()),
                )
            },
            Err(error) => built(raw_lines(source@)).fault == Some(
                (error.kind, error.pos.row as nat, error.pos.col as nat),
            ),
        },
{
    let mut line_builder = LineBuilder::default();
    let mut lines: Vec<NumberedLine> = Vec::new();
    let mut i: usize = 0;
    while i < source.len()
        invariant
            i <= source@.len(),
            built(raw_lines(source@).take(i as int)).fault is None,
            built(raw_lines(source@).take(i as int)).state == line_builder@,
            built(raw_lines(source@).take(i as int)).lines == line_views(lines@),
            line_builder@.row == i,
        decreases source@.len() - i,
    {
        let ghost raws = raw_lines(source@).take(i + 1);
        assert(raws.drop_last() =~= raw_lines(source@).take(i as int));
        match line_builder.build_line_from(source[i].as_str()) {
            Err(error) => {
                proof {
                    lemma_fault_is_final(raws, raw_lines(source@));
                }
                return Err(error);
            },
            Ok(None) => {},
            Ok(Some(line)) => {
                lines.push(line);
            },
        }
        i += 1;
    }
    assert(raw_lines(source@).take(i as int) =~= raw_lines(source@));
    lines.push((0, Line::eof()));
    Ok(lines)
}

/// What a run of the preprocessor works with.
pub struct Preprocessor {
    src: Option<String>,
    out: Option<String>,
    is_watch_mode: bool,
}

impl Default for Preprocessor {
    /// A preprocessor with neither source nor output file, not watching.
    fn default() -> (preprocessor: Self)
        ensures
            preprocessor.src() is None,
            preprocessor.out() is None,
            !preprocessor.is_watch_mode(),
    {
        Preprocessor { src: None, out: None, is_watch_mode: false }
    }
}

impl Preprocessor {
    /// The path of the source file, if it is set.
    pub closed spec fn src(&self) -> Option<Seq<char>> {
        match self.src {
            Some(path) => Some(path@),
            None => None,
        }
    }

    /// The path of the output file, if it is set.
    pub closed spec fn out(&self) -> Option<Seq<char>> {
        match self.out {
            Some(path) => Some(path@),
            None => None,
        }
    }

    /// Whether the source file is watched for changes.
    pub closed spec fn is_watch_mode(&self) -> bool {
        self.is_watch_mode
    }

    /// Sets the path of the source file.
    pub fn set_src(&mut self, path: String)
        ensures
            final(self).src() == Some(path@),
            final(self).out() == old(self).out(),
            final(self).is_watch_mode() == old(self).is_watch_mode(),
    {
        self.src = Some(path);
    }

    /// Sets the path of the output file.
    pub fn set_out(&mut self, path: String)
        ensures
            final(self).src() == old(self).src(),
            final(self).out() == Some(path@),
            final(self).is_watch_mode() == old(self).is_watch_mode(),
    {
        self.out = Some(path);
    }

    /// The output file that goes with the source file.
    pub fn default_out(&self) -> (path: String)
        requires
            self.src() is Some,
            names_file(self.src()->0),
        ensures
            path@ == default_out_file(self.src()->0),
    {
        match &self.src {
            Some(src) => create_default_out_file_pathbuf(src.as_str()),
            None => String::new(),
        }
    }

    /// Preprocesses a source file, given as its raw lines in order.
    ///
    /// Gives each line with content, with its row and its kind, or the first
    /// fault in the structure of the file. Both files must have been set.
    pub fn run(&mut self, source: &Vec<String>) -> (res: Result<
        Vec<(NumberedLine, CssLineKind)>,
        Error,
    >)
        requires
            old(self).src() is Some,
            old(self).out() is Some,
        ensures
            *final(self) == *old(self),
            match res {
                Ok(classified) => {
                    &&& built(raw_lines(source@)).fault is None
                    &&& classified@.len() == built(raw_lines(source@)).lines.len()
                    &&& forall|i: int|
                        0 <= i < classified@.len() ==> {
                            &&& ((#[trigger] classified@[i]).0.0 as nat, classified@[i].0.1@)
                                == built(raw_lines(source@)).lines[i]
                            &&& classified@[i].1 == kinds_of(built(raw_lines(source@)).lines)[i]
                        }
                },
                Err(error) => built(raw_lines(source@)).fault matches Some((kind, row, col))
                    && error.kind == crate::error::ErrorKind::of_line(kind) && error.pos.row == row
                    && error.pos.col == col,
            },
    {
        let lines = match build_lines(source) {
            Ok(lines) => lines,
            Err(error) => {
                return Err(Error::from(error));
            },
        };
        let kinds = classify(&lines);
        let ghost views = built(raw_lines(source@)).lines;
        assert(line_views(lines@).len() == views.len() + 1);
        let mut classified: Vec<(NumberedLine, CssLineKind)> = Vec::new();
        for numbered in it: lines
            invariant
                views == built(raw_lines(source@)).lines,
                it.seq().len() == views.len() + 1,
                line_views(it.seq()) == views.push((0nat, LineView::eof())),
                kinds@.len() == views.len(),
                forall|i: int|
                    0 <= i < kinds@.len() ==> #[trigger] kinds@[i] == kind_between(
                        it.seq()[i].1@.depth(),
                        it.seq()[i + 1].1@.depth(),
                    ),
                classified@.len() == if it.index() <= kinds@.len() {
                    it.index()
                } else {
                    kinds@.len() as int
                },
                forall|i: int|
                    0 <= i < classified@.len() ==> {
                        &&& ((#[trigger] classified@[i]).0.0 as nat, classified@[i].0.1@)
                            == views[i]
                        &&& classified@[i].1 == kinds_of(views)[i]
                    },
        {
            let i: usize = classified.len();
            if i < kinds.len() {
                let ghost idx = i as int;
                assert(line_views(it.seq())[idx] == views[idx]);
                assert(line_views(it.seq())[idx + 1] == views.push((0nat, LineView::eof()))[idx
                    + 1]);
                classified.push((numbered, kinds[i]));
            }
        }
        Ok(classified)
    }
}

/// Once building has met a fault, more raw lines change nothing.
pub proof fn lemma_fault_is_final(raws: Seq<Seq<char>>, more: Seq<Seq<char>>)
    requires
        raws.len() <= more.len(),
        raws == more.take(raws.len() as int),
        built(raws).fault is Some,
    ensures
        built(more) == built(raws),
    decreases more.len(),
{
    if raws.len() < more.len() {
        assert(more.drop_last().take(raws.len() as int) =~= raws);
        lemma_fault_is_final(raws, more.drop_last());
    } else {
        assert(more =~= raws);
    }
}

/// Building takes every raw line as a row. Where no line is at fault, each
/// line built stands for a raw line that is not blank, comes with the row of
/// that raw line, and the rows grow from line to line.
pub proof fn lemma_built_lines_are_raw_lines(raws: Seq<Seq<char>>)
    requires
        built(raws).fault is None,
    ensures
        built(raws).state.row == raws.len(),
        forall|i: int|
            0 <= i < built(raws).lines.len() ==> {
                let row = (#[trigger] built(raws).lines[i]).0;
                &&& 1 <= row <= raws.len()
                &&& !is_blank(raws[row - 1])
                &&& built(raws).lines[i].1 == line_of(raws[row - 1])
            },
        forall|i: int, j: int|
            0 <= i < j < built(raws).lines.len() ==> (#[trigger] built(raws).lines[i]).0 < (
            #[trigger] built(raws).lines[j]).0,
    decreases raws.len(),
{
    if raws.len() > 0 {
        let before = built(raws.drop_last());
        lemma_built_lines_are_raw_lines(raws.drop_last());
        assert forall|i: int| 0 <= i < built(raws).lines.len() implies {
            let row = (#[trigger] built(raws).lines[i]).0;
            &&& 1 <= row <= raws.len()
            &&& !is_blank(raws[row - 1])
            &&& built(raws).lines[i].1 == line_of(raws[row - 1])
        } by {
            if i < before.lines.len() {
                let row = before.lines[i].0;
            }
        }
        assert forall|i: int, j: int| 0 <= i < j < built(raws).lines.len() implies (
        #[trigger] built(raws).lines[i]).0 < (#[trigger] built(raws).lines[j]).0 by {
            if j == before.lines.len() {
                assert(before.lines[i].0 <= raws.len() - 1);
            }
        }
    }
}

/// Whatever the raw lines, the line builder is left in a well-formed state
/// of nesting.
pub proof fn lemma_built_state_is_wf(raws: Seq<Seq<char>>)
    ensures
        built(raws).state.nesting.wf(),
    decreases raws.len(),
{
    if raws.len() > 0 {
        lemma_built_state_is_wf(raws.drop_last());
        let before = built(raws.drop_last());
        if before.fault is None {
            lemma_next_state_wf(
                before.state.nesting,
                indent_kind(raws.last()),
                indent_depth(raws.last()) as nat,
            );
        }
    }
}

/// Blank lines leave the nesting as it was at the start of the file.
pub proof fn lemma_blank_lines_build_nothing(raws: Seq<Seq<char>>)
    requires
        forall|i: int| 0 <= i < raws.len() ==> is_blank(#[trigger] raws[i]),
    ensures
        built(raws).fault is None,
        built(raws).lines.len() == 0,
        built(raws).state.nesting == BuilderState::initial().nesting,
        built(raws).state.row == raws.len(),
    decreases raws.len(),
{
    if raws.len() > 0 {
        assert forall|i: int| 0 <= i < raws.drop_last().len() implies is_blank(
            #[trigger] raws.drop_last()[i],
        ) by {
            assert(raws.drop_last()[i] == raws[i]);
        }
        lemma_blank_lines_build_nothing(raws.drop_last());
    }
}

/// The first line with content must stand at depth 0. Where the raw lines
/// before `raws.last()` are blank and that line is indented, without mixing
/// its indentation, building fails there: the indentation is unexpected, at
/// column 0 of that row.
pub proof fn lemma_first_line_of_file_is_flush(raws: Seq<Seq<char>>)
    requires
        raws.len() > 0,
        forall|i: int| 0 <= i < raws.len() - 1 ==> is_blank(#[trigger] raws[i]),
        !is_blank(raws.last()),
        !indent_is_mixed(raws.last()),
    ensures
        indent_depth(raws.last()) > 0 ==> built(raws).fault == Some(
            (LineErrorKind::UnexpectedIndentation, raws.len(), 0nat),
        ),
        indent_depth(raws.last()) <= 0 ==> built(raws).fault is None && built(raws).lines
            == seq![(raws.len(), line_of(raws.last()))],
{
    assert forall|i: int| 0 <= i < raws.drop_last().len() implies is_blank(
        #[trigger] raws.drop_last()[i],
    ) by {
        assert(raws.drop_last()[i] == raws[i]);
    }
    lemma_blank_lines_build_nothing(raws.drop_last());
    lemma_run_end_bounds(raws.last(), raws.last()[0], 0);
    if indent_depth(raws.last()) <= 0 {
        assert(built(raws).lines =~= seq![(raws.len(), line_of(raws.last()))]);
    }
}

/// Every line of a file gets one kind: the kind told by the line and its
/// neighbour in the stream of lines that the end of the file closes. The
/// last line of a file never opens a block.
pub proof fn lemma_kinds_cover_stream(lines: Seq<(nat, LineView)>)
    ensures
        kinds_of(lines).len() == lines.len(),
        forall|i: int|
            0 <= i < lines.len() ==> #[trigger] kinds_of(lines)[i] == kind_between(
                lines.push((0nat, LineView::eof()))[i].1.depth(),
                lines.push((0nat, LineView::eof()))[i + 1].1.depth(),
            ),
        lines.len() > 0 ==> kinds_of(lines).last() == CssLineKind::Property,
{
}

} // verus!
