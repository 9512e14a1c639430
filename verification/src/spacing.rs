//! Where the gridlines of one axis lie: evenly spaced over a range, the
//! first at its start and the last at its end.

use crate::error::Error;
use crate::fraction::ratios;
use crate::fraction::Fraction;
use crate::fraction::Ratio;
use vstd::prelude::*;

verus! {

/// The fewest lines that can be spaced over a range.
pub const MIN_LINES: u8 = 3;

/// The two ends of an axis. Either end may be the larger one.
#[derive(Debug, Clone, Copy, PartialEq, Eq, Structural)]
pub struct AxisRange {
    pub start: i32,
    pub end: i32,
}

impl AxisRange {
    /// The length of the range, whichever way it runs.
    pub open spec fn extent(self) -> int {
        if self.end >= self.start {
            self.end - self.start
        } else {
            self.start - self.end
        }
    }

    /// The distance between neighbouring lines when `lines` of them are
    /// spaced over the range: its extent divided by the number of gaps.
    pub open spec fn delta(self, lines: int) -> Ratio {
        Ratio { numerator: self.extent(), denominator: lines - 1 }
    }

    /// Where line `index` of `lines` lies. The lines before the last step
    /// up from `start` by `delta`; the last one lies at `end`.
    pub open spec fn coordinate(self, lines: int, index: int) -> Ratio {
        if index == lines - 1 {
            Ratio { numerator: self.end * (lines - 1), denominator: lines - 1 }
        } else {
            Ratio {
                numerator: self.start * (lines - 1) + index * self.extent(),
                denominator: lines - 1,
            }
        }
    }

    /// Where the `lines` lines lie, first to last.
    pub open spec fn coordinates(self, lines: int) -> Seq<Ratio> {
        Seq::new(lines as nat, |index: int| self.coordinate(lines, index))
    }

    /// The range from `start` to `end`.
    pub fn new(start: i32, end: i32) -> (range: AxisRange)
        ensures
            range.start == start,
            range.end == end,
    {
        AxisRange { start, end }
    }

    /// The length of the range.
    fn length(&self) -> (length: i64)
        ensures
            length == self.extent(),
    {
        if self.end >= self.start {
            self.end as i64 - self.start as i64
        } else {
            self.start as i64 - self.end as i64
        }
    }
}

/// The number of gaps between `lines` lines, unless they are too few to
/// be spaced.
pub fn gaps(lines: u8) -> (counted: Result<u8, Error>)
    ensures
        lines < MIN_LINES ==> counted is Err && counted->Err_0 is LineNumber,
        lines >= MIN_LINES ==> counted is Ok && counted->Ok_0 == lines - 1,
{
    if lines < MIN_LINES {
        Err(Error::LineNumber)
    } else {
        Ok(lines - 1)
    }
}

/// The whole number `whole` as a count of parts, `gaps` to the unit.
fn in_gaps(whole: i32, gaps: u8) -> (parts: i64)
    ensures
        parts == whole * gaps,
        -0x8000_0000 * 255 <= parts <= 0x7fff_ffff * 255,
{
    assert(-0x8000_0000 * 255 <= whole as int * gaps as int <= 0x7fff_ffff * 255)
        by (nonlinear_arith)
        requires
            -0x8000_0000 <= whole <= 0x7fff_ffff,
            0 <= gaps <= 255,
    ;
    whole as i64 * gaps as i64
}

/// The distance between neighbouring lines when `lines` of them are spaced
/// over `range`.
pub fn delta(range: AxisRange, lines: u8) -> (spaced: Result<Fraction, Error>)
    ensures
        lines < MIN_LINES ==> spaced is Err && spaced->Err_0 is LineNumber,
        lines >= MIN_LINES ==> spaced is Ok && spaced->Ok_0@ == range.delta(lines as int),
{
    let gaps = gaps(lines)?;
    Ok(Fraction::over(range.length(), gaps as i64))
}

/// Where `lines` lines lie when they are spaced over `range`, first to
/// last.
pub fn coordinates(range: AxisRange, lines: u8) -> (spaced: Result<Vec<Fraction>, Error>)
    ensures
        lines < MIN_LINES ==> spaced is Err && spaced->Err_0 is LineNumber,
        lines >= MIN_LINES ==> spaced is Ok && ratios(spaced->Ok_0@) == range.coordinates(
            lines as int,
        ),
{
    let gaps = gaps(lines)?;
    let length = range.length();
    let mut spaced: Vec<Fraction> = Vec::new();
    for index in 0..gaps
        invariant
            gaps == lines - 1,
            gaps >= 2,
            length == range.extent(),
            spaced@.len() == index,
            forall|line: int|
                0 <= line < index ==> (#[trigger] spaced@[line])@ == range.coordinate(
                    lines as int,
                    line,
                ),
    {
        assert(0 <= index as int * length <= 254 * 0xffff_ffff) by (nonlinear_arith)
            requires
                0 <= index <= 254,
                0 <= length <= 0xffff_ffff,
        ;
        let steps: i64 = index as i64 * length;
        spaced.push(Fraction::over(in_gaps(range.start, gaps) + steps, gaps as i64));
    }
    spaced.push(Fraction::over(in_gaps(range.end, gaps), gaps as i64));
    assert(ratios(spaced@) =~= range.coordinates(lines as int));
    Ok(spaced)
}

/// Spaced lines are as many as were asked for, the first lies at the start
/// of the range and the last at its end, and each line before the last lies
/// one `delta` beyond the line before it, where `delta` is the extent of
/// the range divided by the number of gaps.
pub proof fn lemma_evenly_spaced(range: AxisRange, lines: int)
    requires
        lines >= MIN_LINES,
    ensures
        range.coordinates(lines).len() == lines,
        range.coordinates(lines)[0].is_whole(range.start as int),
        range.coordinates(lines)[lines - 1].is_whole(range.end as int),
        forall|line: int|
            0 <= line < lines ==> (#[trigger] range.coordinates(lines)[line]).denominator
                == range.delta(lines).denominator,
        forall|line: int|
            0 < line < lines - 1 ==> (#[trigger] range.coordinates(lines)[line]).numerator
                - range.coordinates(lines)[line - 1].numerator == range.delta(lines).numerator,
{
    assert forall|line: int| 0 < line < lines - 1 implies (#[trigger] range.coordinates(
        lines,
    )[line]).numerator - range.coordinates(lines)[line - 1].numerator == range.delta(
        lines,
    ).numerator by {
        assert(line * range.extent() - (line - 1) * range.extent() == range.extent())
            by (nonlinear_arith);
    }
}

/// Over a range that runs upwards the last line, too, lies one `delta`
/// beyond the line before it.
pub proof fn lemma_last_gap(range: AxisRange, lines: int)
    requires
        lines >= MIN_LINES,
        range.start <= range.end,
    ensures
        range.coordinates(lines)[lines - 1].numerator - range.coordinates(lines)[lines
            - 2].numerator == range.delta(lines).numerator,
{
    let gaps = lines - 1;
    let extent = range.extent();
    assert(range.end * gaps - (range.start * gaps + (gaps - 1) * extent) == extent)
        by (nonlinear_arith)
        requires
            extent == range.end - range.start,
    ;
}

/// Over a range that runs downwards `delta` is still positive, the extent
/// taken as a magnitude, and the lines still begin at the start of the
/// range and end at its end.
pub proof fn lemma_reversed_range(range: AxisRange, lines: int)
    requires
        lines >= MIN_LINES,
        range.start > range.end,
    ensures
        range.delta(lines).numerator == range.start - range.end,
        range.delta(lines).numerator > 0,
        range.delta(lines).denominator > 0,
        range.coordinates(lines)[0].is_whole(range.start as int),
        range.coordinates(lines)[lines - 1].is_whole(range.end as int),
{
}

} // verus!
