//! Reading the silent intervals out of ffmpeg's `silencedetect` report.
//!
//! ffmpeg writes one line per event:
//!   [silencedetect @ 0x...] silence_start: 0.123
//!   [silencedetect @ 0x...] silence_end: 1.456 | silence_duration: 1.333
//! A final `silence_start` without a matching `silence_end` (the recording
//! ended while still silent) runs to the end of the recording. The times
//! are kept as the text of the numbers; the arithmetic on them is the
//! caller's.
use vstd::prelude::*;

use crate::literal::{float_literal, is_float_literal};
use crate::text::{chars_of, find_sub, find_sub_in, first_word, first_word_in, lines, split_lines};

verus! {

/// One silent stretch of the recording.
#[derive(Debug, Clone, PartialEq, Eq)]
pub struct SilentInterval {
    /// When it starts, in seconds (number text).
    pub start: String,
    /// When it ends, in seconds (number text); `None` when it runs to the
    /// end of the recording.
    pub end: Option<String>,
}

/// A [`SilentInterval`] with its text as character sequences.
pub struct IntervalView {
    pub start: Seq<char>,
    pub end: Option<Seq<char>>,
}

impl View for SilentInterval {
    type V = IntervalView;

    open spec fn view(&self) -> IntervalView {
        IntervalView {
            start: self.start@,
            end: match self.end {
                Some(e) => Some(e@),
                None => None,
            },
        }
    }
}

/// The intervals found so far and a start still waiting for its end.
pub struct ScanState {
    pub intervals: Seq<IntervalView>,
    pub pending: Option<Seq<char>>,
}

/// The marker of an interval's start.
pub open spec fn start_marker() -> Seq<char> {
    "silence_start:"@
}

/// The marker of an interval's end.
pub open spec fn end_marker() -> Seq<char> {
    "silence_end:"@
}

/// The number that follows `at` in `line`, when the first word there is one.
pub open spec fn number_after(line: Seq<char>, at: int) -> Option<Seq<char>> {
    match first_word(line.skip(at)) {
        Some(w) => if is_float_literal(w) {
            Some(w)
        } else {
            None
        },
        None => None,
    }
}

/// The scan after one line: a start marker sets the pending start (to
/// nothing when no number follows it); an end marker closes the pending
/// start, if there is one and a number follows the marker, and clears it.
pub open spec fn scan_line(st: ScanState, line: Seq<char>) -> ScanState {
    let i = find_sub(line, start_marker());
    if i < line.len() {
        ScanState { pending: number_after(line, i + start_marker().len()), ..st }
    } else {
        let j = find_sub(line, end_marker());
        if j < line.len() {
            let end = number_after(line, j + end_marker().len());
            ScanState {
                intervals: if end is Some && st.pending is Some {
                    st.intervals.push(IntervalView { start: st.pending->0, end: end })
                } else {
                    st.intervals
                },
                pending: None,
            }
        } else {
            st
        }
    }
}

/// The scan after the lines `ls`, in order.
pub open spec fn scan_lines(ls: Seq<Seq<char>>) -> ScanState
    decreases ls.len(),
{
    if ls.len() == 0 {
        ScanState { intervals: Seq::empty(), pending: None }
    } else {
        scan_line(scan_lines(ls.drop_last()), ls.last())
    }
}

/// The silent intervals of a `silencedetect` report, in order; a start
/// left open at the end runs to the end of the recording.
pub open spec fn silent_intervals_of(report: Seq<char>) -> Seq<IntervalView> {
    let st = scan_lines(lines(report));
    match st.pending {
        Some(p) => st.intervals.push(IntervalView { start: p, end: None }),
        None => st.intervals,
    }
}

/// The views of a list of intervals.
pub open spec fn interval_views(v: Seq<SilentInterval>) -> Seq<IntervalView> {
    v.map_values(|i: SilentInterval| i@)
}

fn number_after_in(v: &Vec<char>, at: usize) -> (r: Option<String>)
    requires
        at <= v.len(),
    ensures
        match r {
            Some(w) => number_after(v@, at as int) == Some(w@),
            None => number_after(v@, at as int) is None,
        },
{
    match first_word_in(v, at) {
        Some(w) => {
            let wv = chars_of(w.as_str());
            if float_literal(&wv) {
                Some(w)
            } else {
                None
            }
        },
        None => None,
    }
}

/// Parses ffmpeg's `silencedetect` report into its silent intervals.
pub fn parse_silent_intervals(report: &str) -> (r: Vec<SilentInterval>)
    ensures
        interval_views(r@) == silent_intervals_of(report@),
{
    let ls = split_lines(report);
    let start_pat = chars_of("silence_start:");
    let end_pat = chars_of("silence_end:");
    let mut intervals: Vec<SilentInterval> = Vec::new();
    let mut pending: Option<String> = None;
    let mut i: usize = 0;
    proof {
        assert(lines(report@).take(0) =~= Seq::<Seq<char>>::empty());
        assert(interval_views(intervals@) =~= Seq::<IntervalView>::empty());
    }
    while i < ls.len()
        invariant
            i <= ls@.len(),
            ls@.len() == lines(report@).len(),
            forall|k: int| 0 <= k < ls@.len() ==> #[trigger] ls@[k]@ == lines(report@)[k],
            start_pat@ == start_marker(),
            end_pat@ == end_marker(),
            interval_views(intervals@) == scan_lines(lines(report@).take(i as int)).intervals,
            match pending {
                Some(p) => scan_lines(lines(report@).take(i as int)).pending == Some(p@),
                None => scan_lines(lines(report@).take(i as int)).pending is None,
            },
        decreases ls.len() - i,
    {
        let line = chars_of(ls[i].as_str());
        let ghost before = scan_lines(lines(report@).take(i as int));
        proof {
            let t = lines(report@).take(i + 1);
            assert(t.drop_last() =~= lines(report@).take(i as int));
            assert(t.last() == line@);
        }
        let a = find_sub_in(&line, &start_pat);
        if a < line.len() {
            pending = number_after_in(&line, a + start_pat.len());
        } else {
            let b = find_sub_in(&line, &end_pat);
            if b < line.len() {
                let end = number_after_in(&line, b + end_pat.len());
                let ghost had = pending is Some;
                match (end, pending) {
                    (Some(e), Some(s)) => {
                        let ghost old_views = interval_views(intervals@);
                        let iv = SilentInterval { start: s, end: Some(e) };
                        let ghost ivv = iv@;
                        intervals.push(iv);
                        assert(interval_views(intervals@) =~= old_views.push(ivv));
                    },
                    _ => {},
                }
                pending = None;
            }
        }
        i = i + 1;
    }
    proof {
        assert(lines(report@).take(ls@.len() as int) =~= lines(report@));
    }
    match pending {
        Some(p) => {
            let ghost old_views = interval_views(intervals@);
            let iv = SilentInterval { start: p, end: None };
            let ghost ivv = iv@;
            intervals.push(iv);
            assert(interval_views(intervals@) =~= old_views.push(ivv));
        },
        None => {},
    }
    intervals
}

} // verus!
