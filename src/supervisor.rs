//! What a supervised run of a benchmark comes to: the running peak of the
//! memory samples, the exit status, and the score read from the output.
use vstd::prelude::*;

use crate::matching::{capture_group, group_of};
use crate::text::{chars_of, last_nonblank, last_nonblank_line, lines_of};

verus! {

/// The line that reports a score, anchored at both ends.
pub const SCORE_PATTERN: &'static str = "^score: ?([\\d\\.,+-]+)$";

/// How long the supervisor waits between two samples.
pub const POLL_INTERVAL_MS: u64 = 500;

/// The length of a day, the unit of the fallback score.
pub const SECONDS_PER_DAY: u64 = 86400;

/// A length of time, as seconds and the nanoseconds beyond them.
#[derive(Clone, Copy, PartialEq, Eq, Structural, Debug)]
pub struct Walltime {
    pub secs: u64,
    pub nanos: u32,
}

impl Walltime {
    pub open spec fn is_zero(&self) -> bool {
        self.secs == 0 && self.nanos == 0
    }

    /// Whole seconds.
    pub fn as_secs(&self) -> (r: u64)
        ensures
            r == self.secs,
    {
        self.secs
    }
}

/// The time a daily rate is taken over: a zero walltime counts as one
/// nanosecond, so the rate stays defined.
pub open spec fn rate_basis(w: Walltime) -> Walltime {
    if w.is_zero() {
        Walltime { secs: 0, nanos: 1 }
    } else {
        w
    }
}

/// A trial's score.
#[derive(Debug)]
pub enum Score {
    /// The number the benchmark printed, as it printed it.
    Reported(String),
    /// No number was printed: the score is the number of runs that fit in a
    /// day, `SECONDS_PER_DAY` over this walltime.
    DailyRate(Walltime),
}

pub open spec fn is_digit(c: char) -> bool {
    '0' <= c && c <= '9'
}

pub open spec fn unsigned_part(t: Seq<char>) -> Seq<char> {
    if t.len() > 0 && (t[0] == '+' || t[0] == '-') {
        t.drop_first()
    } else {
        t
    }
}

/// A decimal number: an optional sign, then ASCII digits with at most one
/// `.` among them, and at least one digit.
pub open spec fn is_decimal(t: Seq<char>) -> bool {
    let u = unsigned_part(t);
    &&& exists|i: int| 0 <= i < u.len() && is_digit(#[trigger] u[i])
    &&& forall|i: int| 0 <= i < u.len() ==> is_digit(#[trigger] u[i]) || u[i] == '.'
    &&& forall|i: int, j: int| 0 <= i < j < u.len() && #[trigger] u[i] == '.' ==> #[trigger] u[j] != '.'
}

/// The number on the last non-blank line of the output, when that line is a
/// score line.
pub open spec fn score_capture(stdout: Seq<char>) -> Option<Seq<char>> {
    match last_nonblank(lines_of(stdout)) {
        Some(line) => group_of(SCORE_PATTERN@, line, 1),
        None => None,
    }
}

/// `r` is the score given the number `capture` found on the score line, if
/// any, and the walltime `elapsed`: that number when it is decimal, else the
/// daily rate.
pub open spec fn is_score_from(r: Score, capture: Option<Seq<char>>, elapsed: Walltime) -> bool {
    match capture {
        Some(t) if is_decimal(t) => r matches Score::Reported(s) && s@ == t,
        _ => r == Score::DailyRate(rate_basis(elapsed)),
    }
}

/// `r` is the score of a run that printed `stdout` and took `elapsed`.
pub open spec fn is_score_of(r: Score, stdout: Seq<char>, elapsed: Walltime) -> bool {
    is_score_from(r, score_capture(stdout), elapsed)
}

/// Whether `t` is a decimal number.
pub fn decimal(t: &str) -> (r: bool)
    ensures
        r == is_decimal(t@),
{
    let cs = chars_of(t);
    let ghost u = unsigned_part(t@);
    let start: usize = if cs.len() > 0 && (cs[0] == '+' || cs[0] == '-') {
        1
    } else {
        0
    };
    proof {
        assert(u =~= t@.subrange(start as int, t@.len() as int));
    }
    let mut digit = false;
    let mut dot = false;
    let mut i: usize = start;
    while i < cs.len()
        invariant
            start <= i <= cs.len(),
            cs@ == t@,
            u =~= t@.subrange(start as int, t@.len() as int),
            u == unsigned_part(t@),
            digit <==> exists|k: int| 0 <= k < i - start && is_digit(#[trigger] u[k]),
            dot <==> exists|k: int| 0 <= k < i - start && #[trigger] u[k] == '.',
            forall|k: int| 0 <= k < i - start ==> is_digit(#[trigger] u[k]) || u[k] == '.',
            forall|k: int, l: int|
                0 <= k < l < i - start && #[trigger] u[k] == '.' ==> #[trigger] u[l] != '.',
        decreases cs.len() - i,
    {
        let c = cs[i];
        assert(u[i - start] == c);
        if c == '.' {
            if dot {
                proof {
                    let k = choose|k: int| 0 <= k < i - start && #[trigger] u[k] == '.';
                    assert(u[k] == '.' && u[i - start] == '.');
                }
                return false;
            }
            dot = true;
        } else if '0' <= c && c <= '9' {
            digit = true;
        } else {
            assert(!(is_digit(u[i - start]) || u[i - start] == '.'));
            return false;
        }
        i = i + 1;
    }
    digit
}

/// The score, given the number found on the score line, if any.
pub fn score_from_capture(capture: Option<String>, elapsed: Walltime) -> (r: Score)
    ensures
        is_score_from(r, capture.deep_view(), elapsed),
{
    if let Some(t) = capture {
        if decimal(t.as_str()) {
            return Score::Reported(t);
        }
    }
    if elapsed.secs == 0 && elapsed.nanos == 0 {
        Score::DailyRate(Walltime { secs: 0, nanos: 1 })
    } else {
        Score::DailyRate(elapsed)
    }
}

/// The score of a run that printed `stdout` and took `elapsed`: the number on
/// its last non-blank line, when that line reads `score: <number>`, else the
/// daily rate.
pub fn score_benchmark(stdout: &str, elapsed: Walltime) -> (r: Score)
    ensures
        is_score_of(r, stdout@, elapsed),
{
    let capture = match last_nonblank_line(stdout) {
        Some(line) => capture_group(SCORE_PATTERN, line.as_str(), 1),
        None => None,
    };
    score_from_capture(capture, elapsed)
}

/// The peak of the memory samples taken while a benchmark runs.
pub struct RunMonitor {
    pub max_memory: u64,
}

impl RunMonitor {
    pub fn new() -> (r: RunMonitor)
        ensures
            r.max_memory == 0,
    {
        RunMonitor { max_memory: 0 }
    }

    /// Takes one sample into account.
    pub fn record_memory(&mut self, sample: u64)
        ensures
            final(self).max_memory == if sample > old(self).max_memory {
                sample
            } else {
                old(self).max_memory
            },
    {
        if sample > self.max_memory {
            self.max_memory = sample;
        }
    }
}

/// The measured part of a trial.
#[derive(Debug)]
pub struct Measurement {
    pub score: Score,
    pub walltime: Walltime,
    pub max_memory: u64,
}

/// What a finished run comes to: nothing when it failed, whatever it printed;
/// else its score, its walltime and the peak of the memory samples.
pub fn finish_run(exit_success: bool, stdout: &str, walltime: Walltime, monitor: &RunMonitor) -> (r:
    Option<Measurement>)
    ensures
        !exit_success ==> r is None,
        exit_success ==> (r matches Some(m) && m.walltime == walltime && m.max_memory
            == monitor.max_memory && is_score_of(m.score, stdout@, walltime)),
{
    if !exit_success {
        return None;
    }
    let score = score_benchmark(stdout, walltime);
    Some(Measurement { score, walltime, max_memory: monitor.max_memory })
}

} // verus!
