//! Running stages and reporting progress: the error type, `-progress` line
//! parsing, and the decisions of the stage runner. Spawning the tools and
//! reading their output happen outside the library; the runner here is told
//! what happened and answers what to do next.

use crate::ops::{Stage};
use crate::text::{
    chars_of, clamp_i64, joined, has_prefix, pieces_view, read_number, reading, saturate,
    saturated, signed_dec, signed_decimal, split_chars, split_on, strip_prefix, trim, trim_chars,
    owned, string_of, Reading, NUM_BOUND,
};
use vstd::prelude::*;

verus! {

/// Why a job did not produce its output.
#[derive(Debug)]
pub enum EngineError {
    Cancelled,
    BadRequest(String),
    Spawn(String),
    Failed { code: Option<i32>, stderr: String },
}

// ---- error text ------------------------------------------------------------------

/// `l` without a trailing carriage return.
pub open spec fn strip_cr(l: Seq<char>) -> Seq<char> {
    if l.len() > 0 && l.last() == '\r' {
        l.drop_last()
    } else {
        l
    }
}

/// The lines of `s`, as `str::lines` yields them: split at `\n`, a `\r` before
/// the `\n` dropped, and no empty last line after a final line ending.
pub open spec fn lines_of(s: Seq<char>) -> Seq<Seq<char>> {
    let parts = split_on(s, '\n');
    let init = parts.drop_last().map_values(|l: Seq<char>| strip_cr(l));
    if parts.last().len() == 0 {
        init
    } else {
        init.push(parts.last())
    }
}

/// `ls` joined with `\n` between consecutive lines.
pub open spec fn join_lines(ls: Seq<Seq<char>>) -> Seq<char>
    decreases ls.len(),
{
    if ls.len() == 0 {
        Seq::<char>::empty()
    } else if ls.len() == 1 {
        ls[0]
    } else {
        join_lines(ls.drop_last()) + seq!['\n'] + ls.last()
    }
}

/// The last `n` lines of `s`, joined with `\n`.
pub open spec fn last_lines_spec(s: Seq<char>, n: nat) -> Seq<char> {
    let ls = lines_of(s);
    let start: int = if ls.len() > n {
        ls.len() - n
    } else {
        0
    };
    join_lines(ls.skip(start))
}

/// The last `n` lines of `s`, joined with `\n`.
pub fn last_lines(s: &str, n: usize) -> (r: String)
    ensures
        r@ == last_lines_spec(s@, n as nat),
{
    let v = chars_of(s);
    let parts = split_chars(&v, '\n');
    proof {
        crate::text::lemma_split_nonempty(v@, '\n');
    }
    let ghost pv = pieces_view(parts@);
    let k = parts.len();
    let mut lines: Vec<Vec<char>> = Vec::new();
    let mut i: usize = 0;
    while i + 1 < k
        invariant
            k == parts@.len() >= 1,
            pv == pieces_view(parts@),
            pv == split_on(v@, '\n'),
            i + 1 <= k,
            pieces_view(lines@) == pv.take(i as int).map_values(|l: Seq<char>| strip_cr(l)),
        decreases k - i,
    {
        let p = &parts[i];
        let line = if p.len() > 0 && p[p.len() - 1] == '\r' {
            slice_without_last(p)
        } else {
            slice_all(p)
        };
        assert(pv[i as int] == p@);
        assert(line@ == strip_cr(pv[i as int]));
        let ghost old_lines = lines@;
        let ghost lv = line@;
        lines.push(line);
        assert(pieces_view(lines@) =~= pieces_view(old_lines).push(lv));
        assert(pv.take(i + 1) =~= pv.take(i as int).push(pv[i as int]));
        assert(pv.take(i + 1).map_values(|l: Seq<char>| strip_cr(l)) =~= pv.take(
            i as int,
        ).map_values(|l: Seq<char>| strip_cr(l)).push(strip_cr(pv[i as int])));
        i = i + 1;
    }
    assert(pv.drop_last() =~= pv.take(i as int));
    let last = &parts[k - 1];
    assert(pv.last() == last@);
    if last.len() > 0 {
        lines.push(slice_all(last));
    }
    assert(pieces_view(lines@) =~= lines_of(v@));
    let total = lines.len();
    let start: usize = if total > n {
        total - n
    } else {
        0
    };
    let mut out: Vec<char> = Vec::new();
    let mut j: usize = start;
    while j < total
        invariant
            start <= j <= total == lines@.len(),
            pieces_view(lines@) == lines_of(v@),
            out@ == join_lines(pieces_view(lines@).subrange(start as int, j as int)),
        decreases total - j,
    {
        let ghost before = pieces_view(lines@).subrange(start as int, j as int);
        let ghost after = pieces_view(lines@).subrange(start as int, j + 1);
        assert(after.drop_last() =~= before);
        assert(after.last() == lines@[j as int]@);
        if j > start {
            out.push('\n');
        }
        let line = &lines[j];
        let mut c: usize = 0;
        let ghost base = out@;
        while c < line.len()
            invariant
                c <= line@.len(),
                out@ == base + line@.take(c as int),
            decreases line.len() - c,
        {
            out.push(line[c]);
            c = c + 1;
            assert(out@ =~= base + line@.take(c as int));
        }
        assert(line@.take(line@.len() as int) =~= line@);
        if j == start {
            assert(before =~= Seq::<Seq<char>>::empty());
            assert(after.len() == 1);
        }
        assert(out@ =~= join_lines(after));
        j = j + 1;
    }
    assert(pieces_view(lines@).subrange(start as int, total as int) =~= pieces_view(lines@).skip(
        start as int,
    ));
    string_of(&out)
}

fn slice_all(p: &Vec<char>) -> (r: Vec<char>)
    ensures
        r@ == p@,
{
    let r = crate::text::slice_chars(p, 0, p.len());
    assert(p@.subrange(0, p@.len() as int) =~= p@);
    r
}

fn slice_without_last(p: &Vec<char>) -> (r: Vec<char>)
    requires
        p@.len() > 0,
    ensures
        r@ == p@.drop_last(),
{
    let r = crate::text::slice_chars(p, 0, p.len() - 1);
    assert(p@.subrange(0, p@.len() - 1) =~= p@.drop_last());
    r
}

/// The text an error is shown with.
pub open spec fn message_spec(e: EngineError) -> Seq<char> {
    match e {
        EngineError::Cancelled => "Cancelled"@,
        EngineError::BadRequest(m) => m@,
        EngineError::Spawn(m) => "Could not start ffmpeg: "@ + m@,
        EngineError::Failed { code, stderr } => match code {
            Some(c) => "ffmpeg exited with code "@ + signed_dec(c as int) + seq!['\n']
                + last_lines_spec(stderr@, 8),
            None => "ffmpeg failed\n"@ + last_lines_spec(stderr@, 8),
        },
    }
}

impl EngineError {
    /// The text this error is shown with (the last 8 lines of ffmpeg's
    /// stderr for a failure).
    pub fn message(&self) -> (r: String)
        ensures
            r@ == message_spec(*self),
    {
        match self {
            EngineError::Cancelled => owned("Cancelled"),
            EngineError::BadRequest(e) => e.clone(),
            EngineError::Spawn(e) => joined("Could not start ffmpeg: ", e.as_str()),
            EngineError::Failed { code, stderr } => {
                let tail = last_lines(stderr.as_str(), 8);
                match code {
                    Some(c) => {
                        let mut r = owned("ffmpeg exited with code ");
                        r.append(signed_decimal(*c).as_str());
                        r.push('\n');
                        r.append(tail.as_str());
                        r
                    },
                    None => joined("ffmpeg failed\n", tail.as_str()),
                }
            },
        }
    }
}

// ---- -progress lines -------------------------------------------------------------

/// A microsecond count written as Rust's float parser reads it, as a whole
/// number of microseconds: the fraction dropped; values beyond the `i64` range
/// and infinities at the end of their sign; not-a-number as 0.
pub open spec fn micros_value(v: Seq<char>) -> Option<int> {
    saturated(reading(trim(v), 0))
}

/// The value of a finite reading (0 for any other).
pub open spec fn finite_part(r: Reading) -> int {
    match r {
        Reading::Finite(x) => x as int,
        _ => 0,
    }
}

/// One of the readings is an infinity of sign `neg`.
pub open spec fn any_infinite(a: Reading, b: Reading, c: Reading, neg: bool) -> bool {
    a == Reading::Infinite(neg) || b == Reading::Infinite(neg) || c == Reading::Infinite(neg)
}

/// One of the readings is a finite value of sign `neg` beyond `NUM_BOUND`.
pub open spec fn any_huge(a: Reading, b: Reading, c: Reading, neg: bool) -> bool {
    a == Reading::Huge(neg) || b == Reading::Huge(neg) || c == Reading::Huge(neg)
}

/// `h·3600 + m·60 + s` for the readings of three parts (microseconds),
/// saturated like `micros_value`: a part that is no number gives nothing;
/// not-a-number, or infinities of both signs, give 0; an infinity gives the
/// end of its sign; exact parts give their clamped sum. Parts beyond
/// `NUM_BOUND` give the end of their sign when the exact parts cannot offset
/// them by half that bound, and nothing when they could (their sum is not
/// held exactly).
pub open spec fn hms_total(a: Reading, b: Reading, c: Reading) -> Option<int> {
    if a is NotNumber || b is NotNumber || c is NotNumber {
        None
    } else if a is NotANumber || b is NotANumber || c is NotANumber {
        Some(0)
    } else if any_infinite(a, b, c, true) && any_infinite(a, b, c, false) {
        Some(0)
    } else if any_infinite(a, b, c, false) {
        Some(i64::MAX as int)
    } else if any_infinite(a, b, c, true) {
        Some(i64::MIN as int)
    } else {
        let exact = finite_part(a) * 3600 + finite_part(b) * 60 + finite_part(c);
        if !any_huge(a, b, c, true) && !any_huge(a, b, c, false) {
            Some(clamp_i64(exact))
        } else if any_huge(a, b, c, true) && any_huge(a, b, c, false) {
            None
        } else if any_huge(a, b, c, false) && exact >= -(NUM_BOUND / 2) {
            Some(i64::MAX as int)
        } else if any_huge(a, b, c, true) && exact <= NUM_BOUND / 2 {
            Some(i64::MIN as int)
        } else {
            None
        }
    }
}

/// `H:M:S` (each part read as Rust's float parser reads it) in microseconds.
pub open spec fn hms_value(v: Seq<char>) -> Option<int> {
    let parts = split_on(v, ':');
    if parts.len() != 3 {
        None
    } else {
        hms_total(reading(parts[0], 6), reading(parts[1], 6), reading(parts[2], 6))
    }
}

/// The elapsed output time a `-progress` line reports, in microseconds.
///
/// ffmpeg emits several time keys; the microsecond forms (`out_time_us`, and
/// the quirkily-named `out_time_ms`, which is also microseconds) and the
/// `HH:MM:SS.ffffff` `out_time` form are read; any other line (or `N/A`)
/// reports nothing.
pub open spec fn progress_micros_spec(line: Seq<char>) -> Option<int> {
    let t = trim(line);
    if has_prefix(t, "out_time_us="@) {
        micros_value(t.skip("out_time_us="@.len() as int))
    } else if has_prefix(t, "out_time_ms="@) {
        micros_value(t.skip("out_time_ms="@.len() as int))
    } else if has_prefix(t, "out_time="@) {
        hms_value(trim(t.skip("out_time="@.len() as int)))
    } else {
        None
    }
}

fn micros(v: &Vec<char>) -> (r: Option<i64>)
    ensures
        match r {
            Some(x) => micros_value(v@) == Some(x as int),
            None => micros_value(v@) is None,
        },
{
    let w = trim_chars(v);
    saturate(read_number(&w, 0))
}

fn hms_sum(a: Reading, b: Reading, c: Reading) -> (r: Option<i64>)
    requires
        a matches Reading::Finite(x) ==> -NUM_BOUND <= x <= NUM_BOUND,
        b matches Reading::Finite(x) ==> -NUM_BOUND <= x <= NUM_BOUND,
        c matches Reading::Finite(x) ==> -NUM_BOUND <= x <= NUM_BOUND,
    ensures
        match r {
            Some(x) => hms_total(a, b, c) == Some(x as int),
            None => hms_total(a, b, c) is None,
        },
{
    if a == Reading::NotNumber || b == Reading::NotNumber || c == Reading::NotNumber {
        return None;
    }
    if a == Reading::NotANumber || b == Reading::NotANumber || c == Reading::NotANumber {
        return Some(0);
    }
    let pos_inf = a == Reading::Infinite(false) || b == Reading::Infinite(false) || c
        == Reading::Infinite(false);
    let neg_inf = a == Reading::Infinite(true) || b == Reading::Infinite(true) || c
        == Reading::Infinite(true);
    if pos_inf && neg_inf {
        return Some(0);
    }
    if pos_inf {
        return Some(i64::MAX);
    }
    if neg_inf {
        return Some(i64::MIN);
    }
    let fa: i128 = match a {
        Reading::Finite(x) => x,
        _ => 0,
    };
    let fb: i128 = match b {
        Reading::Finite(x) => x,
        _ => 0,
    };
    let fc: i128 = match c {
        Reading::Finite(x) => x,
        _ => 0,
    };
    let exact: i128 = fa * 3600 + fb * 60 + fc;
    let pos_huge = a == Reading::Huge(false) || b == Reading::Huge(false) || c == Reading::Huge(
        false,
    );
    let neg_huge = a == Reading::Huge(true) || b == Reading::Huge(true) || c == Reading::Huge(
        true,
    );
    let half: i128 = (NUM_BOUND / 2) as i128;
    if !pos_huge && !neg_huge {
        saturate(Reading::Finite(exact))
    } else if pos_huge && neg_huge {
        None
    } else if pos_huge && exact >= -half {
        Some(i64::MAX)
    } else if neg_huge && exact <= half {
        Some(i64::MIN)
    } else {
        None
    }
}

fn parse_hms(v: &Vec<char>) -> (r: Option<i64>)
    ensures
        match r {
            Some(x) => hms_value(v@) == Some(x as int),
            None => hms_value(v@) is None,
        },
{
    let parts = split_chars(v, ':');
    assert(pieces_view(parts@).len() == parts@.len());
    if parts.len() != 3 {
        return None;
    }
    assert(pieces_view(parts@)[0] == parts@[0]@);
    assert(pieces_view(parts@)[1] == parts@[1]@);
    assert(pieces_view(parts@)[2] == parts@[2]@);
    let h = read_number(&parts[0], 6);
    let m = read_number(&parts[1], 6);
    let s = read_number(&parts[2], 6);
    hms_sum(h, m, s)
}

/// Parse one `-progress` line into elapsed output time in microseconds, if it
/// is a time line.
pub fn parse_progress_micros(line: &str) -> (r: Option<i64>)
    ensures
        match r {
            Some(x) => progress_micros_spec(line@) == Some(x as int),
            None => progress_micros_spec(line@) is None,
        },
{
    let v = chars_of(line);
    let t = trim_chars(&v);
    if let Some(rest) = strip_prefix(&t, "out_time_us=") {
        assert(rest@ =~= t@.skip("out_time_us="@.len() as int));
        return micros(&rest);
    }
    if let Some(rest) = strip_prefix(&t, "out_time_ms=") {
        assert(rest@ =~= t@.skip("out_time_ms="@.len() as int));
        return micros(&rest);
    }
    if let Some(rest) = strip_prefix(&t, "out_time=") {
        assert(rest@ =~= t@.skip("out_time="@.len() as int));
        let w = trim_chars(&rest);
        return parse_hms(&w);
    }
    None
}


// ---- the stage runner ---------------------------------------------------------------

/// Progress is counted in millionths of the whole job.
pub const FULL_PPM: u32 = 1000000;

/// How far through a stage its output time `cur_us` is, in millionths of the
/// source duration `total_us` (clamped to 0..=1; 0 when the duration is
/// unknown).
pub open spec fn stage_ppm_spec(cur_us: int, total_us: int) -> nat {
    if total_us <= 0 || cur_us <= 0 {
        0
    } else if cur_us >= total_us {
        1000000
    } else {
        (cur_us * 1000000 / total_us) as nat
    }
}

/// Overall progress: the completed stages' share plus this stage's weighted
/// fraction, capped at the whole job.
pub open spec fn overall_ppm_spec(completed_pct: nat, weight_pct: nat, stage_ppm: nat) -> nat {
    let v = completed_pct * 10000 + weight_pct * stage_ppm / 100;
    if v > 1000000 {
        1000000
    } else {
        v
    }
}

/// The sum of the first `k` weights.
pub open spec fn prefix_weight(w: Seq<nat>, k: int) -> nat
    decreases k,
{
    if k <= 0 || w.len() == 0 {
        0
    } else if k > w.len() {
        prefix_weight(w, w.len() as int)
    } else {
        prefix_weight(w, k - 1) + w[k - 1]
    }
}

/// The share (in percent, capped at 100) of the first `k` stages.
pub open spec fn completed_share(w: Seq<nat>, k: int) -> nat {
    let p = prefix_weight(w, k);
    if p > 100 {
        100
    } else {
        p
    }
}

/// What the runner says to do next.
#[derive(Debug, PartialEq, Eq, Structural)]
pub enum RunStep {
    /// Stop: cancellation was requested.
    Cancelled,
    /// Start the stage with this index.
    Start(usize),
    /// Every stage succeeded: report full progress and finish.
    Finished,
}

/// What to do with one line of a running stage's progress output.
#[derive(Debug, PartialEq, Eq, Structural)]
pub enum LineStep {
    /// Kill the stage: cancellation was requested.
    Cancel,
    /// Report this overall progress (millionths).
    Report(u32),
    /// Not a time line; nothing to report.
    Ignore,
}

/// The mathematical view of a [`StageRunner`].
pub struct RunnerView {
    pub weights: Seq<nat>,
    pub next: nat,
    pub completed_pct: nat,
    pub total_us: int,
    pub running: bool,
}

/// The decisions of running an operation's stages in order: when to start
/// the next stage, what progress each output line means, and what a stage's
/// exit means for the job.
pub struct StageRunner {
    weights: Vec<u32>,
    next: usize,
    completed_pct: u64,
    total_us: i64,
    running: bool,
}

pub open spec fn weights_view(w: Seq<u32>) -> Seq<nat> {
    w.map_values(|x: u32| x as nat)
}

impl View for StageRunner {
    type V = RunnerView;

    closed spec fn view(&self) -> RunnerView {
        RunnerView {
            weights: weights_view(self.weights@),
            next: self.next as nat,
            completed_pct: self.completed_pct as nat,
            total_us: self.total_us as int,
            running: self.running,
        }
    }
}

impl StageRunner {
    /// The runner's bookkeeping is consistent: the completed share is that of
    /// the stages before `next`, and a running stage exists.
    pub closed spec fn wf(&self) -> bool {
        &&& self.next <= self.weights@.len()
        &&& self.completed_pct as nat == completed_share(weights_view(self.weights@), self.next as int)
        &&& self.running ==> self.next < self.weights@.len()
    }

    /// A runner about to start the first of `stages`; `total_us` is the
    /// source duration (0 or less when unknown).
    pub fn new(stages: &Vec<Stage>, total_us: i64) -> (r: StageRunner)
        ensures
            r.wf(),
            r@.weights == stages@.map_values(|s: Stage| s.weight_pct as nat),
            r@.next == 0,
            r@.completed_pct == 0,
            r@.total_us == total_us,
            !r@.running,
    {
        let mut weights: Vec<u32> = Vec::new();
        let mut i: usize = 0;
        while i < stages.len()
            invariant
                i <= stages@.len(),
                weights@ == stages@.take(i as int).map_values(|s: Stage| s.weight_pct),
            decreases stages.len() - i,
        {
            weights.push(stages[i].weight_pct);
            i = i + 1;
            assert(weights@ =~= stages@.take(i as int).map_values(|s: Stage| s.weight_pct));
        }
        assert(stages@.take(i as int) =~= stages@);
        assert(weights_view(weights@) =~= stages@.map_values(|s: Stage| s.weight_pct as nat));
        StageRunner { weights, next: 0, completed_pct: 0, total_us, running: false }
    }

    /// Before each stage: finish when every stage has run; otherwise stop when
    /// cancelled, else start the next stage. (A cancel that comes after the
    /// last stage succeeded does not undo the finished job.)
    pub fn begin(&mut self, cancelled: bool) -> (r: RunStep)
        requires
            old(self).wf(),
            !old(self)@.running,
        ensures
            final(self).wf(),
            old(self)@.next >= old(self)@.weights.len() ==> r == RunStep::Finished
                && final(self)@ == old(self)@,
            cancelled && old(self)@.next < old(self)@.weights.len() ==> r == RunStep::Cancelled
                && final(self)@ == old(self)@,
            !cancelled && old(self)@.next < old(self)@.weights.len() ==> r == RunStep::Start(
                old(self)@.next as usize,
            ) && final(self)@ == (RunnerView { running: true, ..old(self)@ }),
    {
        if self.next >= self.weights.len() {
            RunStep::Finished
        } else if cancelled {
            RunStep::Cancelled
        } else {
            self.running = true;
            RunStep::Start(self.next)
        }
    }

    /// One line of the running stage's progress output.
    pub fn on_line(&self, line: &str, cancelled: bool) -> (r: LineStep)
        requires
            self.wf(),
            self@.running,
        ensures
            cancelled ==> r == LineStep::Cancel,
            !cancelled ==> match progress_micros_spec(line@) {
                Some(cur) => r == LineStep::Report(
                    overall_ppm_spec(
                        self@.completed_pct,
                        self@.weights[self@.next as int],
                        stage_ppm_spec(cur, self@.total_us),
                    ) as u32,
                ),
                None => r == LineStep::Ignore,
            },
    {
        if cancelled {
            return LineStep::Cancel;
        }
        match parse_progress_micros(line) {
            None => LineStep::Ignore,
            Some(cur) => {
                let f = stage_ppm(cur, self.total_us);
                LineStep::Report(overall_ppm(self.completed_pct, self.weights[self.next], f))
            },
        }
    }

    /// The running stage exited. A failure ends the job (as a cancellation
    /// when one was requested meanwhile, since a killed stage fails); success
    /// moves on and reports the completed share.
    pub fn on_exit(&mut self, success: bool, code: Option<i32>, stderr: String, cancelled: bool) -> (r: Result<u32, EngineError>)
        requires
            old(self).wf(),
            old(self)@.running,
        ensures
            final(self).wf(),
            !success && cancelled ==> r matches Err(EngineError::Cancelled),
            !success && !cancelled ==> (r matches Err(EngineError::Failed { code: c, stderr: e })
                && c == code && e == stderr),
            !success ==> final(self)@ == old(self)@,
            success ==> final(self)@ == (RunnerView {
                next: old(self)@.next + 1,
                completed_pct: completed_share(old(self)@.weights, (old(self)@.next + 1) as int),
                running: false,
                ..old(self)@
            }),
            success ==> r == Ok::<u32, EngineError>((final(self)@.completed_pct * 10000) as u32),
    {
        if !success {
            if cancelled {
                return Err(EngineError::Cancelled);
            }
            return Err(EngineError::Failed { code, stderr });
        }
        let n = self.next;
        let len = self.weights.len();
        assert(n < len);
        let w = self.weights[n] as u64;
        let sum = self.completed_pct + w;
        let ghost ws = weights_view(self.weights@);
        let ghost k = self.next as int;
        proof {
            assert(ws[k] == w);
            assert(prefix_weight(ws, k + 1) == prefix_weight(ws, k) + ws[k]);
        }
        self.completed_pct = if sum > 100 {
            100
        } else {
            sum
        };
        self.next = n + 1;
        self.running = false;
        Ok((self.completed_pct * 10000) as u32)
    }
}

/// How far through a stage its output time is, in millionths.
pub fn stage_ppm(cur_us: i64, total_us: i64) -> (r: u32)
    ensures
        r as nat == stage_ppm_spec(cur_us as int, total_us as int),
        r <= FULL_PPM,
{
    if total_us <= 0 || cur_us <= 0 {
        0
    } else if cur_us >= total_us {
        FULL_PPM
    } else {
        let v: i128 = (cur_us as i128) * 1000000 / (total_us as i128);
        assert(v < 1000000) by (nonlinear_arith)
            requires
                0 < cur_us < total_us,
                v == (cur_us as int) * 1000000 / (total_us as int),
        ;
        assert(v >= 0) by (nonlinear_arith)
            requires
                0 < cur_us,
                0 < total_us,
                v == (cur_us as int) * 1000000 / (total_us as int),
        ;
        v as u32
    }
}

/// Overall progress in millionths, capped at the whole job.
pub fn overall_ppm(completed_pct: u64, weight_pct: u32, stage_ppm: u32) -> (r: u32)
    requires
        completed_pct <= 100,
        stage_ppm <= FULL_PPM,
    ensures
        r as nat == overall_ppm_spec(completed_pct as nat, weight_pct as nat, stage_ppm as nat),
        r <= FULL_PPM,
        r >= (if completed_pct * 10000 > 1000000 { 1000000 } else { completed_pct * 10000 }),
{
    let w = weight_pct as u64;
    let f = stage_ppm as u64;
    assert(w * f <= 4294967295 * 1000000) by (nonlinear_arith)
        requires
            w <= 4294967295,
            f <= 1000000,
    ;
    let v: u64 = completed_pct * 10000 + w * f / 100;
    if v > 1000000 {
        FULL_PPM
    } else {
        v as u32
    }
}

/// Estimated time left (ms) after `elapsed_ms` with `overall_ppm` done;
/// 0 while too little (2% or less) is done to tell.
pub open spec fn eta_ms_spec(elapsed_ms: nat, overall_ppm: nat) -> nat {
    if overall_ppm > 20000 && overall_ppm < 1000000 {
        let v = elapsed_ms * ((1000000 - overall_ppm) as nat) / overall_ppm;
        if v > u64::MAX {
            u64::MAX as nat
        } else {
            v
        }
    } else {
        0
    }
}

/// Estimated milliseconds remaining, from the time spent and the share done.
pub fn eta_ms(elapsed_ms: u64, overall_ppm: u32) -> (r: u64)
    ensures
        r as nat == eta_ms_spec(elapsed_ms as nat, overall_ppm as nat),
{
    if overall_ppm > 20000 && overall_ppm < FULL_PPM {
        let left: u128 = (1000000 - overall_ppm) as u128;
        let e = elapsed_ms as u128;
        assert(e * left <= 18446744073709551615 * 1000000) by (nonlinear_arith)
            requires
                e <= 18446744073709551615,
                left <= 1000000,
        ;
        let v: u128 = e * left / (overall_ppm as u128);
        if v > (u64::MAX as u128) {
            u64::MAX
        } else {
            v as u64
        }
    } else {
        0
    }
}


/// A progress line never reports more than the whole job, nor less than the
/// share of the stages already completed.
pub proof fn lemma_line_progress_bounds(completed_pct: nat, weight_pct: nat, stage_ppm: nat)
    requires
        completed_pct <= 100,
        stage_ppm <= 1000000,
    ensures
        completed_pct * 10000 <= overall_ppm_spec(completed_pct, weight_pct, stage_ppm) <= 1000000,
{
    assert(weight_pct * stage_ppm / 100 >= 0) by (nonlinear_arith);
}

/// The progress bar never goes backwards at a stage boundary: no progress
/// line of a stage reports more than the stage's successful end, and each
/// stage end reports at least what the previous one did.
pub proof fn lemma_stage_end_dominates(w: Seq<nat>, k: int, stage_ppm: nat)
    requires
        0 <= k < w.len(),
        stage_ppm <= 1000000,
    ensures
        overall_ppm_spec(completed_share(w, k), w[k], stage_ppm) <= completed_share(w, k + 1)
            * 10000,
        completed_share(w, k) <= completed_share(w, k + 1),
{
    let wk = w[k];
    assert(prefix_weight(w, k + 1) == prefix_weight(w, k) + wk);
    assert(wk * stage_ppm / 100 <= wk * 10000) by (nonlinear_arith)
        requires
            stage_ppm <= 1000000,
    ;
}

proof fn lemma_prefix_agree(a: Seq<nat>, b: Seq<nat>, k: int)
    requires
        0 <= k <= a.len(),
        k <= b.len(),
        forall|i: int| 0 <= i < k ==> a[i] == b[i],
    ensures
        prefix_weight(a, k) == prefix_weight(b, k),
    decreases k,
{
    if k > 0 {
        lemma_prefix_agree(a, b, k - 1);
    }
}

/// The completed share after all of an operation's stages is the sum of
/// their weights.
pub proof fn lemma_prefix_is_total(s: Seq<crate::ops::StageSpec>)
    ensures
        prefix_weight(s.map_values(|x: crate::ops::StageSpec| x.weight_pct), s.len() as int)
            == crate::ops::weight_total(s),
    decreases s.len(),
{
    let w = s.map_values(|x: crate::ops::StageSpec| x.weight_pct);
    if s.len() > 0 {
        let d = s.drop_last();
        let wd = d.map_values(|x: crate::ops::StageSpec| x.weight_pct);
        lemma_prefix_is_total(d);
        lemma_prefix_agree(w, wd, d.len() as int);
    }
}

/// Running any operation's stages to success ends at full progress: their
/// completed share reaches 100%.
pub proof fn lemma_op_runs_to_full(
    id: crate::ops::OpId,
    input: Seq<char>,
    output: Seq<char>,
    workdir: Seq<char>,
    probe: crate::probe::ProbeView,
    params: crate::ops::JobParams,
)
    ensures
        ({
            let s = crate::ops::stages_spec(id, input, output, workdir, probe, params);
            completed_share(s.map_values(|x: crate::ops::StageSpec| x.weight_pct), s.len() as int)
                == 100
        }),
{
    let s = crate::ops::stages_spec(id, input, output, workdir, probe, params);
    crate::ops::lemma_stages_complete(id, input, output, workdir, probe, params);
    lemma_prefix_is_total(s);
}

} // verus!
