//! The job protocol, host side.
//!
//! The orchestrator drops a job into the guest, fires the runner that the
//! golden image already carries, and polls for `exit_code.txt`. The file
//! appearing is the end of the run; its contents are the result. What the
//! polls decide is here, as functions of what each poll saw.

use vstd::prelude::*;

use crate::fmt::{debug_opt_i32, debug_opt_i32_spec, debug_quoted, debug_str, round_secs, round_secs_spec};
use crate::guest::ssh::WaitStep;
use crate::provider::target::{target_slug, Target};
use crate::provider::{sep_spec, under_root, GUEST_ROOT_LINUX, GUEST_ROOT_WINDOWS};
use crate::runner::CommandOutput;
use crate::text::{
    chars_of, contains, contains_spec, lines_spec, next_line, owned, parse_i32, parse_i32_spec,
    push_char, string_of, trim, trim_bounds, trim_spec,
};

verus! {

/// The job script's name inside the guest.
pub fn job_file(target: Target) -> (r: &'static str)
    ensures
        r@ == (match target {
            Target::Windows => "job.cmd"@,
            Target::Linux => "job.sh"@,
        }),
{
    match target {
        Target::Windows => "job.cmd",
        Target::Linux => "job.sh",
    }
}

/// Where the job script is copied to.
pub fn job_destination(target: Target) -> (r: String)
    ensures
        r@ == (match target {
            Target::Windows => GUEST_ROOT_WINDOWS@ + "\\job.cmd"@,
            Target::Linux => GUEST_ROOT_LINUX@ + "/job.sh"@,
        }),
{
    match target {
        Target::Windows => {
            let mut r = owned(GUEST_ROOT_WINDOWS);
            r.append("\\job.cmd");
            r
        },
        Target::Linux => {
            let mut r = owned(GUEST_ROOT_LINUX);
            r.append("/job.sh");
            r
        },
    }
}

/// The command that starts the job and returns immediately: the scheduled
/// task on Windows, which is the only way onto the interactive desktop, and a
/// runner detached from the SSH session on Linux.
pub fn launch_command(target: Target) -> (r: &'static str)
    ensures
        r@ == (match target {
            Target::Windows => "schtasks /run /tn sunlit-e2e-job"@,
            Target::Linux => "nohup setsid /usr/local/bin/sunlit-e2e-run-job </dev/null >/dev/null 2>&1 & echo started"@,
        }),
{
    match target {
        Target::Windows => "schtasks /run /tn sunlit-e2e-job",
        Target::Linux => "nohup setsid /usr/local/bin/sunlit-e2e-run-job </dev/null >/dev/null 2>&1 & echo started",
    }
}

/// A command that prints a file under the results directory, and nothing when
/// it is not there yet.
pub open spec fn print_result_file(target: Target, file: Seq<char>) -> Seq<char> {
    match target {
        Target::Windows => "if exist "@ + GUEST_ROOT_WINDOWS@ + "\\results\\"@ + file + " type "@
            + GUEST_ROOT_WINDOWS@ + "\\results\\"@ + file,
        Target::Linux => "cat "@ + GUEST_ROOT_LINUX@ + "/results/"@ + file
            + " 2>/dev/null || true"@,
    }
}

fn print_result_command(target: Target, file: &str) -> (r: String)
    ensures
        r@ == print_result_file(target, file@),
{
    match target {
        Target::Windows => {
            let mut r = owned("if exist ");
            r.append(GUEST_ROOT_WINDOWS);
            r.append("\\results\\");
            r.append(file);
            r.append(" type ");
            r.append(GUEST_ROOT_WINDOWS);
            r.append("\\results\\");
            r.append(file);
            r
        },
        Target::Linux => {
            let mut r = owned("cat ");
            r.append(GUEST_ROOT_LINUX);
            r.append("/results/");
            r.append(file);
            r.append(" 2>/dev/null || true");
            r
        },
    }
}

/// The commands that read the job's files read them where the job leaves them
/// and where they are collected from: the guest's results directory, the
/// file's name after the guest's own separator.
pub proof fn lemma_results_are_read_from_the_results_directory(target: Target, file: Seq<char>)
    ensures
        ({
            let path = under_root(target, "results"@) + sep_spec(target) + file;
            match target {
                Target::Linux => print_result_file(target, file) == "cat "@ + path + " 2>/dev/null || true"@,
                Target::Windows => print_result_file(target, file) == "if exist "@ + path + " type "@ + path,
            }
        }),
{
    reveal_strlit("/results/");
    reveal_strlit("\\results\\");
    reveal_strlit("results");
    reveal_strlit("/");
    reveal_strlit("\\");
    let path = under_root(target, "results"@) + sep_spec(target) + file;
    match target {
        Target::Linux => {
            assert(path =~= GUEST_ROOT_LINUX@ + "/results/"@ + file);
            assert(print_result_file(target, file) =~= "cat "@ + path + " 2>/dev/null || true"@);
        },
        Target::Windows => {
            assert(path =~= GUEST_ROOT_WINDOWS@ + "\\results\\"@ + file);
            assert(print_result_file(target, file) =~= "if exist "@ + path + " type "@ + path);
        },
    }
}

/// The command that reads the exit-code file, printing nothing if it is absent.
pub fn exit_code_command(target: Target) -> (r: String)
    ensures
        r@ == print_result_file(target, "exit_code.txt"@),
{
    print_result_command(target, "exit_code.txt")
}

/// The command that prints the whole of the job's output so far.
pub fn output_log_command(target: Target) -> (r: String)
    ensures
        r@ == print_result_file(target, "output.log"@),
{
    print_result_command(target, "output.log")
}

/// The marker the session-ready probe looks for.
pub const SESSION_READY_MARKER: &'static str = "SUNLIT_SESSION_READY";

pub open spec fn session_ready_spec(target: Target) -> Seq<char> {
    match target {
        Target::Windows => "if exist "@ + GUEST_ROOT_WINDOWS@ + "\\ready echo "@
            + SESSION_READY_MARKER@,
        Target::Linux => "test -f "@ + GUEST_ROOT_LINUX@ + "/ready && echo "@
            + SESSION_READY_MARKER@ + " || true"@,
    }
}

/// The command that reports whether the desktop session exists yet.
pub fn session_ready_command(target: Target) -> (r: String)
    ensures
        r@ == session_ready_spec(target),
{
    match target {
        Target::Windows => {
            let mut r = owned("if exist ");
            r.append(GUEST_ROOT_WINDOWS);
            r.append("\\ready echo ");
            r.append(SESSION_READY_MARKER);
            r
        },
        Target::Linux => {
            let mut r = owned("test -f ");
            r.append(GUEST_ROOT_LINUX);
            r.append("/ready && echo ");
            r.append(SESSION_READY_MARKER);
            r.append(" || true");
            r
        },
    }
}

// ---------------------------------------------------------------------------
// The job's log
// ---------------------------------------------------------------------------

/// How many bytes UTF-8 spends on a character.
pub open spec fn utf8_width(c: char) -> nat {
    if (c as u32) < 0x80 {
        1
    } else if (c as u32) < 0x800 {
        2
    } else if (c as u32) < 0x10000 {
        3
    } else {
        4
    }
}

/// How many bytes UTF-8 spends on a string.
pub open spec fn utf8_len(s: Seq<char>) -> nat
    decreases s.len(),
{
    if s.len() == 0 {
        0
    } else {
        utf8_len(s.drop_last()) + utf8_width(s.last())
    }
}

/// `k` is the character where the text starting at byte `p`, moved back to a
/// character boundary, begins.
pub open spec fn is_floor(s: Seq<char>, p: nat, k: int) -> bool {
    &&& 0 <= k <= s.len()
    &&& utf8_len(s.take(k)) <= p
    &&& (k == s.len() || utf8_len(s.take(k + 1)) > p)
}

pub open spec fn floor_of(s: Seq<char>, p: nat) -> int {
    choose|k: int| is_floor(s, p, k)
}

/// `trim_end_matches` of the replacement character.
pub open spec fn trim_fffd(s: Seq<char>) -> Seq<char>
    decreases s.len(),
{
    if s.len() > 0 && s.last() == '\u{fffd}' {
        trim_fffd(s.drop_last())
    } else {
        s
    }
}

/// What `absorb` does: where the tail stands afterwards, and what it prints.
pub open spec fn absorb_spec(printed: nat, log: Seq<char>) -> (nat, Option<Seq<char>>) {
    let p = if utf8_len(log) < printed {
        0
    } else {
        printed
    };
    let k = floor_of(log, p);
    let fresh = trim_fffd(log.skip(k));
    if fresh.len() == 0 {
        (utf8_len(log.take(k)), None)
    } else {
        (utf8_len(log.take(k)) + utf8_len(fresh), Some(fresh))
    }
}

proof fn lemma_utf8_len_take_step(s: Seq<char>, k: int)
    requires
        0 <= k < s.len(),
    ensures
        utf8_len(s.take(k + 1)) == utf8_len(s.take(k)) + utf8_width(s[k]),
{
    assert(s.take(k + 1).drop_last() == s.take(k));
}

proof fn lemma_utf8_len_take_mono(s: Seq<char>, a: int, b: int)
    requires
        0 <= a <= b <= s.len(),
    ensures
        utf8_len(s.take(a)) <= utf8_len(s.take(b)),
        a < b ==> utf8_len(s.take(a + 1)) <= utf8_len(s.take(b)),
    decreases b - a,
{
    if a < b {
        lemma_utf8_len_take_step(s, b - 1);
        lemma_utf8_len_take_mono(s, a, b - 1);
    }
}

proof fn lemma_floor_unique(s: Seq<char>, p: nat, k: int, j: int)
    requires
        is_floor(s, p, k),
        is_floor(s, p, j),
    ensures
        k == j,
{
    if k < j {
        lemma_utf8_len_take_mono(s, k, j);
    } else if j < k {
        lemma_utf8_len_take_mono(s, j, k);
    }
}

proof fn lemma_floor_exists(s: Seq<char>, p: nat)
    ensures
        exists|k: int| is_floor(s, p, k),
    decreases s.len(),
{
    if s.len() == 0 {
        assert(s.take(0) =~= Seq::<char>::empty());
        assert(is_floor(s, p, 0));
    } else if utf8_len(s) <= p {
        assert(s.take(s.len() as int) =~= s);
        assert(is_floor(s, p, s.len() as int));
    } else {
        let t = s.drop_last();
        lemma_floor_exists(t, p);
        let k = choose|k: int| is_floor(t, p, k);
        assert(t.take(k) =~= s.take(k));
        if k < t.len() {
            assert(t.take(k + 1) =~= s.take(k + 1));
            assert(is_floor(s, p, k));
        } else {
            assert(s.take(k + 1) =~= s);
            assert(is_floor(s, p, k));
        }
    }
}

proof fn lemma_utf8_len_concat(a: Seq<char>, b: Seq<char>)
    ensures
        utf8_len(a + b) == utf8_len(a) + utf8_len(b),
    decreases b.len(),
{
    if b.len() == 0 {
        assert(a + b =~= a);
    } else {
        lemma_utf8_len_concat(a, b.drop_last());
        assert((a + b).drop_last() =~= a + b.drop_last());
        assert((a + b).last() == b.last());
    }
}

proof fn lemma_trim_fffd_prefix(x: Seq<char>)
    ensures
        trim_fffd(x).len() <= x.len(),
        trim_fffd(x) =~= x.take(trim_fffd(x).len() as int),
        forall|j: int| trim_fffd(x).len() <= j < x.len() ==> x[j] == '\u{fffd}',
    decreases x.len(),
{
    if x.len() > 0 && x.last() == '\u{fffd}' {
        lemma_trim_fffd_prefix(x.drop_last());
        assert forall|j: int| trim_fffd(x).len() <= j < x.len() implies x[j] == '\u{fffd}' by {
            if j < x.len() - 1 {
                assert(x.drop_last()[j] == x[j]);
            }
        }
    } else {
        assert(x.take(x.len() as int) =~= x);
    }
}

proof fn lemma_trim_fffd_all(x: Seq<char>)
    requires
        forall|j: int| 0 <= j < x.len() ==> x[j] == '\u{fffd}',
    ensures
        trim_fffd(x).len() == 0,
    decreases x.len(),
{
    if x.len() > 0 {
        lemma_trim_fffd_all(x.drop_last());
    }
}

/// Where the text that has `take(k)` behind it begins is `k` itself.
proof fn lemma_floor_at(s: Seq<char>, k: int)
    requires
        0 <= k <= s.len(),
    ensures
        floor_of(s, utf8_len(s.take(k))) == k,
{
    if k < s.len() {
        lemma_utf8_len_take_step(s, k);
    }
    assert(is_floor(s, utf8_len(s.take(k)), k));
    lemma_floor_unique(s, utf8_len(s.take(k)), floor_of(s, utf8_len(s.take(k))), k);
}

/// A tail prints each line once: whatever it had printed before, what it
/// stands at after reading a log is a point from which the same log holds
/// nothing new, so asking again prints nothing and moves nowhere.
pub proof fn lemma_a_tail_prints_nothing_twice(printed: nat, log: Seq<char>)
    ensures
        absorb_spec(absorb_spec(printed, log).0, log) == (absorb_spec(printed, log).0, None::<Seq<char>>),
{
    let p = if utf8_len(log) < printed {
        0
    } else {
        printed
    };
    lemma_floor_exists(log, p);
    let k = floor_of(log, p);
    assert(is_floor(log, p, k));
    let rest = log.skip(k);
    let fresh = trim_fffd(rest);
    lemma_trim_fffd_prefix(rest);
    let k2 = k + fresh.len();
    assert(log.take(k2) =~= log.take(k) + fresh);
    lemma_utf8_len_concat(log.take(k), fresh);
    let n = utf8_len(log.take(k2));
    assert(absorb_spec(printed, log).0 == n);
    lemma_utf8_len_take_mono(log, k2, log.len() as int);
    assert(log.take(log.len() as int) =~= log);
    lemma_floor_at(log, k2);
    assert(log.skip(k2) =~= rest.skip(fresh.len() as int));
    assert forall|j: int| 0 <= j < log.skip(k2).len() implies log.skip(k2)[j] == '\u{fffd}' by {
        assert(log.skip(k2)[j] == rest[fresh.len() + j]);
    }
    lemma_trim_fffd_all(log.skip(k2));
}

proof fn lemma_trim_fffd_settled(x: Seq<char>)
    ensures
        trim_fffd(x).len() == 0 || trim_fffd(x).last() != '\u{fffd}',
    decreases x.len(),
{
    if x.len() > 0 && x.last() == '\u{fffd}' {
        lemma_trim_fffd_settled(x.drop_last());
    }
}

proof fn lemma_trim_fffd_after(a: Seq<char>, b: Seq<char>)
    requires
        a.len() == 0 || a.last() != '\u{fffd}',
    ensures
        trim_fffd(a + b) == a + trim_fffd(b),
    decreases b.len(),
{
    if b.len() == 0 {
        assert(a + b =~= a);
        assert(a + trim_fffd(b) =~= a);
    } else if b.last() == '\u{fffd}' {
        assert((a + b).drop_last() =~= a + b.drop_last());
        lemma_trim_fffd_after(a, b.drop_last());
    } else {
        assert((a + b).last() == b.last());
    }
}

/// What a poll printed, as text: nothing where it printed nothing.
pub open spec fn printed_text(fresh: Option<Seq<char>>) -> Seq<char> {
    match fresh {
        Some(f) => f,
        None => Seq::empty(),
    }
}

/// A tail loses nothing: a new tail's first poll and the poll after it print,
/// between them, the whole of the second log but for a character still being
/// written, whenever the second log goes on from what the first one printed.
/// That covers a log that grew, and one whose last character was caught half
/// written and is whole now.
pub proof fn lemma_a_tail_loses_nothing(log1: Seq<char>, log2: Seq<char>)
    requires
        trim_fffd(log1).len() <= log2.len(),
        log2.take(trim_fffd(log1).len() as int) == trim_fffd(log1),
    ensures
        ({
            let (n1, f1) = absorb_spec(0, log1);
            let (n2, f2) = absorb_spec(n1, log2);
            printed_text(f1) + printed_text(f2) == trim_fffd(log2)
        }),
{
    let t1 = trim_fffd(log1);
    let m = t1.len() as int;
    assert(log1.take(0) =~= Seq::<char>::empty());
    lemma_floor_at(log1, 0);
    assert(log1.skip(0) =~= log1);
    assert(absorb_spec(0, log1).0 == utf8_len(t1));
    assert(printed_text(absorb_spec(0, log1).1) == t1);
    lemma_utf8_len_take_mono(log2, m, log2.len() as int);
    assert(log2.take(log2.len() as int) =~= log2);
    lemma_floor_at(log2, m);
    assert(log2 =~= t1 + log2.skip(m));
    lemma_trim_fffd_settled(log1);
    lemma_trim_fffd_after(t1, log2.skip(m));
}

fn utf8_width_of(c: char) -> (r: u128)
    ensures
        r == utf8_width(c),
{
    let v = c as u32;
    if v < 0x80 {
        1
    } else if v < 0x800 {
        2
    } else if v < 0x10000 {
        3
    } else {
        4
    }
}

/// How much of the job's log has been printed already, in bytes of UTF-8.
///
/// The guest is asked for the whole log every poll and this decides what of it
/// is new.
#[derive(Debug, Clone)]
pub struct OutputTail {
    printed: u128,
}

impl OutputTail {
    pub closed spec fn printed_spec(&self) -> nat {
        self.printed as nat
    }

    pub fn new() -> (r: OutputTail)
        ensures
            r.printed_spec() == 0,
    {
        OutputTail { printed: 0 }
    }

    /// The part of `log` that has not been printed yet, and nothing when there
    /// is none.
    ///
    /// A log shorter than what was already printed is a restarted job and reads
    /// as fresh. What the last poll ended in is held back at a character
    /// boundary, and a trailing replacement character is a character the guest
    /// is still writing, so it waits for the poll that has the whole of it.
    pub fn absorb(&mut self, log: &str) -> (r: Option<String>)
        ensures
            ({
                let (next, fresh) = absorb_spec(old(self).printed_spec(), log@);
                &&& final(self).printed_spec() == next
                &&& match fresh {
                    Some(f) => r matches Some(x) && x@ == f,
                    None => r is None,
                }
            }),
    {
        let v = chars_of(log);
        // The whole log's size, and where the tail can start.
        let mut total: u128 = 0;
        let mut i: usize = 0;
        while i < v.len()
            invariant
                v@ == log@,
                i <= v.len(),
                total == utf8_len(v@.take(i as int)),
                total <= 4 * i,
            decreases v.len() - i,
        {
            proof {
                lemma_utf8_len_take_step(v@, i as int);
            }
            total = total + utf8_width_of(v[i]);
            i = i + 1;
        }
        assert(v@.take(v.len() as int) =~= v@);
        let p: u128 = if total < self.printed {
            0
        } else {
            self.printed
        };
        let mut k: usize = 0;
        let mut at: u128 = 0;
        assert(v@.take(0) =~= Seq::<char>::empty());
        while k < v.len() && at + utf8_width_of(v[k]) <= p
            invariant
                v@ == log@,
                k <= v.len(),
                total <= 4 * v.len(),
                at <= 4 * k,
                at == utf8_len(v@.take(k as int)),
                at <= p,
                p <= total,
                total == utf8_len(v@),
            decreases v.len() - k,
        {
            proof {
                lemma_utf8_len_take_step(v@, k as int);
            }
            at = at + utf8_width_of(v[k]);
            k = k + 1;
        }
        proof {
            if k < v.len() {
                lemma_utf8_len_take_step(v@, k as int);
            }
            assert(is_floor(log@, p as nat, k as int));
            lemma_floor_unique(log@, p as nat, k as int, floor_of(log@, p as nat));
        }
        // The fresh part, without a trailing half-written character.
        let mut end = v.len();
        assert(v@.subrange(k as int, v.len() as int) =~= v@.skip(k as int));
        while end > k && v[end - 1] == '\u{fffd}'
            invariant
                k <= end <= v.len(),
                trim_fffd(v@.skip(k as int)) == trim_fffd(v@.subrange(k as int, end as int)),
            decreases end - k,
        {
            proof {
                assert(v@.subrange(k as int, end as int).drop_last() == v@.subrange(
                    k as int,
                    end - 1,
                ));
            }
            end = end - 1;
        }
        proof {
            let w = v@.subrange(k as int, end as int);
            if w.len() > 0 {
                assert(w.last() == v@[end - 1]);
            }
            assert(trim_fffd(w) == w);
        }
        if end == k {
            self.printed = at;
            return None;
        }
        let mut fresh_bytes: u128 = 0;
        let mut j = k;
        while j < end
            invariant
                k <= j <= end <= v.len(),
                at <= 4 * k,
                fresh_bytes == utf8_len(v@.subrange(k as int, j as int)),
                fresh_bytes <= 4 * (j - k),
            decreases end - j,
        {
            proof {
                assert(v@.subrange(k as int, j + 1).drop_last() == v@.subrange(k as int, j as int));
            }
            fresh_bytes = fresh_bytes + utf8_width_of(v[j]);
            j = j + 1;
        }
        proof {
            lemma_utf8_len_take_mono(v@, k as int, end as int);
            lemma_utf8_len_split(v@, k as int, end as int);
        }
        self.printed = at + fresh_bytes;
        Some(string_of(&v, k, end))
    }
}

/// The bytes of a prefix and the bytes of what follows it add up.
proof fn lemma_utf8_len_split(s: Seq<char>, k: int, e: int)
    requires
        0 <= k <= e <= s.len(),
    ensures
        utf8_len(s.take(e)) == utf8_len(s.take(k)) + utf8_len(s.subrange(k, e)),
    decreases e - k,
{
    if k < e {
        lemma_utf8_len_split(s, k, e - 1);
        lemma_utf8_len_take_step(s, e - 1);
        assert(s.subrange(k, e).drop_last() == s.subrange(k, e - 1));
    } else {
        assert(s.subrange(k, e).len() == 0);
    }
}

// ---------------------------------------------------------------------------
// The exit code
// ---------------------------------------------------------------------------

pub open spec fn unreadable_code(trimmed: Seq<char>) -> Seq<char> {
    "the guest wrote an unreadable exit code: "@ + debug_quoted(trimmed)
}

/// What an exit-code file says: nothing yet, a code from its first line, or a
/// broken guest.
pub open spec fn parse_exit_code_spec(text: Seq<char>) -> Result<Option<int>, Seq<char>> {
    let t = trim_spec(text);
    if t.len() == 0 {
        Ok(None)
    } else {
        match parse_i32_spec(trim_spec(lines_spec(t)[0])) {
            Some(c) => Ok(Some(c)),
            None => Err(unreadable_code(t)),
        }
    }
}

/// Read an exit-code file's contents.
///
/// Absent or still empty reads as "not finished"; anything else has to parse,
/// because a file with garbage in it is a broken guest rather than a pass.
pub fn parse_exit_code(text: &str) -> (r: Result<Option<i32>, String>)
    ensures
        match (r, parse_exit_code_spec(text@)) {
            (Ok(None), Ok(None)) => true,
            (Ok(Some(x)), Ok(Some(c))) => x as int == c,
            (Err(e), Err(m)) => e@ == m,
            _ => false,
        },
{
    let trimmed = trim(text);
    let v = chars_of(trimmed.as_str());
    if v.len() == 0 {
        return Ok(None);
    }
    let (end, next) = next_line(&v, 0);
    proof {
        assert(v@.skip(0) =~= v@);
    }
    let (lo, hi) = trim_bounds(&v, 0, end);
    match parse_i32(&v, lo, hi) {
        Some(c) => Ok(Some(c)),
        None => {
            let mut e = owned("the guest wrote an unreadable exit code: ");
            e.append(debug_str(trimmed.as_str()).as_str());
            Err(e)
        },
    }
}

/// What the poll for the exit code saw, before the guest's health is asked.
#[derive(Debug, Clone, PartialEq, Eq)]
pub enum Poll {
    /// The job finished with this code.
    Finished(i32),
    /// The wait is over without one.
    Failed(String),
    /// No code yet: ask whether the guest is still alive.
    NotYet,
}

/// The first half of one poll: a code ends the wait, an unreadable file fails
/// it, and a poll that could not reach the guest fails it only once the
/// timeout has passed, since a busy guest may drop one connection.
pub fn exit_code_poll(outcome: Result<CommandOutput, String>, elapsed_ms: u64, timeout_ms: u64) -> (r:
    Poll)
    ensures
        match outcome {
            Ok(out) => match parse_exit_code_spec(out.stdout@) {
                Ok(Some(c)) => r matches Poll::Finished(x) && x as int == c,
                Ok(None) => r == Poll::NotYet,
                Err(m) => r matches Poll::Failed(e) && e@ == m,
            },
            Err(e) => if elapsed_ms >= timeout_ms {
                r matches Poll::Failed(x) && x@ == e@
            } else {
                r == Poll::NotYet
            },
        },
{
    match outcome {
        Ok(out) => match parse_exit_code(out.stdout.as_str()) {
            Ok(Some(c)) => Poll::Finished(c),
            Ok(None) => Poll::NotYet,
            Err(e) => Poll::Failed(e),
        },
        Err(e) => if elapsed_ms >= timeout_ms {
            Poll::Failed(e)
        } else {
            Poll::NotYet
        },
    }
}

pub open spec fn job_timeout_message(timeout_ms: u64, target: Target) -> Seq<char> {
    "the job did not finish within "@ + round_secs_spec(timeout_ms)
        + "s. It may still be running: `cargo xtask vm ssh "@ + target_slug(target)
        + "` gets you in, and the results directory holds whatever it wrote."@
}

/// The second half: a guest that died ends the wait with its provider's
/// reason, and otherwise the timeout decides.
pub fn job_wait_step(defunct: Option<String>, elapsed_ms: u64, timeout_ms: u64, target: Target) -> (r:
    WaitStep)
    ensures
        match defunct {
            Some(reason) => r matches WaitStep::GiveUp(e) && e@
                == "the guest stopped while the job was running: "@ + reason@,
            None => if elapsed_ms >= timeout_ms {
                r matches WaitStep::GiveUp(e) && e@ == job_timeout_message(timeout_ms, target)
            } else {
                r == WaitStep::Again
            },
        },
{
    match defunct {
        Some(reason) => {
            let mut e = owned("the guest stopped while the job was running: ");
            e.append(reason.as_str());
            WaitStep::GiveUp(e)
        },
        None => {
            if elapsed_ms >= timeout_ms {
                let mut e = owned("the job did not finish within ");
                e.append(round_secs(timeout_ms).as_str());
                e.append("s. It may still be running: `cargo xtask vm ssh ");
                e.append(target.slug());
                e.append("` gets you in, and the results directory holds whatever it wrote.");
                WaitStep::GiveUp(e)
            } else {
                WaitStep::Again
            }
        },
    }
}

/// Whether a session probe answered with the marker.
pub fn session_answered(outcome: &Result<CommandOutput, String>) -> (r: bool)
    ensures
        r == (outcome matches Ok(out) && contains_spec(out.stdout@, SESSION_READY_MARKER@)),
{
    match outcome {
        Ok(out) => contains(out.stdout.as_str(), SESSION_READY_MARKER),
        Err(_) => false,
    }
}

pub open spec fn session_timeout_message(timeout_ms: u64, target: Target) -> Seq<char> {
    "no desktop session in the guest after "@ + round_secs_spec(timeout_ms)
        + "s; the autologon did not complete. `cargo xtask vm view "@ + target_slug(target)
        + "` shows what it is doing."@
}

/// The decision after a session probe that did not answer: a dead guest has
/// no session coming, and otherwise the timeout decides. A probe that answered
/// is ready without asking anything else.
pub fn session_wait_step(
    answered: bool,
    defunct: Option<String>,
    elapsed_ms: u64,
    timeout_ms: u64,
    target: Target,
) -> (r: WaitStep)
    ensures
        answered ==> r == WaitStep::Ready,
        !answered ==> (match defunct {
            Some(reason) => r matches WaitStep::GiveUp(e) && e@
                == "the guest stopped before its desktop session appeared: "@ + reason@,
            None => if elapsed_ms >= timeout_ms {
                r matches WaitStep::GiveUp(e) && e@ == session_timeout_message(timeout_ms, target)
            } else {
                r == WaitStep::Again
            },
        }),
{
    if answered {
        return WaitStep::Ready;
    }
    match defunct {
        Some(reason) => {
            let mut e = owned("the guest stopped before its desktop session appeared: ");
            e.append(reason.as_str());
            WaitStep::GiveUp(e)
        },
        None => {
            if elapsed_ms >= timeout_ms {
                let mut e = owned("no desktop session in the guest after ");
                e.append(round_secs(timeout_ms).as_str());
                e.append("s; the autologon did not complete. `cargo xtask vm view ");
                e.append(target.slug());
                e.append("` shows what it is doing.");
                WaitStep::GiveUp(e)
            } else {
                WaitStep::Again
            }
        },
    }
}

/// Whether the guest took the job: the launch command has to have succeeded.
pub fn launch_verdict(out: &CommandOutput) -> (r: Result<(), String>)
    ensures
        out.code == Some(0i32) ==> r is Ok,
        out.code != Some(0i32) ==> (r matches Err(e) && e@
            == "the guest would not start the job: exit "@ + debug_opt_i32_spec(out.code) + ": "@
            + trim_spec(out.stderr@)),
{
    if out.success() {
        return Ok(());
    }
    let mut e = owned("the guest would not start the job: exit ");
    e.append(debug_opt_i32(out.code).as_str());
    e.append(": ");
    e.append(trim(out.stderr.as_str()).as_str());
    Err(e)
}

} // verus!
