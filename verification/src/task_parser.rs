//! The plain-text list format, one record per task:
//! `"<n>) [<mark>] <text>;\n"`, where `<mark>` is `+` for a done task and a
//! space for an undone one.
//!
//! Reading back is deliberately lenient: any fragment of the form
//! `[<spaces>+?<spaces>]<run>;` counts as one record, where `<run>` is a
//! nonempty stretch of characters free of `;`, `[` and `]`.  Records are
//! collected left to right, a record is done exactly when its bracket is
//! literally `[+]`, and its text is the run with whitespace normalized.

use crate::chars::{is_reserved, is_space, reserved_char, space_char};
use crate::strings::{dec_rep, push_dec};
use crate::task::{Task, TaskView};
use crate::utils::{norm, trim_str};
use vstd::prelude::*;

verus! {

/// The view of a sequence of tasks.
pub open spec fn views_of(ts: Seq<Task>) -> Seq<TaskView> {
    ts.map_values(|t: Task| t@)
}

// ---------- rendering ----------

/// The bracket mark of a task.
pub open spec fn mark_seq(done: bool) -> Seq<char> {
    if done {
        seq!['[', '+', ']']
    } else {
        seq!['[', ' ', ']']
    }
}

/// One rendered record, at 1-based position `pos`.
pub open spec fn render_task(pos: int, t: TaskView) -> Seq<char> {
    dec_rep(pos) + seq![')', ' '] + mark_seq(t.done) + seq![' '] + t.text + seq![';', '\n']
}

/// The rendered records of the tasks from position `k` on.
pub open spec fn render_from(ts: Seq<TaskView>, k: int) -> Seq<char>
    decreases ts.len() - k,
    when 0 <= k <= ts.len()
{
    if k >= ts.len() {
        Seq::<char>::empty()
    } else {
        render_task(k + 1, ts[k]) + render_from(ts, k + 1)
    }
}

/// The full rendering of a task list.
pub open spec fn render(ts: Seq<TaskView>) -> Seq<char> {
    render_from(ts, 0)
}

// ---------- scanning ----------

/// The first position at or after `i` holding a non-whitespace character.
pub open spec fn skip_ws(s: Seq<char>, i: int) -> int
    decreases s.len() - i,
    when 0 <= i <= s.len()
{
    if i >= s.len() {
        i
    } else if is_space(s[i]) {
        skip_ws(s, i + 1)
    } else {
        i
    }
}

/// The first position at or after `i` holding `;`, `[` or `]`.
pub open spec fn run_end(s: Seq<char>, i: int) -> int
    decreases s.len() - i,
    when 0 <= i <= s.len()
{
    if i >= s.len() {
        i
    } else if is_reserved(s[i]) {
        i
    } else {
        run_end(s, i + 1)
    }
}

/// If the bracket group opening at `i` matches `[<spaces>+?<spaces>]`,
/// the position just after the closing `]`.
pub open spec fn bracket_end(s: Seq<char>, i: int) -> Option<int>
    recommends
        0 <= i < s.len(),
        s[i] == '[',
{
    let j1 = skip_ws(s, i + 1);
    if j1 < s.len() && s[j1] == '+' {
        let j2 = skip_ws(s, j1 + 1);
        if j2 < s.len() && s[j2] == ']' {
            Some(j2 + 1)
        } else {
            None
        }
    } else if j1 < s.len() && s[j1] == ']' {
        Some(j1 + 1)
    } else {
        None
    }
}

/// A record is done exactly when its bracket is literally `[+]`.
pub open spec fn bracket_done(s: Seq<char>, i: int) -> bool {
    i + 2 < s.len() && s[i + 1] == '+' && s[i + 2] == ']'
}

/// The record starting at the bracket at `i`, if one matches there:
/// its task view and the position just after the terminating `;`.
pub open spec fn match_at(s: Seq<char>, i: int) -> Option<(TaskView, int)>
    recommends
        0 <= i < s.len(),
        s[i] == '[',
{
    match bracket_end(s, i) {
        None => None,
        Some(e) => {
            let r = run_end(s, e);
            if e < r && r < s.len() && s[r] == ';' {
                Some(
                    (
                        TaskView { text: norm(s.subrange(e, r)), done: bracket_done(s, i) },
                        r + 1,
                    ),
                )
            } else {
                None
            }
        },
    }
}

pub proof fn lemma_skip_ws_bounds(s: Seq<char>, i: int)
    requires
        0 <= i <= s.len(),
    ensures
        i <= skip_ws(s, i) <= s.len(),
        forall|k: int| i <= k < skip_ws(s, i) ==> is_space(#[trigger] s[k]),
        skip_ws(s, i) < s.len() ==> !is_space(s[skip_ws(s, i)]),
    decreases s.len() - i,
{
    if i < s.len() && is_space(s[i]) {
        lemma_skip_ws_bounds(s, i + 1);
    }
}

pub proof fn lemma_run_end_bounds(s: Seq<char>, i: int)
    requires
        0 <= i <= s.len(),
    ensures
        i <= run_end(s, i) <= s.len(),
        forall|k: int| i <= k < run_end(s, i) ==> !is_reserved(#[trigger] s[k]),
        run_end(s, i) < s.len() ==> is_reserved(s[run_end(s, i)]),
    decreases s.len() - i,
{
    if i < s.len() && !is_reserved(s[i]) {
        lemma_run_end_bounds(s, i + 1);
    }
}

pub proof fn lemma_match_at_bounds(s: Seq<char>, i: int)
    requires
        0 <= i < s.len(),
    ensures
        match_at(s, i) is Some ==> i < match_at(s, i)->Some_0.1 <= s.len(),
{
    lemma_skip_ws_bounds(s, i + 1);
    let j1 = skip_ws(s, i + 1);
    if j1 + 1 <= s.len() {
        lemma_skip_ws_bounds(s, j1 + 1);
    }
    match bracket_end(s, i) {
        None => {},
        Some(e) => {
            lemma_run_end_bounds(s, e);
        },
    }
}

/// The records found in `s` from position `i` on, scanning left to right.
pub open spec fn scan_from(s: Seq<char>, i: int) -> Seq<TaskView>
    decreases s.len() - i,
    when 0 <= i <= s.len()
    via scan_from_decreases
{
    if i >= s.len() {
        Seq::<TaskView>::empty()
    } else if s[i] == '[' && match_at(s, i) is Some {
        seq![match_at(s, i)->Some_0.0] + scan_from(s, match_at(s, i)->Some_0.1)
    } else {
        scan_from(s, i + 1)
    }
}

#[via_fn]
proof fn scan_from_decreases(s: Seq<char>, i: int) {
    if 0 <= i < s.len() {
        lemma_match_at_bounds(s, i);
    }
}

/// The records of the whole string.
pub open spec fn scan(s: Seq<char>) -> Seq<TaskView> {
    scan_from(s, 0)
}

// ---------- the round trip ----------

/// Text that survives the record format: it holds none of the reserved
/// characters and is already whitespace-normal.
pub open spec fn safe_text(t: Seq<char>) -> bool {
    crate::utils::is_normal(t) && forall|i: int| 0 <= i < t.len() ==> !is_reserved(#[trigger] t[i])
}

pub open spec fn safe_tasks(ts: Seq<TaskView>) -> bool {
    forall|k: int| 0 <= k < ts.len() ==> safe_text(#[trigger] ts[k].text)
}

/// Scanning ignores every position that does not open a bracket.
proof fn lemma_scan_skip(s: Seq<char>, i: int, j: int)
    requires
        0 <= i <= j <= s.len(),
        forall|k: int| i <= k < j ==> #[trigger] s[k] != '[',
    ensures
        scan_from(s, i) == scan_from(s, j),
    decreases j - i,
{
    if i < j {
        assert(s[i] != '[');
        lemma_scan_skip(s, i + 1, j);
    }
}

/// `run_end` stops at the first reserved character.
proof fn lemma_run_end_value(s: Seq<char>, i: int, j: int)
    requires
        0 <= i <= j < s.len(),
        forall|k: int| i <= k < j ==> !is_reserved(#[trigger] s[k]),
        is_reserved(s[j]),
    ensures
        run_end(s, i) == j,
    decreases j - i,
{
    if i < j {
        assert(!is_reserved(s[i]));
        lemma_run_end_value(s, i + 1, j);
    }
}

proof fn lemma_skip_ws_shift(a: Seq<char>, b: Seq<char>, j: int)
    requires
        0 <= j <= b.len(),
    ensures
        skip_ws(a + b, a.len() + j) == a.len() + skip_ws(b, j),
    decreases b.len() - j,
{
    if j < b.len() {
        assert((a + b)[a.len() + j] == b[j]);
        if is_space(b[j]) {
            lemma_skip_ws_shift(a, b, j + 1);
        }
    }
}

proof fn lemma_run_end_shift(a: Seq<char>, b: Seq<char>, j: int)
    requires
        0 <= j <= b.len(),
    ensures
        run_end(a + b, a.len() + j) == a.len() + run_end(b, j),
    decreases b.len() - j,
{
    if j < b.len() {
        assert((a + b)[a.len() + j] == b[j]);
        if !is_reserved(b[j]) {
            lemma_run_end_shift(a, b, j + 1);
        }
    }
}

/// A record match does not depend on what stands before the scanned suffix.
proof fn lemma_match_at_shift(a: Seq<char>, b: Seq<char>, i: int)
    requires
        0 <= i < b.len(),
        b[i] == '[',
    ensures
        match_at(a + b, a.len() + i) is Some <==> match_at(b, i) is Some,
        match_at(b, i) is Some ==> match_at(a + b, a.len() + i)->Some_0.0 == match_at(
            b,
            i,
        )->Some_0.0 && match_at(a + b, a.len() + i)->Some_0.1 == a.len() + match_at(
            b,
            i,
        )->Some_0.1,
{
    let s = a + b;
    assert forall|k: int| 0 <= k < b.len() implies s[a.len() + k] == b[k] by {}
    lemma_skip_ws_shift(a, b, i + 1);
    lemma_skip_ws_bounds(b, i + 1);
    let j1 = skip_ws(b, i + 1);
    if j1 < b.len() && b[j1] == '+' {
        lemma_skip_ws_shift(a, b, j1 + 1);
        lemma_skip_ws_bounds(b, j1 + 1);
    }
    match bracket_end(b, i) {
        None => {},
        Some(e) => {
            lemma_run_end_shift(a, b, e);
            lemma_run_end_bounds(b, e);
            let r = run_end(b, e);
            if e < r && r < b.len() && b[r] == ';' {
                assert(s.subrange(a.len() + e, a.len() + r) =~= b.subrange(e, r));
            }
        },
    }
}

/// Scanning a suffix does not depend on what stands before it.
proof fn lemma_scan_shift(a: Seq<char>, b: Seq<char>, i: int)
    requires
        0 <= i <= b.len(),
    ensures
        scan_from(a + b, a.len() + i) == scan_from(b, i),
    decreases b.len() - i,
{
    let s = a + b;
    if i < b.len() {
        assert(s[a.len() + i] == b[i]);
        if b[i] == '[' {
            lemma_match_at_shift(a, b, i);
            if match_at(b, i) is Some {
                lemma_match_at_bounds(b, i);
                let next = match_at(b, i)->Some_0.1;
                lemma_scan_shift(a, b, next);
                assert(scan_from(s, a.len() + i) =~= scan_from(b, i));
            } else {
                lemma_scan_shift(a, b, i + 1);
            }
        } else {
            lemma_scan_shift(a, b, i + 1);
        }
    }
}

/// One rendered record followed by anything scans to that record
/// followed by whatever the remainder scans to.
#[verifier::rlimit(50)]
proof fn lemma_scan_render_task(pos: int, tv: TaskView, rest: Seq<char>)
    requires
        pos >= 1,
        safe_text(tv.text),
    ensures
        ({
            let rt = render_task(pos, tv);
            scan_from(rt + rest, 0) == seq![tv] + scan_from(rt + rest, rt.len() as int)
        }),
{
    let t = tv.text;
    let d = dec_rep(pos);
    let rt = render_task(pos, tv);
    let s = rt + rest;
    crate::strings::lemma_dec_rep_digits(pos);
    let m = d.len() as int;
    assert(rt.len() == m + 8 + t.len());
    let p = m + 2;  // the '[' of the mark
    let e = m + 5;  // just after the ']'
    let r = m + 6 + t.len() as int;  // the ';'

    // the characters of the rendered record, by position
    assert forall|j: int| 0 <= j < m implies s[j] == d[j] by {}
    assert(s[m] == ')');
    assert(s[m + 1] == ' ');
    assert(s[p] == '[');
    assert(s[m + 3] == (if tv.done { '+' } else { ' ' }));
    assert(s[m + 4] == ']');
    assert(s[m + 5] == ' ');
    assert forall|j: int| 0 <= j < t.len() implies s[m + 6 + j] == t[j] by {}
    assert(s[r] == ';');
    assert(s[r + 1] == '\n');

    // nothing before the mark opens a bracket
    assert forall|j: int| 0 <= j < p implies #[trigger] s[j] != '[' by {
        if j < m {
            assert(crate::chars::is_digit(d[j]));
        }
    }
    lemma_scan_skip(s, 0, p);

    // the bracket parses, and is done exactly for a '+' mark
    if tv.done {
        assert(!is_space(s[p + 1]));
        assert(skip_ws(s, p + 1) == p + 1);
        assert(!is_space(s[p + 2]));
        assert(skip_ws(s, p + 2) == p + 2);
        assert(bracket_end(s, p) == Some(e as int));
        assert(bracket_done(s, p));
    } else {
        assert(is_space(s[p + 1]));
        assert(!is_space(s[p + 2]));
        assert(skip_ws(s, p + 2) == p + 2);
        assert(skip_ws(s, p + 1) == p + 2);
        assert(bracket_end(s, p) == Some(e as int));
        assert(!bracket_done(s, p));
    }

    // the text run reaches exactly to the ';'
    assert forall|j: int| e <= j < r implies !is_reserved(#[trigger] s[j]) by {
        if j > e {
            assert(s[j] == t[j - (m + 6)]);
        }
    }
    lemma_run_end_value(s, e, r);

    // the match recovers the text and the done flag
    assert(s.subrange(e, r) =~= seq![' '] + t);
    crate::utils::lemma_norm_space_prefix(t);
    assert(match_at(s, p) == Some((tv, r + 1)));
    assert(scan_from(s, p) == seq![tv] + scan_from(s, r + 1));

    // step over the newline to the end of the record
    assert(s[r + 1] != '[');
    lemma_scan_skip(s, r + 1, rt.len() as int);
}

/// Scanning the rendering of the tasks from position `k` on recovers
/// exactly those tasks.
proof fn lemma_scan_render_from(ts: Seq<TaskView>, k: int)
    requires
        safe_tasks(ts),
        0 <= k <= ts.len(),
    ensures
        scan_from(render_from(ts, k), 0) == ts.subrange(k, ts.len() as int),
    decreases ts.len() - k,
{
    if k == ts.len() {
        assert(scan_from(render_from(ts, k), 0) =~= ts.subrange(k, ts.len() as int));
    } else {
        let rt = render_task(k + 1, ts[k]);
        let rest = render_from(ts, k + 1);
        let s = rt + rest;
        assert(render_from(ts, k) == s);
        assert(safe_text(ts[k].text));
        lemma_scan_render_task(k + 1, ts[k], rest);
        lemma_scan_shift(rt, rest, 0);
        lemma_scan_render_from(ts, k + 1);
        assert(scan_from(s, 0) =~= ts.subrange(k, ts.len() as int));
    }
}

/// The round trip: scanning a rendered task list recovers the same
/// sequence of texts and done flags, provided every text is free of the
/// reserved characters and whitespace-normal.
pub proof fn lemma_render_roundtrip(ts: Seq<TaskView>)
    requires
        safe_tasks(ts),
    ensures
        scan(render(ts)) == ts,
{
    lemma_scan_render_from(ts, 0);
    assert(ts.subrange(0, ts.len() as int) =~= ts);
}

// ---------- executable rendering ----------

/// Renders the whole task list in the record format.
pub fn to_text(tasks: &Vec<Task>) -> (r: String)
    ensures
        r@ == render(views_of(tasks@)),
{
    let ghost vs = views_of(tasks@);
    let mut out = String::new();
    let mut k: usize = 0;
    proof {
        assert(out@ + render_from(vs, 0) =~= render(vs));
    }
    while k < tasks.len()
        invariant
            0 <= k <= tasks@.len(),
            vs == views_of(tasks@),
            vs.len() == tasks@.len(),
            out@ + render_from(vs, k as int) == render(vs),
        decreases tasks@.len() - k,
    {
        let ghost before = out@;
        push_dec(&mut out, k + 1);
        out.append(") ");
        if tasks[k].is_done {
            out.append("[+] ");
        } else {
            out.append("[ ] ");
        }
        out.append(tasks[k].text.as_str());
        out.append(";\n");
        proof {
            reveal_strlit(") ");
            reveal_strlit("[+] ");
            reveal_strlit("[ ] ");
            reveal_strlit(";\n");
            assert(") "@ =~= seq![')', ' ']);
            assert("[+] "@ =~= seq!['[', '+', ']', ' ']);
            assert("[ ] "@ =~= seq!['[', ' ', ']', ' ']);
            assert(";\n"@ =~= seq![';', '\n']);
            assert(vs[k as int] == tasks@[k as int]@);
            assert(out@ =~= before + render_task(k + 1, vs[k as int]));
            assert(out@ + render_from(vs, k + 1) =~= render(vs));
        }
        k = k + 1;
    }
    proof {
        assert(render_from(vs, vs.len() as int) =~= Seq::<char>::empty());
        assert(out@ =~= render(vs));
    }
    out
}

// ---------- executable scanning ----------

/// Advances over whitespace, mirroring `skip_ws`.
fn skip_ws_exec(s: &str, i: usize, len: usize) -> (r: usize)
    requires
        i <= len,
        len == s@.len(),
    ensures
        r == skip_ws(s@, i as int),
        i <= r <= len,
{
    let mut j = i;
    while j < len
        invariant
            i <= j <= len,
            len == s@.len(),
            skip_ws(s@, i as int) == skip_ws(s@, j as int),
        decreases len - j,
    {
        if !space_char(s.get_char(j)) {
            return j;
        }
        j = j + 1;
    }
    j
}

/// Advances over text-run characters, mirroring `run_end`.
fn run_end_exec(s: &str, i: usize, len: usize) -> (r: usize)
    requires
        i <= len,
        len == s@.len(),
    ensures
        r == run_end(s@, i as int),
        i <= r <= len,
{
    let mut j = i;
    while j < len
        invariant
            i <= j <= len,
            len == s@.len(),
            run_end(s@, i as int) == run_end(s@, j as int),
        decreases len - j,
    {
        if reserved_char(s.get_char(j)) {
            return j;
        }
        j = j + 1;
    }
    j
}

/// Tries to read one record at the bracket at `i`, mirroring `match_at`.
fn try_match(s: &str, i: usize, len: usize) -> (r: Option<(String, bool, usize)>)
    requires
        i < len,
        len == s@.len(),
        s@[i as int] == '[',
    ensures
        r is Some <==> match_at(s@, i as int) is Some,
        r is Some ==> {
            let (text, done, next) = r->Some_0;
            &&& match_at(s@, i as int)->Some_0.0 == (TaskView { text: text@, done })
            &&& match_at(s@, i as int)->Some_0.1 == next as int
            &&& i < next <= len
        },
{
    let j1 = skip_ws_exec(s, i + 1, len);
    let e: usize;
    let done: bool;
    if j1 < len && s.get_char(j1) == '+' {
        let j2 = skip_ws_exec(s, j1 + 1, len);
        if j2 < len && s.get_char(j2) == ']' {
            e = j2 + 1;
            done = j1 == i + 1 && j2 == i + 2;
            proof {
                lemma_skip_ws_bounds(s@, i + 1);
                lemma_skip_ws_bounds(s@, j1 + 1);
                assert(done == bracket_done(s@, i as int));
            }
        } else {
            return None;
        }
    } else if j1 < len && s.get_char(j1) == ']' {
        e = j1 + 1;
        done = false;
        proof {
            lemma_skip_ws_bounds(s@, i + 1);
            assert(!bracket_done(s@, i as int));
        }
    } else {
        return None;
    }
    let r = run_end_exec(s, e, len);
    if e < r && r < len && s.get_char(r) == ';' {
        let run = s.substring_char(e, r);
        let text = trim_str(run);
        Some((text, done, r + 1))
    } else {
        None
    }
}

/// Collects every record of `text`, left to right.  Fails when the input
/// holds no record at all.
pub fn from_text(text: &str) -> (r: Result<Vec<Task>, ()>)
    ensures
        r is Ok <==> scan(text@).len() > 0,
        r is Ok ==> views_of(r->Ok_0@) == scan(text@),
{
    let len = text.unicode_len();
    let mut result: Vec<Task> = Vec::new();
    let mut i: usize = 0;
    proof {
        assert(views_of(result@) + scan_from(text@, 0) =~= scan(text@));
    }
    while i < len
        invariant
            0 <= i <= len,
            len == text@.len(),
            views_of(result@) + scan_from(text@, i as int) == scan(text@),
        decreases len - i,
    {
        let c = text.get_char(i);
        if c == '[' {
            match try_match(text, i, len) {
                Some((task_text, done, next)) => {
                    let ghost prev = result@;
                    result.push(Task { text: task_text, is_done: done });
                    proof {
                        assert(views_of(result@) =~= views_of(prev).push(
                            TaskView { text: task_text@, done },
                        ));
                        assert(views_of(result@) + scan_from(text@, next as int) =~= scan(
                            text@,
                        ));
                    }
                    i = next;
                },
                None => {
                    i = i + 1;
                },
            }
        } else {
            i = i + 1;
        }
    }
    proof {
        assert(scan_from(text@, len as int) =~= Seq::<TaskView>::empty());
        assert(views_of(result@) =~= scan(text@));
    }
    if result.len() == 0 {
        proof {
            assert(views_of(result@).len() == 0);
        }
        Err(())
    } else {
        proof {
            assert(views_of(result@).len() == result@.len());
        }
        Ok(result)
    }
}

} // verus!
