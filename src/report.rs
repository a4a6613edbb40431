use vstd::prelude::*;
use crate::coordinator::{text_opt, TestState, TestStatus};
use crate::scoring::{details_view, records_of, PhaseRecord, PhaseResult};
use crate::text::{decimal, duration_text, push_decimal};

verus! {

/// `s` written `n` times.
pub open spec fn repeat(s: Seq<char>, n: nat) -> Seq<char>
    decreases n,
{
    if n == 0 {
        Seq::empty()
    } else {
        repeat(s, (n - 1) as nat) + s
    }
}

fn push_repeat(out: &mut String, s: &str, n: usize)
    ensures
        final(out)@ == old(out)@ + repeat(s@, n as nat),
{
    let mut i: usize = 0;
    while i < n
        invariant
            i <= n,
            out@ == old(out)@ + repeat(s@, i as nat),
        decreases n - i,
    {
        out.append(s);
        i = i + 1;
        assert(out@ =~= old(out)@ + repeat(s@, i as nat));
    }
}

/// A bar of `width` cells for `progress` percent (at most 100): full cells for the
/// share done, rounded down, and empty cells for the rest.
pub open spec fn progress_bar_text(progress: nat, width: nat) -> Seq<char> {
    let p = if progress > 100 {
        100
    } else {
        progress
    };
    let filled = p * width / 100;
    "["@ + repeat("█"@, filled) + repeat("░"@, (width - filled) as nat) + "]"@
}

pub fn progress_bar(progress: u8, width: u16) -> (r: String)
    ensures
        r@ == progress_bar_text(progress as nat, width as nat),
{
    let p: u32 = if progress > 100 {
        100
    } else {
        progress as u32
    };
    assert(p * width as u32 <= 100 * 65535) by (nonlinear_arith)
        requires
            p <= 100,
            width <= 65535,
    ;
    let filled = p * width as u32 / 100;
    assert(filled <= width) by (nonlinear_arith)
        requires
            filled == p * width as u32 / 100,
            p <= 100,
    ;
    let mut s = "[".to_owned();
    push_repeat(&mut s, "█", filled as usize);
    push_repeat(&mut s, "░", (width as u32 - filled) as usize);
    s.append("]");
    assert(s@ =~= progress_bar_text(progress as nat, width as nat));
    s
}

/// The spinner glyph of animation frame `f`.
pub open spec fn spinner(f: u8) -> Seq<char> {
    let k = f % 8;
    if k == 0 {
        "⠋"@
    } else if k == 1 {
        "⠙"@
    } else if k == 2 {
        "⠹"@
    } else if k == 3 {
        "⠸"@
    } else if k == 4 {
        "⠼"@
    } else if k == 5 {
        "⠴"@
    } else if k == 6 {
        "⠦"@
    } else {
        "⠧"@
    }
}

fn spinner_glyph(f: u8) -> (r: &'static str)
    ensures
        r@ == spinner(f),
{
    let k = f % 8;
    if k == 0 {
        "⠋"
    } else if k == 1 {
        "⠙"
    } else if k == 2 {
        "⠹"
    } else if k == 3 {
        "⠸"
    } else if k == 4 {
        "⠼"
    } else if k == 5 {
        "⠴"
    } else if k == 6 {
        "⠦"
    } else {
        "⠧"
    }
}

/// The indented "key: value" lines of a result's details.
pub open spec fn details_text(d: Seq<(Seq<char>, Seq<char>)>) -> Seq<char>
    decreases d.len(),
{
    if d.len() == 0 {
        Seq::empty()
    } else {
        details_text(d.drop_last()) + "    "@ + d.last().0 + ": "@ + d.last().1 + "\n"@
    }
}

/// One line per result ("name: primary | secondary | Nms"), each followed by its details.
pub open spec fn results_text(rs: Seq<PhaseRecord>) -> Seq<char>
    decreases rs.len(),
{
    if rs.len() == 0 {
        Seq::empty()
    } else {
        let r = rs.last();
        results_text(rs.drop_last()) + r.name + ": "@ + decimal(r.primary as nat) + " | "@ + decimal(
            r.secondary as nat,
        ) + " | "@ + decimal(r.duration_ms as nat) + "ms\n"@ + details_text(r.details)
    }
}

pub open spec fn elapsed_line(started: Option<u64>, now_ms: u64) -> Seq<char> {
    match started {
        Some(t) => "已用时间: "@ + duration_text(
            (if now_ms >= t {
                (now_ms - t) as nat
            } else {
                0nat
            }) / 1000,
        ) + "\n"@,
        None => Seq::empty(),
    }
}

pub open spec fn estimate_line(s: TestState) -> Seq<char> {
    if s.running_primary_estimate > 0 {
        "预估分数: "@ + decimal(s.running_primary_estimate as nat) + " / "@ + decimal(
            s.running_secondary_estimate as nat,
        ) + "\n"@
    } else {
        Seq::empty()
    }
}

/// The page of a run in progress: spinner, phase, phases done, percent, bar,
/// elapsed time and the running estimate once there is one.
pub open spec fn running_text(s: TestState, now_ms: u64) -> Seq<char> {
    spinner(s.animation_frame) + " "@ + s.current_phase_name@ + " ("@ + decimal(
        s.completed_phases as nat,
    ) + "/"@ + decimal(s.total_phases as nat) + ")\n进度: "@ + decimal(s.progress as nat) + "%\n"@
        + progress_bar_text(s.progress as nat, 40) + "\n"@ + elapsed_line(s.started_at_ms, now_ms)
        + estimate_line(s)
}

pub open spec fn failed_text(s: TestState) -> Seq<char> {
    "错误: "@ + (match text_opt(s.error) {
        Some(e) => e,
        None => Seq::empty(),
    }) + "\n"@
}

/// What the test page shows for `s` at time `now_ms`, under the heading `title`.
pub open spec fn state_text(title: Seq<char>, s: TestState, now_ms: u64) -> Seq<char> {
    let body = match s.status {
        TestStatus::Idle => "准备开始测试...\n"@,
        TestStatus::Running => running_text(s, now_ms),
        TestStatus::Completed => "测试完成！\n\n"@ + results_text(records_of(s.results@)),
        TestStatus::Failed => failed_text(s),
    };
    "=== "@ + title + " ===\n\n"@ + body
}

fn push_elapsed(out: &mut String, started: Option<u64>, now_ms: u64)
    ensures
        final(out)@ == old(out)@ + elapsed_line(started, now_ms),
{
    match started {
        Some(t) => {
            let elapsed = if now_ms >= t {
                now_ms - t
            } else {
                0
            };
            out.append("已用时间: ");
            let d = crate::text::format_duration(elapsed / 1000);
            out.append(d.as_str());
            out.append("\n");
            assert(final(out)@ =~= old(out)@ + elapsed_line(started, now_ms));
        },
        None => {
            assert(out@ =~= old(out)@ + elapsed_line(started, now_ms));
        },
    }
}

fn push_estimate(out: &mut String, s: &TestState)
    ensures
        final(out)@ == old(out)@ + estimate_line(*s),
{
    if s.running_primary_estimate > 0 {
        out.append("预估分数: ");
        push_decimal(out, s.running_primary_estimate as u64);
        out.append(" / ");
        push_decimal(out, s.running_secondary_estimate as u64);
        out.append("\n");
        assert(final(out)@ =~= old(out)@ + estimate_line(*s));
    } else {
        assert(out@ =~= old(out)@ + estimate_line(*s));
    }
}

fn push_running(out: &mut String, s: &TestState, now_ms: u64)
    ensures
        final(out)@ == old(out)@ + running_text(*s, now_ms),
{
    out.append(spinner_glyph(s.animation_frame));
    out.append(" ");
    out.append(s.current_phase_name.as_str());
    out.append(" (");
    push_decimal(out, s.completed_phases as u64);
    out.append("/");
    push_decimal(out, s.total_phases as u64);
    out.append(")\n进度: ");
    push_decimal(out, s.progress as u64);
    out.append("%\n");
    let bar = progress_bar(s.progress, 40);
    out.append(bar.as_str());
    out.append("\n");
    push_elapsed(out, s.started_at_ms, now_ms);
    push_estimate(out, s);
    assert(final(out)@ =~= old(out)@ + running_text(*s, now_ms));
}

fn push_failed(out: &mut String, s: &TestState)
    ensures
        final(out)@ == old(out)@ + failed_text(*s),
{
    out.append("错误: ");
    match &s.error {
        Some(e) => out.append(e.as_str()),
        None => {},
    }
    out.append("\n");
    assert(final(out)@ =~= old(out)@ + failed_text(*s));
}

fn push_details(out: &mut String, d: &Vec<(String, String)>)
    ensures
        final(out)@ == old(out)@ + details_text(details_view(d@)),
{
    let mut i: usize = 0;
    while i < d.len()
        invariant
            i <= d.len(),
            out@ == old(out)@ + details_text(details_view(d@.take(i as int))),
        decreases d.len() - i,
    {
        proof {
            let v = details_view(d@.take(i + 1));
            assert(v.drop_last() =~= details_view(d@.take(i as int)));
            assert(v.last() == (d@[i as int].0@, d@[i as int].1@));
        }
        out.append("    ");
        out.append(d[i].0.as_str());
        out.append(": ");
        out.append(d[i].1.as_str());
        out.append("\n");
        i = i + 1;
        assert(out@ =~= old(out)@ + details_text(details_view(d@.take(i as int))));
    }
    assert(d@.take(d.len() as int) =~= d@);
}

fn push_results(out: &mut String, rs: &Vec<PhaseResult>)
    ensures
        final(out)@ == old(out)@ + results_text(records_of(rs@)),
{
    let mut i: usize = 0;
    while i < rs.len()
        invariant
            i <= rs.len(),
            out@ == old(out)@ + results_text(records_of(rs@.take(i as int))),
        decreases rs.len() - i,
    {
        let ghost before = out@;
        proof {
            let v = records_of(rs@.take(i + 1));
            assert(v.drop_last() =~= records_of(rs@.take(i as int)));
            assert(v.last() == rs@[i as int]@);
        }
        let r = &rs[i];
        out.append(r.name.as_str());
        out.append(": ");
        push_decimal(out, r.primary_score as u64);
        out.append(" | ");
        push_decimal(out, r.secondary_score as u64);
        out.append(" | ");
        push_decimal(out, r.duration_ms);
        out.append("ms\n");
        push_details(out, &r.details);
        i = i + 1;
        assert(out@ =~= old(out)@ + results_text(records_of(rs@.take(i as int))));
    }
    assert(rs@.take(rs.len() as int) =~= rs@);
}

/// The test page for `state` (see `state_text`).
pub fn format_test_info(title: &str, state: &TestState, now_ms: u64) -> (r: String)
    ensures
        r@ == state_text(title@, *state, now_ms),
{
    let mut out = "=== ".to_owned();
    out.append(title);
    out.append(" ===\n\n");
    match state.status {
        TestStatus::Idle => {
            out.append("准备开始测试...\n");
        },
        TestStatus::Running => {
            push_running(&mut out, state, now_ms);
        },
        TestStatus::Completed => {
            out.append("测试完成！\n\n");
            push_results(&mut out, &state.results);
        },
        TestStatus::Failed => {
            push_failed(&mut out, state);
        },
    }
    assert(out@ =~= state_text(title@, *state, now_ms));
    out
}

} // verus!
