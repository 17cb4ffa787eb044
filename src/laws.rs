//! What holds of every run of the step runner, stated over the specifications
//! that `next_action`, `record_install`, `setup` and `reset` are verified
//! against.

use vstd::prelude::*;
use crate::progress::{start, stored_or_start, Checkpoint};
use crate::projects::{after_install, names_tool, settle, Action, SetupError};

verus! {

/// The stored checkpoint and the outcome after the tools of a run report
/// `results`, one by one, starting from outcome `out` with `stored` in the
/// store: each result goes through `record_install`; the run stops at the first
/// outcome that is not an install.
pub open spec fn run_tools(
    counts: Seq<nat>,
    stored: Checkpoint,
    out: Result<Action, SetupError>,
    results: Seq<Result<bool, String>>,
) -> (Checkpoint, Result<Action, SetupError>)
    decreases results.len(),
{
    if results.len() == 0 {
        (stored, out)
    } else {
        match out {
            Ok(Action::Install(at)) => {
                if names_tool(counts, at) {
                    let (written, next) = after_install(counts, at, results[0]);
                    let now = match written {
                        Some(c) => c,
                        None => stored,
                    };
                    run_tools(counts, now, next, results.drop_first())
                } else {
                    (stored, out)
                }
            },
            _ => (stored, out),
        }
    }
}

/// Every step has fewer than `usize::MAX` tools and there are fewer than
/// `usize::MAX` steps, as for any configuration held in memory.
pub open spec fn fits(counts: Seq<nat>) -> bool {
    &&& counts.len() < usize::MAX
    &&& forall|i: int| 0 <= i < counts.len() ==> #[trigger] counts[i] < usize::MAX
}

/// On a store holding `rows`, `get_or_create_project` for a name not stored
/// yet adds a project without a progress record, and `get_project_progress` then
/// reads `(0, 0, 0)` for it (and stores that).
pub proof fn law_new_project_starts_at_zero(rows: Seq<Option<Checkpoint>>)
    ensures
        stored_or_start(rows.push(None)[rows.len() as int]) == (Checkpoint {
            step: 0,
            tool: 0,
            tool_step: 0,
        }),
{
}

/// A tool at `(s, t)` that pauses when run with sub-step `k` leaves
/// `(s, t, k + 1)` stored, and the next run invokes that same tool with
/// sub-step `k + 1`, not the tool after it.
pub proof fn law_pause_resumes_same_tool(counts: Seq<nat>, at: Checkpoint)
    requires
        names_tool(counts, at),
    ensures
        ({
            let c = Checkpoint { step: at.step, tool: at.tool, tool_step: (at.tool_step + 1) as usize };
            &&& after_install(counts, at, Ok(true)) == (Some(c), Ok::<Action, SetupError>(Action::Paused(c)))
            &&& settle(counts, c) == (c, Ok::<Action, SetupError>(Action::Install(c)))
        }),
{
}

/// Running the tools of step `s` from `(s, t, k)` on, each completing without
/// a pause, leaves the run exactly where a run from `(s + 1, 0, 0)` goes.
pub proof fn lemma_rest_of_step(
    counts: Seq<nat>,
    s: usize,
    t: usize,
    k: usize,
    results: Seq<Result<bool, String>>,
)
    requires
        fits(counts),
        s < counts.len(),
        t < counts[s as int],
        k < usize::MAX,
        results.len() == counts[s as int] - t,
        forall|i: int| 0 <= i < results.len() ==> #[trigger] results[i] == Ok::<bool, String>(false),
    ensures
        run_tools(
            counts,
            Checkpoint { step: s, tool: t, tool_step: k },
            Ok(Action::Install(Checkpoint { step: s, tool: t, tool_step: k })),
            results,
        ) == settle(counts, Checkpoint { step: (s + 1) as usize, tool: 0, tool_step: 0 }),
    decreases counts[s as int] - t,
{
    let at = Checkpoint { step: s, tool: t, tool_step: k };
    assert(counts[s as int] < usize::MAX);
    assert(results[0] == Ok::<bool, String>(false));
    let next = Checkpoint { step: s, tool: (t + 1) as usize, tool_step: 0 };
    assert(names_tool(counts, at));
    assert(after_install(counts, at, results[0]) == (Some(settle(counts, next).0), settle(counts, next).1));
    assert(run_tools(counts, at, Ok(Action::Install(at)), results) == run_tools(
        counts,
        settle(counts, next).0,
        settle(counts, next).1,
        results.drop_first(),
    ));
    if t + 1 < counts[s as int] {
        assert(settle(counts, next) == (next, Ok::<Action, SetupError>(Action::Install(next))));
        let rest = results.drop_first();
        assert forall|i: int| 0 <= i < rest.len() implies #[trigger] rest[i] == Ok::<bool, String>(false) by {
            assert(rest[i] == results[i + 1]);
        }
        lemma_rest_of_step(counts, s, (t + 1) as usize, 0, rest);
    } else {
        assert(settle(counts, next) == settle(counts, Checkpoint { step: (s + 1) as usize, tool: 0, tool_step: 0 }));
        assert(results.drop_first().len() == 0);
    }
}

/// When every tool of step `s` completes without a pause, the progress after
/// the step is `(s + 1, 0, 0)`: the run goes on exactly as one resumed from
/// `(s + 1, 0, 0)`, and where step `s + 1` has tools that is what stays stored
/// when its first tool is invoked.
pub proof fn law_completed_step_advances(
    counts: Seq<nat>,
    s: usize,
    k: usize,
    results: Seq<Result<bool, String>>,
)
    requires
        fits(counts),
        s < counts.len(),
        0 < counts[s as int],
        k < usize::MAX,
        results.len() == counts[s as int],
        forall|i: int| 0 <= i < results.len() ==> #[trigger] results[i] == Ok::<bool, String>(false),
    ensures
        ({
            let first = Checkpoint { step: s, tool: 0, tool_step: k };
            let next = Checkpoint { step: (s + 1) as usize, tool: 0, tool_step: 0 };
            &&& run_tools(counts, first, Ok(Action::Install(first)), results) == settle(counts, next)
            &&& (s + 1 < counts.len() && 0 < counts[s + 1]) ==> run_tools(
                counts,
                first,
                Ok(Action::Install(first)),
                results,
            ) == (next, Ok::<Action, SetupError>(Action::Install(next)))
        }),
{
    lemma_rest_of_step(counts, s, 0, k, results);
}

/// Completing the tools of the last step resets the progress to `(0, 0, 0)`
/// and finishes the run.
pub proof fn law_last_step_resets(counts: Seq<nat>, k: usize, results: Seq<Result<bool, String>>)
    requires
        fits(counts),
        0 < counts.len(),
        0 < counts.last(),
        k < usize::MAX,
        results.len() == counts.last(),
        forall|i: int| 0 <= i < results.len() ==> #[trigger] results[i] == Ok::<bool, String>(false),
    ensures
        ({
            let first = Checkpoint { step: (counts.len() - 1) as usize, tool: 0, tool_step: k };
            run_tools(counts, first, Ok(Action::Install(first)), results) == (
                start(),
                Ok::<Action, SetupError>(Action::Finished),
            )
        }),
{
    let s = (counts.len() - 1) as usize;
    lemma_rest_of_step(counts, s, 0, k, results);
}

/// A project whose run has completed (stored at `(len(steps), 0, 0)` or reset
/// to the start afterwards) is set up again from the beginning: exactly as a
/// project that was never set up.
pub proof fn law_completed_project_starts_over(counts: Seq<nat>, tool_step: usize)
    requires
        fits(counts),
    ensures
        ({
            let done = Checkpoint { step: counts.len() as usize, tool: 0, tool_step };
            &&& settle(counts, done) == (start(), Ok::<Action, SetupError>(Action::Finished))
            &&& settle(counts, settle(counts, done).0) == settle(counts, stored_or_start(None))
        }),
{
}

/// Set up again right after step `s` completed without a pause, a project
/// resumes at `(s + 1, 0, 0)`.
pub proof fn law_rerun_resumes_after_completed_step(counts: Seq<nat>, s: usize)
    requires
        fits(counts),
        s + 1 < counts.len(),
        0 < counts[s + 1],
    ensures
        ({
            let next = Checkpoint { step: (s + 1) as usize, tool: 0, tool_step: 0 };
            settle(counts, next) == (next, Ok::<Action, SetupError>(Action::Install(next)))
        }),
{
}

/// A failing tool writes no checkpoint, ends the run with the tool's message,
/// and the next run invokes that same tool with the sub-step that was in effect.
pub proof fn law_failed_tool_is_retried(counts: Seq<nat>, at: Checkpoint, message: String)
    requires
        names_tool(counts, at),
    ensures
        after_install(counts, at, Err(message)) == (
            None::<Checkpoint>,
            Err::<Action, SetupError>(
                SetupError::ToolInstall { step: at.step, tool: at.tool, message },
            ),
        ),
        settle(counts, at) == (at, Ok::<Action, SetupError>(Action::Install(at))),
{
}

/// `a` comes no later than `b` in the order `(step, tool, tool_step)`.
pub open spec fn no_later(a: Checkpoint, b: Checkpoint) -> bool {
    a.step < b.step || (a.step == b.step && (a.tool < b.tool || (a.tool == b.tool && a.tool_step
        <= b.tool_step)))
}

/// Going on from `c` stores a position no earlier than `c`, but for the reset to
/// the start when the run finishes.
pub proof fn lemma_settle_forward(counts: Seq<nat>, c: Checkpoint)
    ensures
        no_later(c, settle(counts, c).0) || (settle(counts, c).0 == start() && settle(
            counts,
            c,
        ).1 == Ok::<Action, SetupError>(Action::Finished)),
    decreases counts.len() - c.step,
{
    if c.step < counts.len() && c.tool >= counts[c.step as int] && c.tool <= counts[c.step as int]
        && c.step != usize::MAX {
        lemma_settle_forward(counts, Checkpoint { step: (c.step + 1) as usize, tool: 0, tool_step: 0 });
    }
}

/// Across runs, the stored position of a project only moves forward in the
/// order `(step, tool, tool_step)`: each checkpoint written after a tool
/// reports comes strictly after the tool's own position, except the reset to
/// `(0, 0, 0)` when the last step completes.
pub proof fn law_progress_moves_forward(counts: Seq<nat>, at: Checkpoint, result: Result<bool, String>)
    requires
        fits(counts),
        names_tool(counts, at),
    ensures
        after_install(counts, at, result).0 matches Some(c) ==> (no_later(at, c) && c != at) || (c
            == start() && after_install(counts, at, result).1 == Ok::<Action, SetupError>(
            Action::Finished,
        )),
{
    match result {
        Ok(false) => {
            let next = Checkpoint { step: at.step, tool: (at.tool + 1) as usize, tool_step: 0 };
            assert(counts[at.step as int] < usize::MAX);
            lemma_settle_forward(counts, next);
        },
        _ => {},
    }
}

} // verus!
