//! What the command line tool says about tasks and chains.

use vstd::prelude::*;

use crate::text;
use crate::worker::error::Error;
use crate::worker::result::{ChainRunResult, ChainStepResult};
use crate::worker::MAX_BATCH_TASKS;

verus! {

/// The message for a task that failed.
pub fn format_task_error(task_name: &str, err: &Error) -> (r: String)
    ensures
        r@ == "Failed to execute "@ + task_name@ + ": "@ + err.text(),
{
    let reason = err.describe();
    text::cat4("Failed to execute ", task_name, ": ", reason.as_str())
}

/// Checks how many tasks are to run at a time.
pub fn check_batch_size(count: usize) -> (r: Result<(), String>)
    ensures
        judges_size(r, count as nat),
        match r {
            Ok(_) => count <= MAX_BATCH_TASKS,
            Err(message) => count > MAX_BATCH_TASKS && message@
                == "--batch supports up to 4 tasks, but "@ + text::decimal(count as nat)
                + " were provided"@,
        },
{
    if count > MAX_BATCH_TASKS {
        let n = text::number(count as u64);
        return Err(text::cat3("--batch supports up to 4 tasks, but ", n.as_str(), " were provided"));
    }
    Ok(())
}

/// The name that a step of a chain is shown with.
pub open spec fn step_name(step: ChainStepResult) -> Seq<char> {
    match step.task_name {
        Some(name) => name@,
        None => step.task_dir@,
    }
}

/// The lines for the step at position `i` of a chain.
pub open spec fn step_lines(step: ChainStepResult, i: nat) -> Seq<char> {
    "  step "@ + text::decimal(i + 1) + ": "@ + step_name(step) + " ("@ + step.task_dir@ + ")\n"@ + (
    if step.handoff_artifacts@.len() == 0 {
        seq![]
    } else {
        "    handoff artifacts: "@ + text::joined(text::views(step.handoff_artifacts@), ", "@)
            + "\n"@
    })
}

/// The lines for the steps of a chain.
pub open spec fn chain_lines(steps: Seq<ChainStepResult>) -> Seq<char>
    decreases steps.len(),
{
    if steps.len() == 0 {
        seq![]
    } else {
        chain_lines(steps.drop_last()) + step_lines(steps.last(), (steps.len() - 1) as nat)
    }
}

fn append_step(out: &mut String, step: &ChainStepResult, i: usize)
    requires
        i < usize::MAX,
    ensures
        final(out)@ == old(out)@ + step_lines(*step, i as nat),
{
    let n = text::number((i + 1) as u64);
    let name = match &step.task_name {
        Some(name) => name.as_str(),
        None => step.task_dir.as_str(),
    };
    let line = text::cat7(
        "  step ",
        n.as_str(),
        ": ",
        name,
        " (",
        step.task_dir.as_str(),
        ")\n",
    );
    out.append(line.as_str());
    if step.handoff_artifacts.len() > 0 {
        let list = text::join(&step.handoff_artifacts, ", ");
        let line = text::cat3("    handoff artifacts: ", list.as_str(), "\n");
        out.append(line.as_str());
    }
    assert(out@ =~= old(out)@ + step_lines(*step, i as nat));
}

/// Renders the steps of a finished chain.
pub fn print_chain_steps(chain: &ChainRunResult) -> (r: String)
    ensures
        r@ == chain_lines(chain.steps@),
{
    let mut out = String::new();
    let total: usize = chain.steps.len();
    let mut i: usize = 0;
    while i < total
        invariant
            i <= total,
            total == chain.steps@.len(),
            out@ == chain_lines(chain.steps@.take(i as int)),
        decreases total - i,
    {
        append_step(&mut out, &chain.steps[i], i);
        proof {
            assert(chain.steps@.take(i + 1).drop_last() =~= chain.steps@.take(i as int));
        }
        i = i + 1;
    }
    assert(chain.steps@.take(i as int) =~= chain.steps@);
    out
}

/// The line that tells that a task is done, and where its chain left its output.
pub fn done_line(task_path: &str, chain: &ChainRunResult) -> (r: String)
    ensures
        r@ == (if chain.steps@.len() == 0 {
            "[done]  "@ + task_path@
        } else {
            "[done]  "@ + task_path@ + " -> "@ + chain.steps@.last().run_result.output_dir@
        }),
{
    let n: usize = chain.steps.len();
    if n == 0 {
        return text::cat2("[done]  ", task_path);
    }
    text::cat4("[done]  ", task_path, " -> ", chain.steps[n - 1].run_result.output_dir.as_str())
}

/// Every step of a chain is printed with its number, counted from 1, its name, or else its
/// directory, and its directory; and with what it handed on exactly if it handed on anything.
pub proof fn law_every_step_is_printed(steps: Seq<ChainStepResult>, i: int)
    requires
        0 <= i < steps.len(),
    ensures
        ({
            let step = steps[i];
            let name = if step.task_name is Some {
                step.task_name->0@
            } else {
                step.task_dir@
            };
            let head = "  step "@ + text::decimal((i + 1) as nat) + ": "@ + name + " ("@
                + step.task_dir@ + ")\n"@;
            &&& text::occurs_in(head, chain_lines(steps))
            &&& step.handoff_artifacts@.len() > 0 ==> text::occurs_in(
                head + ("    handoff artifacts: "@ + text::joined(
                    text::views(step.handoff_artifacts@),
                    ", "@,
                ) + "\n"@),
                chain_lines(steps),
            )
            &&& step.handoff_artifacts@.len() == 0 ==> step_lines(step, i as nat) == head
        }),
    decreases steps.len(),
{
    let step = steps[i];
    let name = if step.task_name is Some {
        step.task_name->0@
    } else {
        step.task_dir@
    };
    let head = "  step "@ + text::decimal((i + 1) as nat) + ": "@ + name + " ("@ + step.task_dir@
        + ")\n"@;
    let more = "    handoff artifacts: "@ + text::joined(
        text::views(step.handoff_artifacts@),
        ", "@,
    ) + "\n"@;
    let before = chain_lines(steps.drop_last());
    let last = step_lines(steps.last(), (steps.len() - 1) as nat);
    let whole = chain_lines(steps);
    assert(whole =~= before + last);
    if i == steps.len() - 1 {
        if step.handoff_artifacts@.len() == 0 {
            assert(last =~= head);
            text::lemma_occurs_between(before, head, seq![]);
            assert(before + head + seq![] =~= whole);
        } else {
            assert(last =~= head + more);
            text::lemma_occurs_between(before, head, more);
            assert(before + head + more =~= whole);
            text::lemma_occurs_between(before, head + more, seq![]);
            assert(before + (head + more) + seq![] =~= whole);
        }
    } else {
        law_every_step_is_printed(steps.drop_last(), i);
        text::lemma_occurs_within(seq![], head, before, last);
        assert(seq![] + before + last =~= whole);
        if step.handoff_artifacts@.len() > 0 {
            text::lemma_occurs_within(seq![], head + more, before, last);
        } else {
            assert(step_lines(step, i as nat) =~= head);
        }
    }
}

/// Whether `r` is what a number of tasks that are to run at a time is judged as.
pub open spec fn judges_size(r: Result<(), String>, count: nat) -> bool {
    match r {
        Ok(_) => count <= MAX_BATCH_TASKS,
        Err(message) => count > MAX_BATCH_TASKS && message@
            == "--batch supports up to 4 tasks, but "@ + text::decimal(count) + " were provided"@,
    }
}

/// Up to four tasks can run at a time. The message for more of them tells how many can, and how
/// many were asked for.
pub proof fn law_four_tasks_at_a_time(r: Result<(), String>, count: nat)
    requires
        judges_size(r, count),
    ensures
        r is Ok <==> count <= 4,
        r matches Err(message) ==> ("--batch supports up to "@ + text::decimal(
            MAX_BATCH_TASKS as nat,
        ) + " tasks, but "@ + text::decimal(count)).is_prefix_of(message@),
{
    if let Err(message) = r {
        reveal_strlit("--batch supports up to ");
        reveal_strlit(" tasks, but ");
        reveal_strlit("--batch supports up to 4 tasks, but ");
        let head = "--batch supports up to "@ + text::decimal(MAX_BATCH_TASKS as nat)
            + " tasks, but "@ + text::decimal(count);
        assert(text::decimal(4) =~= seq!['4']);
        assert(head =~= "--batch supports up to 4 tasks, but "@ + text::decimal(count));
        assert(head =~= message@.subrange(0, head.len() as int));
    }
}

} // verus!
