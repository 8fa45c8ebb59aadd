//! What the batch tool says about its tasks.

use vstd::prelude::*;

use crate::batch::error::Error;
use crate::text;

verus! {

/// How many tasks run at a time.
pub const MAX_CONCURRENT_TASKS: usize = 4;

/// The message for a task that failed.
pub fn format_task_error(task_name: &str, err: &Error) -> (r: String)
    ensures
        r@ == "Failed to execute "@ + task_name@ + ": "@ + err.text(),
{
    let reason = err.describe();
    text::cat4("Failed to execute ", task_name, ": ", reason.as_str())
}

/// Checks how many tasks are to run at a time.
pub fn check_concurrent_size(count: usize) -> (r: Result<(), String>)
    ensures
        judges_size(r, count as nat),
        match r {
            Ok(_) => count <= MAX_CONCURRENT_TASKS,
            Err(message) => count > MAX_CONCURRENT_TASKS && message@
                == "--concurrent supports up to 4 tasks, but "@ + text::decimal(count as nat)
                + " were provided"@,
        },
{
    if count > MAX_CONCURRENT_TASKS {
        let n = text::number(count as u64);
        return Err(
            text::cat3("--concurrent supports up to 4 tasks, but ", n.as_str(), " were provided"),
        );
    }
    Ok(())
}

/// The name of the task at position `idx`, where tasks run one after the other.
pub open spec fn task_label(name: Option<Seq<char>>, idx: nat) -> Seq<char> {
    match name {
        Some(n) => n,
        None => "task-"@ + text::decimal(idx + 1),
    }
}

pub fn task_name(name: &Option<String>, idx: usize) -> (r: String)
    requires
        idx < usize::MAX,
    ensures
        r@ == task_label(text::opt_view(*name), idx as nat),
{
    match name {
        Some(n) => n.clone(),
        None => {
            let n = text::number((idx + 1) as u64);
            text::cat2("task-", n.as_str())
        },
    }
}

/// The line that tells that a task is started.
pub fn running_line(task_name: &str, description: &Option<String>, task_path: &str) -> (r: String)
    ensures
        r@ == (match *description {
            Some(d) => "Running task: "@ + task_name@ + " — "@ + d@,
            None => "Running task: "@ + task_name@ + " ("@ + task_path@ + ")"@,
        }),
{
    match description {
        Some(d) => text::cat4("Running task: ", task_name, " — ", d.as_str()),
        None => text::cat5("Running task: ", task_name, " (", task_path, ")"),
    }
}

/// Tasks without a name are counted from 1, so that no two of them are called the same; a task
/// with a name is called by it.
pub proof fn law_unnamed_tasks_are_counted(name: Seq<char>, a: nat, b: nat)
    ensures
        task_label(Some(name), a) == name,
        task_label(None, a) == task_label(None, b) ==> a == b,
        (text::decimal(a + 1)).is_suffix_of(task_label(None, a)),
        ("task-"@).is_prefix_of(task_label(None, a)),
{
    let x = task_label(None, a);
    let y = task_label(None, b);
    reveal_strlit("task-");
    assert("task-"@ =~= x.subrange(0, 5));
    assert(text::decimal(a + 1) =~= x.subrange(5, x.len() as int));
    assert(text::decimal(b + 1) =~= y.subrange(5, y.len() as int));
    if x == y {
        text::lemma_decimal_distinct(a + 1, b + 1);
    }
}

/// Whether `r` is what a number of tasks that are to run at a time is judged as.
pub open spec fn judges_size(r: Result<(), String>, count: nat) -> bool {
    match r {
        Ok(_) => count <= MAX_CONCURRENT_TASKS,
        Err(message) => count > MAX_CONCURRENT_TASKS && message@
            == "--concurrent supports up to 4 tasks, but "@ + text::decimal(count)
            + " were provided"@,
    }
}

/// Up to four tasks can run at a time. The message for more of them tells how many can, and how
/// many were asked for.
pub proof fn law_four_tasks_at_a_time(r: Result<(), String>, count: nat)
    requires
        judges_size(r, count),
    ensures
        r is Ok <==> count <= 4,
        r matches Err(message) ==> ("--concurrent supports up to "@ + text::decimal(
            MAX_CONCURRENT_TASKS as nat,
        ) + " tasks, but "@ + text::decimal(count)).is_prefix_of(message@),
{
    if let Err(message) = r {
        reveal_strlit("--concurrent supports up to ");
        reveal_strlit(" tasks, but ");
        reveal_strlit("--concurrent supports up to 4 tasks, but ");
        let head = "--concurrent supports up to "@ + text::decimal(MAX_CONCURRENT_TASKS as nat)
            + " tasks, but "@ + text::decimal(count);
        assert(text::decimal(4) =~= seq!['4']);
        assert(head =~= "--concurrent supports up to 4 tasks, but "@ + text::decimal(count));
        assert(head =~= message@.subrange(0, head.len() as int));
    }
}

} // verus!
