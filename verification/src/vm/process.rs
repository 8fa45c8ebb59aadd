//! What the process list of the host says about a process.

use vstd::prelude::*;

use crate::text;

verus! {

/// Whether the state that `ps` prints for a process is that of a zombie.
pub open spec fn zombie(state: Seq<char>) -> bool {
    let s = text::trimmed(state);
    s.len() > 0 && (s[0] == 'Z' || s[0] == 'z')
}

/// Whether a process is at work. `running` says whether it can be signalled, and `state` is what
/// `ps` prints as its state, where it could be asked.
pub fn is_process_alive(running: bool, state: Option<&str>) -> (r: bool)
    ensures
        r == at_work(running, text::opt_str_view(state)),
        r == (running && !(state matches Some(s) && zombie(s@))),
{
    if !running {
        return false;
    }
    match state {
        None => true,
        Some(s) => {
            let t = text::trim(s);
            let t = t.as_str();
            !(t.unicode_len() > 0 && (t.get_char(0) == 'Z' || t.get_char(0) == 'z'))
        },
    }
}

/// Whether a command line is that of a QEMU system emulator, in whatever case it is written.
pub open spec fn qemu_command(args: Seq<char>) -> bool {
    text::occurs_in("qemu-system-"@, args.map_values(|c: char| text::ascii_lower_of(c)))
}

/// Whether a process is a running QEMU. `args` is the command line that `ps` prints for it,
/// where it could be asked.
pub fn is_qemu_process(running: bool, args: Option<&str>) -> (r: bool)
    ensures
        r == runs_qemu(running, text::opt_str_view(args)),
        r == (running && (args matches Some(a) && qemu_command(a@))),
{
    if !running {
        return false;
    }
    match args {
        None => false,
        Some(a) => {
            let lower = text::to_ascii_lowercase(a);
            text::contains(lower.as_str(), "qemu-system-")
        },
    }
}

/// Whether an error says that the process it is about is gone.
pub open spec fn absent(err: Seq<char>) -> bool {
    text::occurs_in("No such process"@, err) || text::occurs_in("does not exist"@, err)
}

pub fn is_process_absent_error(err: &str) -> (r: bool)
    ensures
        r == absent(err@),
{
    text::contains(err, "No such process") || text::contains(err, "does not exist")
}

/// Whether a process that can be signalled, or not, is at work, with what `ps` prints as its state.
pub open spec fn at_work(running: bool, state: Option<Seq<char>>) -> bool {
    running && !(state is Some && zombie(state->0))
}

/// Whether a process that can be signalled, or not, is a QEMU, with its command line.
pub open spec fn runs_qemu(running: bool, args: Option<Seq<char>>) -> bool {
    running && args is Some && qemu_command(args->0)
}

/// A process is at work unless it is gone or a zombie; one whose state is not known is taken to be.
pub proof fn law_process_at_work(running: bool, state: Seq<char>)
    requires
        state.len() > 0,
        !text::whitespace(state[0]),
        !text::whitespace(state.last()),
    ensures
        at_work(running, Some(state)) <==> running && state[0] != 'Z' && state[0] != 'z',
        at_work(running, None) <==> running,
{
    text::lemma_trimmed_is(state);
}

/// A process is a QEMU only if it runs and its command line is known and names one.
pub proof fn law_process_that_is_a_qemu(running: bool, args: Option<Seq<char>>)
    requires
        runs_qemu(running, args),
    ensures
        running,
        args is Some && text::occurs_in(
            "qemu-system-"@,
            args->0.map_values(|c: char| text::ascii_lower_of(c)),
        ),
{
}

/// A process is gone exactly if the error says so in one of two ways.
pub proof fn law_gone_process(before: Seq<char>, after: Seq<char>)
    ensures
        absent(before + "No such process"@ + after),
        absent(before + "does not exist"@ + after),
        !absent(""@),
{
    text::lemma_occurs_between(before, "No such process"@, after);
    text::lemma_occurs_between(before, "does not exist"@, after);
    reveal_strlit("");
    reveal_strlit("No such process");
    reveal_strlit("does not exist");
}

} // verus!
