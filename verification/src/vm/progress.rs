//! The lines that show how far the start of a machine has come.

use vstd::prelude::*;

use crate::text;

verus! {

/// Progress in steps, of which one at a time is open.
#[derive(Debug)]
pub struct StepProgress {
    pub total_steps: u8,
    pub current_step: u8,
    pub open: bool,
    pub current_msg: String,
}

/// The number of a step among all.
pub open spec fn step_prefix(step: u8, total: u8) -> Seq<char> {
    text::decimal(step as nat) + "/"@ + text::decimal(total as nat)
}

/// The line that a step ends with.
pub open spec fn closing_line(p: StepProgress, icon: Seq<char>, detail: Seq<char>) -> Seq<char> {
    let head = icon + " ["@ + step_prefix(p.current_step, p.total_steps) + "] "@ + p.current_msg@;
    if detail.len() == 0 {
        head
    } else {
        head + " — "@ + detail
    }
}

fn prefix_text(step: u8, total: u8) -> (r: String)
    ensures
        r@ == step_prefix(step, total),
{
    let a = text::number(step as u64);
    let b = text::number(total as u64);
    text::cat3(a.as_str(), "/", b.as_str())
}

impl StepProgress {
    pub fn new(total_steps: u8) -> (r: StepProgress)
        ensures
            r.total_steps == total_steps,
            r.current_step == 0,
            !r.open,
            r.current_msg@.len() == 0,
    {
        StepProgress { total_steps, current_step: 0, open: false, current_msg: String::new() }
    }

    /// Ends the open step, if there is one, and gives the line for it.
    pub fn finish_current(&mut self, icon: &str, detail: &str) -> (r: Option<String>)
        ensures
            *final(self) == (StepProgress { open: false, ..*old(self) }),
            text::opt_view(r) == (if old(self).open {
                Some(closing_line(*old(self), icon@, detail@))
            } else {
                None
            }),
    {
        if !self.open {
            return None;
        }
        self.open = false;
        let prefix = prefix_text(self.current_step, self.total_steps);
        let head = text::cat5(icon, " [", prefix.as_str(), "] ", self.current_msg.as_str());
        if detail.is_empty() {
            Some(head)
        } else {
            Some(text::cat3(head.as_str(), " — ", detail))
        }
    }

    /// Opens the next step. An open one is ended first, without a detail. Gives the line for
    /// the step that was ended, and the number of the new one.
    pub fn start_step(&mut self, msg: &str, done_icon: &str) -> (r: (Option<String>, String))
        requires
            old(self).current_step < u8::MAX,
        ensures
            final(self).total_steps == old(self).total_steps,
            final(self).current_step == old(self).current_step + 1,
            final(self).open,
            final(self).current_msg@ == msg@,
            text::opt_view(r.0) == (if old(self).open {
                Some(closing_line(*old(self), done_icon@, seq![]))
            } else {
                None
            }),
            r.1@ == step_prefix((old(self).current_step + 1) as u8, old(self).total_steps),
    {
        proof {
            reveal_strlit("");
            assert(""@ =~= seq![]);
        }
        let closed = self.finish_current(done_icon, "");
        self.current_step = self.current_step + 1;
        self.current_msg = msg.to_owned();
        self.open = true;
        (closed, prefix_text(self.current_step, self.total_steps))
    }
}

/// The line that a step ends with starts with the icon, shows the number of the step among all and
/// what the step is, and ends with the detail where there is one.
pub proof fn law_closing_line_shows_the_step(
    p: StepProgress,
    icon: Seq<char>,
    detail: Seq<char>,
)
    ensures
        ({
            let line = closing_line(p, icon, detail);
            let head = icon + " ["@ + text::decimal(p.current_step as nat) + "/"@ + text::decimal(
                p.total_steps as nat,
            ) + "] "@ + p.current_msg@;
            &&& head.is_prefix_of(line)
            &&& detail.len() == 0 <==> line == head
            &&& detail.is_suffix_of(line)
        }),
{
    let line = closing_line(p, icon, detail);
    let head = icon + " ["@ + text::decimal(p.current_step as nat) + "/"@ + text::decimal(
        p.total_steps as nat,
    ) + "] "@ + p.current_msg@;
    let shown = icon + " ["@ + step_prefix(p.current_step, p.total_steps) + "] "@ + p.current_msg@;
    assert(shown =~= head);
    let n = line.len() as int;
    assert(head =~= line.subrange(0, head.len() as int));
    assert(detail =~= line.subrange(n - detail.len(), n));
}

} // verus!
