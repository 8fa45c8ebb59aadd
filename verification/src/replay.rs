//! Lines of which only the last ones are kept.

use std::collections::VecDeque;
use vstd::prelude::*;

use crate::text;

verus! {

/// How many events a dashboard replays to a new subscriber.
pub const SSE_REPLAY_CAPACITY: usize = 100;

/// A list with a line more, which drops its oldest line where `capacity` of them are there.
pub open spec fn kept(lines: Seq<Seq<char>>, capacity: nat, line: Seq<char>) -> Seq<Seq<char>> {
    if lines.len() >= capacity && lines.len() > 0 {
        lines.drop_first().push(line)
    } else {
        lines.push(line)
    }
}

/// Adds a line to a list that keeps the last ones.
pub fn keep(lines: &mut VecDeque<String>, capacity: usize, line: String)
    ensures
        text::views(final(lines)@) == kept(text::views(old(lines)@), capacity as nat, line@),
{
    let ghost before = lines@;
    if lines.len() >= capacity {
        let _ = lines.pop_front();
    }
    lines.push_back(line);
    proof {
        if before.len() >= capacity && before.len() > 0 {
            assert(text::views(lines@) =~= text::views(before).drop_first().push(line@));
        } else {
            assert(text::views(lines@) =~= text::views(before).push(line@));
        }
    }
}

/// What a list that keeps the last lines holds after several more lines.
pub open spec fn kept_all(lines: Seq<Seq<char>>, capacity: nat, more: Seq<Seq<char>>) -> Seq<
    Seq<char>,
>
    decreases more.len(),
{
    if more.len() == 0 {
        lines
    } else {
        kept(kept_all(lines, capacity, more.drop_last()), capacity, more.last())
    }
}

/// The last lines, at most `capacity` of them.
pub open spec fn last_lines(lines: Seq<Seq<char>>, capacity: nat) -> Seq<Seq<char>> {
    if lines.len() <= capacity {
        lines
    } else {
        lines.skip(lines.len() - capacity)
    }
}

/// A list that keeps the last lines holds exactly the last ones of all that were ever added,
/// oldest first, and never more of them than its capacity.
pub proof fn law_last_lines_are_kept(lines: Seq<Seq<char>>, capacity: nat, more: Seq<Seq<char>>)
    requires
        capacity > 0,
        lines.len() <= capacity,
    ensures
        kept_all(lines, capacity, more) == last_lines(lines + more, capacity),
        kept_all(lines, capacity, more).len() <= capacity,
    decreases more.len(),
{
    if more.len() == 0 {
        assert(lines + more =~= lines);
    } else {
        law_last_lines_are_kept(lines, capacity, more.drop_last());
        let before = lines + more.drop_last();
        assert(lines + more =~= before.push(more.last()));
        if before.len() >= capacity {
            assert(last_lines(before, capacity).drop_first().push(more.last()) =~= last_lines(
                before.push(more.last()),
                capacity,
            ));
        }
    }
}

} // verus!
