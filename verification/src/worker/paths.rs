//! Relative paths that a task declares, as they are read when the task runs.

use vstd::prelude::*;

use crate::path;
use crate::task;
use crate::text;
use crate::worker::error::{runtime, Error};

verus! {

/// What messages add where `..` is not allowed.
pub open spec fn no_parent_note(allow_parent: bool) -> Seq<char> {
    if allow_parent {
        ""@
    } else {
        ", and must not contain '..'"@
    }
}

/// Why a relative path is refused.
pub open spec fn relative_path_fault(
    value: Seq<char>,
    field: Seq<char>,
    allow_parent: bool,
) -> Option<Seq<char>> {
    if task::blank(value) {
        Some(field + " path must not be empty"@)
    } else if path::absolute(value) {
        Some(field + " path must be relative: "@ + value)
    } else if path::parts(value).contains(path::Part::Cur) || (!allow_parent && path::parts(
        value,
    ).contains(path::Part::Up)) {
        Some(
            field + " path must not contain '.', root, or drive-prefix components"@
                + no_parent_note(allow_parent) + ": "@ + value,
        )
    } else {
        None
    }
}

/// Reads a relative path.
pub fn parse_relative_path(value: &str, field: &str, allow_parent: bool) -> (r: Result<
    String,
    Error,
>)
    ensures
        match r {
            Ok(found) => relative_path_fault(value@, field@, allow_parent) is None && found@
                == value@,
            Err(err) => relative_path_fault(value@, field@, allow_parent) matches Some(message)
                && err.is_runtime(message),
        },
{
    if text::is_blank(value) {
        return Err(runtime(text::cat2(field, " path must not be empty")));
    }
    if path::is_absolute(value) {
        return Err(runtime(text::cat3(field, " path must be relative: ", value)));
    }
    if path::has_cur_dir(value) || (!allow_parent && path::has_parent_dir(value)) {
        let note = if allow_parent {
            ""
        } else {
            ", and must not contain '..'"
        };
        return Err(
            runtime(
                text::cat5(
                    field,
                    " path must not contain '.', root, or drive-prefix components",
                    note,
                    ": ",
                    value,
                ),
            ),
        );
    }
    Ok(value.to_owned())
}

/// Reads the path to the next task's directory, which may lead upwards.
pub fn parse_next_task_relative_path(value: &str) -> (r: Result<String, Error>)
    ensures
        match r {
            Ok(found) => relative_path_fault(value@, "next_task_dir"@, true) is None && found@
                == value@,
            Err(err) => relative_path_fault(value@, "next_task_dir"@, true) matches Some(message)
                && err.is_runtime(message),
        },
{
    parse_relative_path(value, "next_task_dir", true)
}

/// Reads the path of an artifact, which stays inside the output directory.
pub fn parse_artifact_relative_path(value: &str) -> (r: Result<String, Error>)
    ensures
        match r {
            Ok(found) => relative_path_fault(value@, "artifact"@, false) is None && found@
                == value@,
            Err(err) => relative_path_fault(value@, "artifact"@, false) matches Some(message)
                && err.is_runtime(message),
        },
{
    parse_relative_path(value, "artifact", false)
}

/// The paths that are accepted when a task is loaded are those that can be read when it runs.
pub proof fn law_accepted_paths_can_be_read(value: Seq<char>)
    ensures
        task::artifact_path_fault(value) is None <==> relative_path_fault(
            value,
            "artifact"@,
            false,
        ) is None,
        task::relative_task_path_fault(value) is None <==> relative_path_fault(
            value,
            "next_task_dir"@,
            true,
        ) is None,
{
}

/// Borrows a path as text. Every path of this library is text.
pub fn path_to_str(path: &String) -> (r: Result<&str, Error>)
    ensures
        r matches Ok(s) && s@ == path@,
{
    Ok(path.as_str())
}

/// A relative path is accepted exactly if it is not blank, not absolute, free of `.` and, unless
/// it may lead upwards, free of `..`. The message for one that is refused starts with the field,
/// and ends with the path where there is one.
pub proof fn law_refused_path_is_named(value: Seq<char>, field: Seq<char>, allow_parent: bool)
    ensures
        relative_path_fault(value, field, allow_parent) is None <==> {
            &&& text::trimmed(value).len() > 0
            &&& value.len() > 0 && value[0] != '/'
            &&& !path::parts(value).contains(path::Part::Cur)
            &&& allow_parent || !path::parts(value).contains(path::Part::Up)
        },
        relative_path_fault(value, field, allow_parent) matches Some(message) ==> {
            &&& (field + " path must"@).is_prefix_of(message)
            &&& text::trimmed(value).len() > 0 ==> (": "@ + value).is_suffix_of(message)
            &&& text::trimmed(value).len() > 0 && value[0] != '/' && !allow_parent
                ==> text::occurs_in("must not contain '..'"@, message)
        },
{
    if value.len() == 0 {
        assert(text::trimmed(value).len() == 0);
    }
    if let Some(message) = relative_path_fault(value, field, allow_parent) {
        reveal_strlit(" path must");
        reveal_strlit(" path must not be empty");
        reveal_strlit(" path must be relative: ");
        reveal_strlit(" path must not contain '.', root, or drive-prefix components");
        reveal_strlit(": ");
        reveal_strlit(", and must not contain '..'");
        reveal_strlit("must not contain '..'");
        let head = field + " path must"@;
        let tail = ": "@ + value;
        assert(head =~= message.subrange(0, head.len() as int));
        if text::trimmed(value).len() > 0 {
            assert(tail =~= message.subrange(message.len() - tail.len(), message.len() as int));
            if value[0] != '/' && !allow_parent {
                let head = " path must not contain '.', root, or drive-prefix components"@;
                let at = field.len() + head.len() + 6 as int;
                assert(message.subrange(at, at + 21) =~= "must not contain '..'"@);
                assert(text::occurs_at("must not contain '..'"@, message, at));
            }
        }
    }
}

} // verus!
