//! What can go wrong while the scripts of a directory run.

use vstd::prelude::*;

use crate::text;

verus! {

#[derive(Debug, PartialEq, Eq)]
pub enum Error {
    InputPathNotFound { path: String },
    InputPathNotDirectory { path: String },
    NonUtf8Path { path: String },
    ScriptDiscovery { path: String, reason: String },
    NoScripts { path: String },
    VmStart { message: String },
    CopyToVm { message: String },
    ScriptFailed { script: String, message: String },
    CopyFromVm { message: String },
    VmCommand { message: String },
    CleanupFailed { vm_id: String, message: String },
    BlockingInAsyncContext,
    Runtime { message: String },
    Io { message: String },
}

impl Error {
    /// The text that users see.
    pub open spec fn text(self) -> Seq<char> {
        match self {
            Error::InputPathNotFound { path } => "Input path does not exist: "@ + path@,
            Error::InputPathNotDirectory { path } => "Input path is not a directory: "@ + path@,
            Error::NonUtf8Path { path } => "Output path is not valid UTF-8: "@ + path@,
            Error::ScriptDiscovery { path, reason } => "Failed to discover scripts in "@ + path@
                + ": "@ + reason@,
            Error::NoScripts { path } => "No files were found in "@ + path@,
            Error::VmStart { message } => "Failed to start VM: "@ + message@,
            Error::CopyToVm { message } => "Failed to copy files to VM: "@ + message@,
            Error::ScriptFailed { script, message } => "Failed to run script '"@ + script@ + "': "@
                + message@,
            Error::CopyFromVm { message } => "Failed to collect VM output: "@ + message@,
            Error::VmCommand { message } => "Failed to execute command in VM: "@ + message@,
            Error::CleanupFailed { vm_id, message } => "Failed to cleanup VM '"@ + vm_id@ + "': "@
                + message@,
            Error::BlockingInAsyncContext =>
                "Blocking mode is not allowed from within an async runtime"@,
            Error::Runtime { message } => "Runtime error: "@ + message@,
            Error::Io { message } => message@,
        }
    }

    /// Renders the error for users.
    pub fn describe(&self) -> (r: String)
        ensures
            r@ == self.text(),
    {
        match self {
            Error::InputPathNotFound { path } => text::cat2(
                "Input path does not exist: ",
                path.as_str(),
            ),
            Error::InputPathNotDirectory { path } => text::cat2(
                "Input path is not a directory: ",
                path.as_str(),
            ),
            Error::NonUtf8Path { path } => text::cat2(
                "Output path is not valid UTF-8: ",
                path.as_str(),
            ),
            Error::ScriptDiscovery { path, reason } => text::cat4(
                "Failed to discover scripts in ",
                path.as_str(),
                ": ",
                reason.as_str(),
            ),
            Error::NoScripts { path } => text::cat2("No files were found in ", path.as_str()),
            Error::VmStart { message } => text::cat2("Failed to start VM: ", message.as_str()),
            Error::CopyToVm { message } => text::cat2(
                "Failed to copy files to VM: ",
                message.as_str(),
            ),
            Error::ScriptFailed { script, message } => text::cat4(
                "Failed to run script '",
                script.as_str(),
                "': ",
                message.as_str(),
            ),
            Error::CopyFromVm { message } => text::cat2(
                "Failed to collect VM output: ",
                message.as_str(),
            ),
            Error::VmCommand { message } => text::cat2(
                "Failed to execute command in VM: ",
                message.as_str(),
            ),
            Error::CleanupFailed { vm_id, message } => text::cat4(
                "Failed to cleanup VM '",
                vm_id.as_str(),
                "': ",
                message.as_str(),
            ),
            Error::BlockingInAsyncContext =>
                "Blocking mode is not allowed from within an async runtime".to_owned(),
            Error::Runtime { message } => text::cat2("Runtime error: ", message.as_str()),
            Error::Io { message } => message.clone(),
        }
    }
}

/// Joins the error of a run and the error of the cleanup after it.
pub fn combine_errors(primary: Error, cleanup: Error) -> (r: Error)
    ensures
        r matches Error::Runtime { message } && message@ == primary.text() + "; additionally: "@
            + cleanup.text(),
{
    let first = primary.describe();
    let second = cleanup.describe();
    Error::Runtime { message: text::cat3(first.as_str(), "; additionally: ", second.as_str()) }
}

/// The text of an error says at which part of the work it arose, and ends with what was said there.
pub proof fn law_error_says_where_it_arose(message: String)
    ensures
        ("Failed to start VM: "@).is_prefix_of((Error::VmStart { message }).text()),
        ("Failed to copy files to VM: "@).is_prefix_of((Error::CopyToVm { message }).text()),
        ("Failed to collect VM output: "@).is_prefix_of((Error::CopyFromVm { message }).text()),
        ("Failed to execute command in VM: "@).is_prefix_of((Error::VmCommand { message }).text()),
        ("Runtime error: "@).is_prefix_of((Error::Runtime { message }).text()),
        message@.is_suffix_of((Error::VmStart { message }).text()),
        message@.is_suffix_of((Error::CopyToVm { message }).text()),
        message@.is_suffix_of((Error::CopyFromVm { message }).text()),
        message@.is_suffix_of((Error::VmCommand { message }).text()),
        message@.is_suffix_of((Error::Runtime { message }).text()),
        (Error::Io { message }).text() == message@,
{
    lemma_ends("Failed to start VM: "@, message@);
    lemma_ends("Failed to copy files to VM: "@, message@);
    lemma_ends("Failed to collect VM output: "@, message@);
    lemma_ends("Failed to execute command in VM: "@, message@);
    lemma_ends("Runtime error: "@, message@);
}

/// The text of an error about a script or a machine names it before it says what went wrong.
pub proof fn law_error_names_what_it_is_about(name: String, message: String)
    ensures
        ("Failed to run script '"@ + name@ + "': "@).is_prefix_of(
            (Error::ScriptFailed { script: name, message }).text(),
        ),
        message@.is_suffix_of((Error::ScriptFailed { script: name, message }).text()),
        ("Failed to cleanup VM '"@ + name@ + "': "@).is_prefix_of(
            (Error::CleanupFailed { vm_id: name, message }).text(),
        ),
        message@.is_suffix_of((Error::CleanupFailed { vm_id: name, message }).text()),
{
    lemma_ends("Failed to run script '"@ + name@ + "': "@, message@);
    lemma_ends("Failed to cleanup VM '"@ + name@ + "': "@, message@);
}

proof fn lemma_ends(head: Seq<char>, tail: Seq<char>)
    ensures
        head.is_prefix_of(head + tail),
        tail.is_suffix_of(head + tail),
{
    let whole = head + tail;
    assert(head =~= whole.subrange(0, head.len() as int));
    assert(tail =~= whole.subrange(whole.len() - tail.len(), whole.len() as int));
}

} // verus!
