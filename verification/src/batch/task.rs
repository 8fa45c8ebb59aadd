//! Directories that hold scripts and say in `task.json` what they are for.

use vstd::prelude::*;

use crate::path;
use crate::text;

verus! {

#[derive(Debug)]
pub struct TaskDefinition {
    pub name: Option<String>,
    pub description: Option<String>,
    pub disk_size: Option<String>,
}

#[derive(Debug)]
pub struct LoadedTask {
    pub definition: TaskDefinition,
    pub input_dir: String,
    pub output_dir: String,
}

/// What became of reading a definition.
#[derive(Debug)]
pub enum DefinitionFile<D> {
    Unreadable { reason: String },
    Malformed { reason: String },
    Parsed { definition: D },
}

/// Accepts the task in `task_dir`, from what its file gave. The output directory still has to be
/// created.
pub fn load_task(task_dir: &str, file: DefinitionFile<TaskDefinition>) -> (r: Result<
    LoadedTask,
    String,
>)
    ensures
        loads(r, task_dir@, file),
        ({
            let json_path = path::joined(task_dir@, "task.json"@);
            match file {
                DefinitionFile::Unreadable { reason } => r matches Err(message) && message@
                    == "Cannot read "@ + json_path + ": "@ + reason@,
                DefinitionFile::Malformed { reason } => r matches Err(message) && message@
                    == "Invalid JSON in "@ + json_path + ": "@ + reason@,
                DefinitionFile::Parsed { definition } => r matches Ok(task) && task.definition
                    == definition && task.input_dir@ == path::joined(task_dir@, "scripts"@)
                    && task.output_dir@ == path::joined(task_dir@, "output"@),
            }
        }),
{
    let json_path = path::join(task_dir, "task.json");
    match file {
        DefinitionFile::Unreadable { reason } => Err(
            text::cat4("Cannot read ", json_path.as_str(), ": ", reason.as_str()),
        ),
        DefinitionFile::Malformed { reason } => Err(
            text::cat4("Invalid JSON in ", json_path.as_str(), ": ", reason.as_str()),
        ),
        DefinitionFile::Parsed { definition } => Ok(
            LoadedTask {
                definition,
                input_dir: path::join(task_dir, "scripts"),
                output_dir: path::join(task_dir, "output"),
            },
        ),
    }
}

/// The message for an output directory that could not be created.
pub fn output_dir_message(output_dir: &str, reason: &str) -> (r: String)
    ensures
        r@ == "Cannot create output dir "@ + output_dir@ + ": "@ + reason@,
{
    text::cat4("Cannot create output dir ", output_dir, ": ", reason)
}

/// Whether `r` is what comes of loading the task in `task_dir`.
pub open spec fn loads(
    r: Result<LoadedTask, String>,
    task_dir: Seq<char>,
    file: DefinitionFile<TaskDefinition>,
) -> bool {
    let json_path = path::joined(task_dir, "task.json"@);
    match file {
        DefinitionFile::Unreadable { reason } => r matches Err(message) && message@
            == "Cannot read "@ + json_path + ": "@ + reason@,
        DefinitionFile::Malformed { reason } => r matches Err(message) && message@
            == "Invalid JSON in "@ + json_path + ": "@ + reason@,
        DefinitionFile::Parsed { definition } => r matches Ok(task) && task.definition == definition
            && task.input_dir@ == path::joined(task_dir, "scripts"@) && task.output_dir@
            == path::joined(task_dir, "output"@),
    }
}

/// A task is loaded exactly if its file can be read and understood. Its scripts and its output lie
/// in its own directory, apart from each other; a message names the file and the reason.
pub proof fn law_task_lies_in_its_directory(
    r: Result<LoadedTask, String>,
    task_dir: Seq<char>,
    file: DefinitionFile<TaskDefinition>,
)
    requires
        loads(r, task_dir, file),
    ensures
        r is Ok <==> file is Parsed,
        r matches Ok(task) ==> {
            &&& task.definition == file->definition
            &&& task_dir.is_prefix_of(task.input_dir@) && ("scripts"@).is_suffix_of(task.input_dir@)
            &&& task_dir.is_prefix_of(task.output_dir@) && ("output"@).is_suffix_of(
                task.output_dir@,
            )
            &&& task.input_dir@ != task.output_dir@
        },
        r matches Err(message) ==> text::occurs_in(path::joined(task_dir, "task.json"@), message@),
        file matches DefinitionFile::Unreadable { reason } ==> ("Cannot read "@).is_prefix_of(
            r->Err_0@,
        ) && reason@.is_suffix_of(r->Err_0@),
        file matches DefinitionFile::Malformed { reason } ==> ("Invalid JSON in "@).is_prefix_of(
            r->Err_0@,
        ) && reason@.is_suffix_of(r->Err_0@),
{
    reveal_strlit("scripts");
    reveal_strlit("output");
    path::lemma_joined_ends(task_dir, "scripts"@);
    path::lemma_joined_ends(task_dir, "output"@);
    if let Ok(task) = r {
        assert(task.input_dir@.last() == 's' && task.output_dir@.last() == 't');
    }
    let json_path = path::joined(task_dir, "task.json"@);
    match file {
        DefinitionFile::Unreadable { reason } => {
            text::lemma_ends("Cannot read "@, json_path, ": "@ + reason@);
            assert("Cannot read "@ + json_path + (": "@ + reason@) =~= r->Err_0@);
            let n = r->Err_0@.len() as int;
            assert(reason@ =~= r->Err_0@.subrange(n - reason@.len(), n));
        },
        DefinitionFile::Malformed { reason } => {
            text::lemma_ends("Invalid JSON in "@, json_path, ": "@ + reason@);
            assert("Invalid JSON in "@ + json_path + (": "@ + reason@) =~= r->Err_0@);
            let n = r->Err_0@.len() as int;
            assert(reason@ =~= r->Err_0@.subrange(n - reason@.len(), n));
        },
        _ => {},
    }
}

} // verus!
