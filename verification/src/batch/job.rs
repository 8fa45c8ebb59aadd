//! Directories that hold scripts and say in `job.json` what they are for.

use vstd::prelude::*;

use crate::batch::task::DefinitionFile;
use crate::path;
use crate::text;

verus! {

#[derive(Debug)]
pub struct JobDefinition {
    pub name: Option<String>,
    pub description: Option<String>,
    pub disk_size: Option<String>,
}

/// Accepts the job in `job_dir`, from what its file gave: its definition, the directory of its
/// scripts, and the directory for its output, which still has to be created.
pub fn load_job(job_dir: &str, file: DefinitionFile<JobDefinition>) -> (r: Result<
    (JobDefinition, String, String),
    String,
>)
    ensures
        loads(r, job_dir@, file),
        ({
            let json_path = path::joined(job_dir@, "job.json"@);
            match file {
                DefinitionFile::Unreadable { reason } => r matches Err(message) && message@
                    == "Cannot read "@ + json_path + ": "@ + reason@,
                DefinitionFile::Malformed { reason } => r matches Err(message) && message@
                    == "Invalid JSON in "@ + json_path + ": "@ + reason@,
                DefinitionFile::Parsed { definition } => r matches Ok((found, input, output))
                    && found == definition && input@ == path::joined(job_dir@, "scripts"@)
                    && output@ == path::joined(job_dir@, "output"@),
            }
        }),
{
    let json_path = path::join(job_dir, "job.json");
    match file {
        DefinitionFile::Unreadable { reason } => Err(
            text::cat4("Cannot read ", json_path.as_str(), ": ", reason.as_str()),
        ),
        DefinitionFile::Malformed { reason } => Err(
            text::cat4("Invalid JSON in ", json_path.as_str(), ": ", reason.as_str()),
        ),
        DefinitionFile::Parsed { definition } => Ok(
            (definition, path::join(job_dir, "scripts"), path::join(job_dir, "output")),
        ),
    }
}

/// Whether `r` is what comes of loading the job in `job_dir`.
pub open spec fn loads(
    r: Result<(JobDefinition, String, String), String>,
    job_dir: Seq<char>,
    file: DefinitionFile<JobDefinition>,
) -> bool {
    let json_path = path::joined(job_dir, "job.json"@);
    match file {
        DefinitionFile::Unreadable { reason } => r matches Err(message) && message@
            == "Cannot read "@ + json_path + ": "@ + reason@,
        DefinitionFile::Malformed { reason } => r matches Err(message) && message@
            == "Invalid JSON in "@ + json_path + ": "@ + reason@,
        DefinitionFile::Parsed { definition } => r matches Ok((found, input, output)) && found
            == definition && input@ == path::joined(job_dir, "scripts"@) && output@
            == path::joined(job_dir, "output"@),
    }
}

/// A job is loaded exactly if its file can be read and understood. Its scripts and its output lie
/// in its own directory, apart from each other; a message names the file and the reason.
pub proof fn law_job_lies_in_its_directory(
    r: Result<(JobDefinition, String, String), String>,
    job_dir: Seq<char>,
    file: DefinitionFile<JobDefinition>,
)
    requires
        loads(r, job_dir, file),
    ensures
        r is Ok <==> file is Parsed,
        r matches Ok(loaded) ==> {
            &&& loaded.0 == file->definition
            &&& job_dir.is_prefix_of(loaded.1@) && ("scripts"@).is_suffix_of(loaded.1@)
            &&& job_dir.is_prefix_of(loaded.2@) && ("output"@).is_suffix_of(loaded.2@)
            &&& loaded.1@ != loaded.2@
        },
        r matches Err(message) ==> text::occurs_in(path::joined(job_dir, "job.json"@), message@),
        file matches DefinitionFile::Unreadable { reason } ==> ("Cannot read "@).is_prefix_of(
            r->Err_0@,
        ) && reason@.is_suffix_of(r->Err_0@),
        file matches DefinitionFile::Malformed { reason } ==> ("Invalid JSON in "@).is_prefix_of(
            r->Err_0@,
        ) && reason@.is_suffix_of(r->Err_0@),
{
    reveal_strlit("scripts");
    reveal_strlit("output");
    path::lemma_joined_ends(job_dir, "scripts"@);
    path::lemma_joined_ends(job_dir, "output"@);
    if let Ok(loaded) = r {
        assert(loaded.1@.last() == 's' && loaded.2@.last() == 't');
    }
    let json_path = path::joined(job_dir, "job.json"@);
    match file {
        DefinitionFile::Unreadable { reason } => {
            text::lemma_ends("Cannot read "@, json_path, ": "@ + reason@);
            assert("Cannot read "@ + json_path + (": "@ + reason@) =~= r->Err_0@);
            let n = r->Err_0@.len() as int;
            assert(reason@ =~= r->Err_0@.subrange(n - reason@.len(), n));
        },
        DefinitionFile::Malformed { reason } => {
            text::lemma_ends("Invalid JSON in "@, json_path, ": "@ + reason@);
            assert("Invalid JSON in "@ + json_path + (": "@ + reason@) =~= r->Err_0@);
            let n = r->Err_0@.len() as int;
            assert(reason@ =~= r->Err_0@.subrange(n - reason@.len(), n));
        },
        _ => {},
    }
}

} // verus!
