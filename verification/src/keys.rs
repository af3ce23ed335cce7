//! The keys under which processes, tasks and grants are filed, and the artifacts that paths name.
use vstd::prelude::*;
use vstd::string::*;

use crate::ids::{ArtifactId, NodeId, ProcessId, ProjectId, TaskInstanceId, TenantId};
use crate::ordered::OrderedKey;
use crate::text::{begins_with, chars_of, concat2, starts_with, text_of};

verus! {

pub type TaskControlKey = (TenantId, ProjectId, ProcessId, NodeId, TaskInstanceId);

pub type TaskRestartKey = (TenantId, ProjectId, ProcessId, TaskInstanceId);

pub type ProcessControlKey = (TenantId, ProjectId, ProcessId);

pub type PanelStopKey = (TenantId, ProjectId, ProcessId);

pub type EnrollmentGrantKey = (TenantId, ProjectId, String);

/// The texts of a process and of where it runs.
pub type ProcessText = (Seq<char>, Seq<char>, Seq<char>);

/// The texts of a task, of its node and of where it runs.
pub type TaskText = (Seq<char>, Seq<char>, Seq<char>, Seq<char>, Seq<char>);

/// The key of a task on a node.
pub fn task_control_key(
    tenant: &TenantId,
    project: &ProjectId,
    process: &ProcessId,
    node: &NodeId,
    task: &TaskInstanceId,
) -> (r: TaskControlKey)
    ensures
        r.key() == (tenant@, project@, process@, node@, task@),
{
    let r: TaskControlKey = (tenant.clone(), project.clone(), process.clone(), node.clone(), task.clone());
    assert(r.key() == (tenant@, project@, process@, node@, task@));
    r
}

/// The key of a task, wherever it runs.
pub fn task_restart_key(
    tenant: &TenantId,
    project: &ProjectId,
    process: &ProcessId,
    task: &TaskInstanceId,
) -> (r: TaskRestartKey)
    ensures
        r.key() == (tenant@, project@, process@, task@),
{
    let r: TaskRestartKey = (tenant.clone(), project.clone(), process.clone(), task.clone());
    assert(r.key() == (tenant@, project@, process@, task@));
    r
}

/// The key of a process.
pub fn process_control_key(
    tenant: &TenantId,
    project: &ProjectId,
    process: &ProcessId,
) -> (r: ProcessControlKey)
    ensures
        r.key() == (tenant@, project@, process@),
{
    let r: ProcessControlKey = (tenant.clone(), project.clone(), process.clone());
    assert(r.key() == (tenant@, project@, process@));
    r
}

/// The key of the operator panel of a process.
pub fn panel_stop_key(
    tenant: &TenantId,
    project: &ProjectId,
    process: &ProcessId,
) -> (r: PanelStopKey)
    ensures
        r.key() == (tenant@, project@, process@),
{
    let r: PanelStopKey = (tenant.clone(), project.clone(), process.clone());
    assert(r.key() == (tenant@, project@, process@));
    r
}

/// The key of an enrollment grant.
pub fn enrollment_grant_key(
    tenant: &TenantId,
    project: &ProjectId,
    grant: &str,
) -> (r: EnrollmentGrantKey)
    ensures
        r.key() == (tenant@, project@, grant@),
{
    let r: EnrollmentGrantKey = (tenant.clone(), project.clone(), grant.to_owned());
    assert(r.key() == (tenant@, project@, grant@));
    r
}

/// Why a path names no artifact.
#[derive(Debug)]
pub enum ArtifactPathError {
    WrongPrefix,
    EmptyArtifact,
    InvalidArtifactId(String),
}

impl ArtifactPathError {
    /// The text of the error.
    pub open spec fn text(&self) -> Seq<char> {
        match *self {
            ArtifactPathError::WrongPrefix => "path must start with the exact /vfs/artifacts/ prefix"@,
            ArtifactPathError::EmptyArtifact => "path must name an artifact after /vfs/artifacts/"@,
            ArtifactPathError::InvalidArtifactId(reason) => "mapped artifact identifier is invalid: "@
                + reason@,
        }
    }

    /// The text of the error.
    pub fn message(&self) -> (r: String)
        ensures
            r@ == self.text(),
    {
        match self {
            ArtifactPathError::WrongPrefix => {
                "path must start with the exact /vfs/artifacts/ prefix".to_owned()
            },
            ArtifactPathError::EmptyArtifact => {
                "path must name an artifact after /vfs/artifacts/".to_owned()
            },
            ArtifactPathError::InvalidArtifactId(reason) => {
                concat2("mapped artifact identifier is invalid: ", reason.as_str())
            },
        }
    }
}

/// The name that a path maps to: what follows the prefix, with colons for slashes.
pub open spec fn mapped_name(path: Seq<char>) -> Seq<char> {
    path.skip(15).map_values(|c: char| if c == '/' { ':' } else { c })
}

/// The name of the artifact that a path maps to.
pub fn artifact_name_from_path(path: &str) -> (r: Result<String, ArtifactPathError>)
    ensures
        if !starts_with(path@, "/vfs/artifacts/"@) {
            r matches Err(ArtifactPathError::WrongPrefix)
        } else if path@ == "/vfs/artifacts/"@ {
            r matches Err(ArtifactPathError::EmptyArtifact)
        } else {
            r matches Ok(name) && name@ == mapped_name(path@)
        },
{
    proof {
        reveal_strlit("/vfs/artifacts/");
    }
    let chars: Vec<char> = chars_of(path);
    let prefix: Vec<char> = chars_of("/vfs/artifacts/");
    if !begins_with(&chars, &prefix) {
        return Err(ArtifactPathError::WrongPrefix);
    }
    assert(path@.len() >= 15);
    if chars.len() == 15 {
        assert(path@.take(15) =~= path@);
        return Err(ArtifactPathError::EmptyArtifact);
    }
    let n: usize = chars.len();
    let mut name: Vec<char> = Vec::new();
    let mut i: usize = 15;
    while i < n
        invariant
            n == chars@.len(),
            chars@ == path@,
            15 <= i <= n,
            name@ == mapped_name(path@).take(i - 15),
        decreases n - i,
    {
        let c: char = if chars[i] == '/' {
            ':'
        } else {
            chars[i]
        };
        name.push(c);
        assert(mapped_name(path@).take(i + 1 - 15) =~= mapped_name(path@).take(i - 15).push(
            mapped_name(path@)[i - 15],
        ));
        i = i + 1;
    }
    assert(mapped_name(path@).take(n - 15) =~= mapped_name(path@));
    Ok(text_of(&name))
}

/// The artifact that a path names. `checked` is what the check of the mapped name gave.
pub fn artifact_id_from_path(path: &str, checked: Result<(), String>) -> (r: Result<
    ArtifactId,
    ArtifactPathError,
>)
    ensures
        if !starts_with(path@, "/vfs/artifacts/"@) {
            r matches Err(ArtifactPathError::WrongPrefix)
        } else if path@ == "/vfs/artifacts/"@ {
            r matches Err(ArtifactPathError::EmptyArtifact)
        } else {
            match checked {
                Ok(_) => r matches Ok(id) && id@ == mapped_name(path@),
                Err(reason) => r == Err::<ArtifactId, ArtifactPathError>(
                    ArtifactPathError::InvalidArtifactId(reason),
                ),
            }
        },
{
    match artifact_name_from_path(path) {
        Err(error) => Err(error),
        Ok(name) => match checked {
            Ok(_) => Ok(name),
            Err(reason) => Err(ArtifactPathError::InvalidArtifactId(reason)),
        },
    }
}

} // verus!
