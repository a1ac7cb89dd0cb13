//! The messages that create, load and save projects, and what handling them decides.
//!
//! Reading and writing project files is left to the caller; the functions here decide which
//! project is replaced, what is spawned, what is written and which message reports the
//! outcome.
use vstd::prelude::*;
use crate::document::{Document, project_doc};
use crate::hierarchy::{DungeonQueries, ProjectQueryItem};
use crate::spawn::{ProjectSpawn, new_project_spawn, project_spawn_of};

verus! {

/// Sent when a new project should be created.
#[derive(Debug)]
pub struct CreateProjectMessage {
    /// The file the project is associated with.
    pub file: String,
    /// The project's name.
    pub name: String,
}

impl CreateProjectMessage {
    /// Creates a new [`CreateProjectMessage`].
    pub fn new(file: String, name: String) -> (m: CreateProjectMessage)
        ensures
            m.file == file,
            m.name == name,
    {
        CreateProjectMessage { file, name }
    }
}

/// Sent to load the project file at `input`.
#[derive(Debug)]
pub struct LoadProjectEvent {
    /// The path of the project file to load.
    pub input: String,
}

/// Reports that a project file failed to load.
#[derive(Debug)]
pub struct LoadProjectFailedEvent {
    /// The path of the project file.
    pub input: String,
    /// What went wrong.
    pub error: String,
}

/// Why reading a project file failed.
#[derive(Debug)]
pub enum ReadProjectError {
    /// The file could not be read; the cause as text.
    Open(String),
    /// The file's content is not a project document; the cause as text.
    Parse(String),
}

/// Sent to save the project `project`.
#[derive(Debug, Clone, Copy, PartialEq, Eq, Structural)]
pub struct SaveProjectMessage {
    /// The entity of the project to save.
    pub project: u64,
}

impl SaveProjectMessage {
    /// Generates a new [`SaveProjectMessage`] for `project`.
    pub fn new(project: u64) -> (m: SaveProjectMessage)
        ensures
            m.project == project,
    {
        SaveProjectMessage { project }
    }
}

/// Reports that a project was saved.
#[derive(Debug, Clone, Copy, PartialEq, Eq, Structural)]
pub struct SaveProjectCompleteMessage {
    pub project: u64,
}

/// Why saving a project failed.
#[derive(Debug)]
pub enum SaveProjectError {
    /// The entity is not a project.
    NotAProject,
    /// Writing the file failed; the cause as text.
    Write(String),
}

/// Reports that saving a project failed.
#[derive(Debug)]
pub struct SaveProjectFailedMessage {
    pub project: u64,
    pub error: SaveProjectError,
}

/// What saving a project writes: the document, to the project's file.
#[derive(Debug)]
pub struct SaveJob {
    pub project: u64,
    pub file: String,
    pub document: Document,
}

/// The project that creating or loading a project replaces: the only project, when there is
/// exactly one.
pub open spec fn replaced_project(q: DungeonQueries) -> Option<u64> {
    if q.projects@.len() == 1 {
        Some(q.projects@[0].entity)
    } else {
        None
    }
}

/// The project that creating or loading a project replaces: the only project, when there is
/// exactly one.
pub fn project_to_replace(queries: &DungeonQueries) -> (r: Option<u64>)
    ensures
        r == replaced_project(*queries),
{
    if queries.projects.len() == 1 {
        Some(queries.projects[0].entity)
    } else {
        None
    }
}

/// The message of a project file that could not be read.
pub open spec fn open_failure(input: Seq<char>) -> Seq<char> {
    "Failed to open project file: '"@ + input + "'"@
}

/// The message of a project file whose content is not a project document.
pub open spec fn parse_failure(input: Seq<char>) -> Seq<char> {
    "Failed to parse project file '"@ + input + "'"@
}

fn quoted(prefix: &str, input: &str) -> (s: String)
    ensures
        s@ == prefix@ + input@ + "'"@,
{
    let mut s = prefix.to_owned();
    s.append(input);
    s.append("'");
    s
}

/// Handles the first [`CreateProjectMessage`] of a frame: the previous project (if exactly
/// one exists) is despawned, and a project with one level holding one layer is spawned.
pub fn handle_create_project_message(queries: &DungeonQueries, message: &CreateProjectMessage) -> (r: (Option<u64>, ProjectSpawn))
    ensures
        r.0 == replaced_project(*queries),
        r.1@ == new_project_spawn(message.file@, message.name@),
{
    let despawn = project_to_replace(queries);
    (despawn, ProjectSpawn::new_project(message.file.clone(), message.name.clone()))
}

/// Handles the first [`LoadProjectEvent`] of a frame with the outcome of reading its file:
/// the previous project (if exactly one exists) is despawned whatever the outcome; a
/// document read is spawned, a failure is reported with the file's path.
pub fn handle_load_project_event(
    queries: &DungeonQueries,
    event: &LoadProjectEvent,
    read: Result<Document, ReadProjectError>,
) -> (r: (Option<u64>, Result<ProjectSpawn, LoadProjectFailedEvent>))
    ensures
        r.0 == replaced_project(*queries),
        match read {
            Ok(d) => r.1 matches Ok(s) && s@ == project_spawn_of(event.input@, d@),
            Err(ReadProjectError::Open(_)) => r.1 matches Err(f) && f.input@ == event.input@
                && f.error@ == open_failure(event.input@),
            Err(ReadProjectError::Parse(_)) => r.1 matches Err(f) && f.input@ == event.input@
                && f.error@ == parse_failure(event.input@),
        },
{
    let despawn = project_to_replace(queries);
    let outcome = match read {
        Ok(d) => Ok(ProjectSpawn::from_document(event.input.as_str(), &d)),
        Err(ReadProjectError::Open(_)) => Err(LoadProjectFailedEvent {
            input: event.input.clone(),
            error: quoted("Failed to open project file: '", event.input.as_str()),
        }),
        Err(ReadProjectError::Parse(_)) => Err(LoadProjectFailedEvent {
            input: event.input.clone(),
            error: quoted("Failed to parse project file '", event.input.as_str()),
        }),
    };
    (despawn, outcome)
}

/// Handles a [`SaveProjectMessage`]: when its entity is a project, the project's document is
/// to be written to the project's file; otherwise saving fails with
/// [`SaveProjectError::NotAProject`].
pub fn handle_save_project(queries: &DungeonQueries, message: &SaveProjectMessage) -> (r: Result<SaveJob, SaveProjectFailedMessage>)
    requires
        queries.wf(),
    ensures
        match r {
            Ok(job) => crate::hierarchy::has_item(queries.projects@, message.project)
                && job.project == message.project
                && job.file@ == crate::hierarchy::item_of(queries.projects@, message.project).project.file@
                && job.document@ == project_doc(crate::hierarchy::item_of(queries.projects@, message.project), *queries),
            Err(f) => !crate::hierarchy::has_item(queries.projects@, message.project)
                && f.project == message.project && f.error is NotAProject,
        },
{
    match crate::hierarchy::find_item(&queries.projects, message.project) {
        Some(project) => Ok(SaveJob {
            project: message.project,
            file: project.project.file.clone(),
            document: Document::new(project, queries),
        }),
        None => Err(SaveProjectFailedMessage { project: message.project, error: SaveProjectError::NotAProject }),
    }
}

/// Reports the outcome of writing a project's file.
pub fn save_outcome(job_project: u64, written: Result<(), String>) -> (r: Result<SaveProjectCompleteMessage, SaveProjectFailedMessage>)
    ensures
        match written {
            Ok(()) => r == Ok::<SaveProjectCompleteMessage, SaveProjectFailedMessage>(SaveProjectCompleteMessage { project: job_project }),
            Err(e) => r matches Err(f) && f.project == job_project && f.error == SaveProjectError::Write(e),
        },
{
    match written {
        Ok(()) => Ok(SaveProjectCompleteMessage { project: job_project }),
        Err(e) => Err(SaveProjectFailedMessage { project: job_project, error: SaveProjectError::Write(e) }),
    }
}

} // verus!
