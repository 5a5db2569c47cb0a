//! Bringing a configuration to disk.
//!
//! The configuration is written first. Only when the storage has confirmed it
//! is the version file written, so that whoever finds a version file finds a
//! complete configuration beside it. A repository left without a version file
//! does not exist yet, and may simply be created again.
//!
//! The writing itself is the caller's work. `Repo::write` decides, from how
//! far the work has come and what the caller reports, what is to be done
//! next.

use vstd::prelude::*;
use vstd::string::*;
use crate::decimal::{decimal, to_decimal};
use crate::document::{Document, EntryView};
use crate::error::ConfigError;
use crate::layout::{CONFIG_YML_FILE, VERSION_FILE};
use crate::repo::{Repo, RepoView, REPO_VERSION_CURRENT};
use crate::schema::rendered;

verus! {

/// A file to be written below the repository's root.
#[derive(Debug, PartialEq, Eq)]
pub struct WriteRequest {
    pub path: String,
    pub data: Vec<u8>,
}

/// How far the writing of a configuration has come.
#[derive(Copy, Clone, Debug, PartialEq, Eq, Structural)]
pub enum Commit {
    /// Nothing has been asked yet.
    Uninitialized,
    /// The caller was asked for the text of the configuration.
    Rendering,
    /// The configuration file was handed to the storage.
    ConfigSubmitted,
    /// The configuration file is on disk and the version file was handed to
    /// the storage.
    MarkerSubmitted,
    /// Both files are on disk.
    Committed,
    /// The writing was given up. No version file was written after that.
    Failed(ConfigError),
}

/// What the caller reports to the writing of a configuration.
#[derive(Debug, PartialEq, Eq)]
pub enum CommitEvent {
    /// The writing is to start.
    Begin,
    /// The answer to `Render`: the text of the document.
    Rendered(Vec<u8>),
    /// The answer to `Write`: whether the storage confirmed the file.
    Written(bool),
}

/// What a `CommitEvent` holds.
pub enum CommitEventView {
    Begin,
    Rendered(Seq<u8>),
    Written(bool),
}

/// What the caller is to do next in the writing of a configuration.
#[derive(Debug, PartialEq, Eq)]
pub enum CommitAction {
    /// Turn this document into text.
    Render(Document),
    /// Write this file and wait until the storage has confirmed it.
    Write(WriteRequest),
    /// Nothing more: the writing has ended so.
    Finish(Result<(), ConfigError>),
}

/// What a `CommitAction` holds.
pub enum CommitActionView {
    Render(Seq<EntryView>),
    Write { path: Seq<char>, data: Seq<u8> },
    Finish(Result<(), ConfigError>),
}

impl View for CommitEvent {
    type V = CommitEventView;

    open spec fn view(&self) -> CommitEventView {
        match self {
            CommitEvent::Begin => CommitEventView::Begin,
            CommitEvent::Rendered(text) => CommitEventView::Rendered(text@),
            CommitEvent::Written(confirmed) => CommitEventView::Written(*confirmed),
        }
    }
}

impl View for CommitAction {
    type V = CommitActionView;

    open spec fn view(&self) -> CommitActionView {
        match self {
            CommitAction::Render(doc) => CommitActionView::Render(doc@),
            CommitAction::Write(request) => CommitActionView::Write {
                path: request.path@,
                data: request.data@,
            },
            CommitAction::Finish(end) => CommitActionView::Finish(*end),
        }
    }
}

impl CommitActionView {
    /// Whether the action writes the version file.
    pub open spec fn writes_marker(self) -> bool {
        self matches CommitActionView::Write { path, .. } && path == VERSION_FILE@
    }
}

/// The end of a writing that is given up for `e`.
pub open spec fn given_up(e: ConfigError) -> (Commit, CommitActionView) {
    (Commit::Failed(e), CommitActionView::Finish(Err(e)))
}

/// One step in the writing of a configuration: the next phase and what the
/// caller is to do, from the phase and the caller's report.
///
/// A configuration that may not be used is refused before anything is
/// written. The version file is asked for in one place only: when the
/// storage has confirmed the configuration file. A write that the storage
/// did not confirm ends the writing with `StorageFault`, and a report that
/// does not answer what was asked ends it with `EngineFault`.
pub open spec fn commit_step(repo: RepoView, phase: Commit, event: CommitEventView) -> (
    Commit,
    CommitActionView,
) {
    match (phase, event) {
        (Commit::Committed, _) => (Commit::Committed, CommitActionView::Finish(Ok(()))),
        (Commit::Failed(e), _) => given_up(e),
        (Commit::Uninitialized, CommitEventView::Begin) => match repo.checked() {
            Ok(_) => (Commit::Rendering, CommitActionView::Render(rendered(repo))),
            Err(e) => given_up(e),
        },
        (Commit::Rendering, CommitEventView::Rendered(text)) => (
            Commit::ConfigSubmitted,
            CommitActionView::Write { path: CONFIG_YML_FILE@, data: text },
        ),
        (Commit::ConfigSubmitted, CommitEventView::Written(confirmed)) => if confirmed {
            (
                Commit::MarkerSubmitted,
                CommitActionView::Write {
                    path: VERSION_FILE@,
                    data: decimal(REPO_VERSION_CURRENT as nat),
                },
            )
        } else {
            given_up(ConfigError::StorageFault)
        },
        (Commit::MarkerSubmitted, CommitEventView::Written(confirmed)) => if confirmed {
            (Commit::Committed, CommitActionView::Finish(Ok(())))
        } else {
            given_up(ConfigError::StorageFault)
        },
        _ => given_up(ConfigError::EngineFault),
    }
}

/// Whether no step of the writing that starts in `phase` and meets `events`,
/// one after the other, asks for the version file.
pub open spec fn marker_never_written(
    repo: RepoView,
    phase: Commit,
    events: Seq<CommitEventView>,
) -> bool
    decreases events.len(),
{
    if events.len() == 0 {
        true
    } else {
        let step = commit_step(repo, phase, events[0]);
        !step.1.writes_marker() && marker_never_written(repo, step.0, events.drop_first())
    }
}

/// The request to write the version file: the version in decimal digits.
pub fn write_version_file(version: u32) -> (request: WriteRequest)
    ensures
        request.path@ == VERSION_FILE@,
        request.data@ == decimal(version as nat),
{
    WriteRequest { path: String::from_str(VERSION_FILE), data: to_decimal(version) }
}

/// The end of a writing that is given up for `e`.
fn give_up(e: ConfigError) -> (step: (Commit, CommitAction))
    ensures
        (step.0, step.1@) == given_up(e),
{
    (Commit::Failed(e), CommitAction::Finish(Err(e)))
}

impl Repo {
    /// One step in bringing this configuration to disk. The caller starts
    /// with `Commit::Uninitialized` and `CommitEvent::Begin`, does what the
    /// returned action says, and reports the outcome together with the
    /// returned phase, until the action is `Finish`.
    pub fn write(&self, phase: Commit, event: CommitEvent) -> (step: (Commit, CommitAction))
        ensures
            (step.0, step.1@) == commit_step(self@, phase, event@),
    {
        match phase {
            Commit::Committed => (Commit::Committed, CommitAction::Finish(Ok(()))),
            Commit::Failed(e) => give_up(e),
            Commit::Uninitialized => match event {
                CommitEvent::Begin => match self.validate() {
                    Ok(_) => (Commit::Rendering, CommitAction::Render(self.to_document())),
                    Err(e) => give_up(e),
                },
                _ => give_up(ConfigError::EngineFault),
            },
            Commit::Rendering => match event {
                CommitEvent::Rendered(text) => (
                    Commit::ConfigSubmitted,
                    CommitAction::Write(
                        WriteRequest { path: String::from_str(CONFIG_YML_FILE), data: text },
                    ),
                ),
                _ => give_up(ConfigError::EngineFault),
            },
            Commit::ConfigSubmitted => match event {
                CommitEvent::Written(true) => (
                    Commit::MarkerSubmitted,
                    CommitAction::Write(write_version_file(REPO_VERSION_CURRENT)),
                ),
                CommitEvent::Written(false) => give_up(ConfigError::StorageFault),
                _ => give_up(ConfigError::EngineFault),
            },
            Commit::MarkerSubmitted => match event {
                CommitEvent::Written(true) => (Commit::Committed, CommitAction::Finish(Ok(()))),
                CommitEvent::Written(false) => give_up(ConfigError::StorageFault),
                _ => give_up(ConfigError::EngineFault),
            },
        }
    }
}

/// The version file is asked for only in answer to the storage's
/// confirmation of the configuration file, and it then holds the current
/// version; and the writing is reported as done only in answer to the
/// confirmation of the version file.
pub proof fn lemma_marker_follows_config(repo: RepoView, phase: Commit, event: CommitEventView)
    ensures
        commit_step(repo, phase, event).1.writes_marker() ==> {
            &&& phase == Commit::ConfigSubmitted
            &&& event == CommitEventView::Written(true)
            &&& commit_step(repo, phase, event).0 == Commit::MarkerSubmitted
            &&& commit_step(repo, phase, event).1 == (CommitActionView::Write {
                path: VERSION_FILE@,
                data: decimal(REPO_VERSION_CURRENT as nat),
            })
        },
        commit_step(repo, phase, event).0 == Commit::Committed ==> {
            ||| phase == Commit::Committed
            ||| phase == Commit::MarkerSubmitted && event == CommitEventView::Written(true)
        },
        commit_step(repo, phase, event).1 is Render ==> repo.checked() is Ok,
{
    lemma_file_names();
}

/// The two files have different names.
proof fn lemma_file_names()
    ensures
        CONFIG_YML_FILE@ != VERSION_FILE@,
{
    reveal_strlit("config.yml");
    reveal_strlit("version");
    assert(CONFIG_YML_FILE@.len() == 10);
    assert(VERSION_FILE@.len() == 7);
}

/// Once the writing is given up, nothing that the caller reports makes it
/// ask for the version file.
pub proof fn lemma_failed_writes_nothing(
    repo: RepoView,
    e: ConfigError,
    events: Seq<CommitEventView>,
)
    ensures
        marker_never_written(repo, Commit::Failed(e), events),
    decreases events.len(),
{
    if events.len() > 0 {
        lemma_failed_writes_nothing(repo, e, events.drop_first());
    }
}

/// Where the storage does not confirm the configuration file, the version
/// file is never asked for: not before that write, and not after it,
/// whatever the caller reports from then on.
pub proof fn lemma_failed_config_leaves_no_marker(
    repo: RepoView,
    text: Seq<u8>,
    later: Seq<CommitEventView>,
)
    ensures
        marker_never_written(
            repo,
            Commit::Uninitialized,
            seq![
                CommitEventView::Begin,
                CommitEventView::Rendered(text),
                CommitEventView::Written(false),
            ] + later,
        ),
{
    lemma_file_names();
    let events = seq![
        CommitEventView::Begin,
        CommitEventView::Rendered(text),
        CommitEventView::Written(false),
    ] + later;
    let first = commit_step(repo, Commit::Uninitialized, events[0]);
    let rest1 = events.drop_first();
    let second = commit_step(repo, first.0, rest1[0]);
    let rest2 = rest1.drop_first();
    let third = commit_step(repo, second.0, rest2[0]);
    let rest3 = rest2.drop_first();
    assert(rest3 =~= later);
    match first.0 {
        Commit::Failed(e) => {
            lemma_failed_writes_nothing(repo, e, rest1);
        },
        _ => {
            assert(second.0 == Commit::ConfigSubmitted);
            assert(third.0 == Commit::Failed(ConfigError::StorageFault));
            lemma_failed_writes_nothing(repo, ConfigError::StorageFault, rest3);
            assert(marker_never_written(repo, second.0, rest2));
            assert(marker_never_written(repo, first.0, rest1));
        },
    }
}

} // verus!
