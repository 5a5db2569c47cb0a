//! Reading a configuration back from disk.
//!
//! The version file is looked for first. Without it there is no repository.
//! With it, the configuration beside it has to be there and has to be one
//! that may be used.
//!
//! The reading itself, and the parsing of the text, are the caller's work.
//! `load` decides, from how far the work has come and what the caller
//! reports, what is to be done next.

use vstd::prelude::*;
use vstd::string::*;
use crate::decimal::{decimal, decimal_value, from_decimal, lemma_version_read_back};
use crate::document::{Document, EntryView};
use crate::error::ConfigError;
use crate::layout::{CONFIG_YML_FILE, VERSION_FILE};
use crate::repo::{Repo, RepoView, REPO_VERSION_CURRENT};
use crate::schema::{lemma_round_trip, parsed, rendered};

verus! {

/// How far the reading of a configuration has come.
#[derive(Copy, Clone, Debug, PartialEq, Eq, Structural)]
pub enum Load {
    /// Nothing has been asked yet.
    Start,
    /// The storage was asked for the version file.
    MarkerRequested,
    /// The version file is there and the storage was asked for the
    /// configuration file.
    ConfigRequested,
    /// The caller was asked to parse the text of the configuration.
    Parsing,
    /// The reading has ended.
    Closed,
}

/// What the storage answered when it was asked for a file.
#[derive(Debug, PartialEq, Eq)]
pub enum FileRead {
    Found(Vec<u8>),
    Missing,
    Failed,
}

/// What a `FileRead` holds.
pub enum FileReadView {
    Found(Seq<u8>),
    Missing,
    Failed,
}

/// What the caller reports to the reading of a configuration.
#[derive(Debug, PartialEq, Eq)]
pub enum LoadEvent {
    /// The reading is to start.
    Begin,
    /// The answer to `Read`.
    Read(FileRead),
    /// The answer to `Parse`: the document, or nothing where the text is not
    /// one.
    Parsed(Option<Document>),
}

/// What a `LoadEvent` holds.
pub enum LoadEventView {
    Begin,
    Read(FileReadView),
    Parsed(Option<Seq<EntryView>>),
}

/// How the reading of a configuration ended.
#[derive(Debug, PartialEq, Eq)]
pub enum Loaded {
    /// There is no repository here.
    NotFound,
    /// The repository's configuration.
    Found(Repo),
    /// There is a repository, and it cannot be used.
    Failed(ConfigError),
}

/// What a `Loaded` holds.
pub enum LoadedView {
    NotFound,
    Found(RepoView),
    Failed(ConfigError),
}

/// What the caller is to do next in the reading of a configuration.
#[derive(Debug, PartialEq, Eq)]
pub enum LoadAction {
    /// Read the file at this path below the repository's root.
    Read { path: String },
    /// Parse this text into a document.
    Parse(Vec<u8>),
    /// Nothing more: the reading has ended so.
    Finish(Loaded),
}

/// What a `LoadAction` holds.
pub enum LoadActionView {
    Read { path: Seq<char> },
    Parse(Seq<u8>),
    Finish(LoadedView),
}

impl View for FileRead {
    type V = FileReadView;

    open spec fn view(&self) -> FileReadView {
        match self {
            FileRead::Found(bytes) => FileReadView::Found(bytes@),
            FileRead::Missing => FileReadView::Missing,
            FileRead::Failed => FileReadView::Failed,
        }
    }
}

impl View for LoadEvent {
    type V = LoadEventView;

    open spec fn view(&self) -> LoadEventView {
        match self {
            LoadEvent::Begin => LoadEventView::Begin,
            LoadEvent::Read(answer) => LoadEventView::Read(answer@),
            LoadEvent::Parsed(Some(doc)) => LoadEventView::Parsed(Some(doc@)),
            LoadEvent::Parsed(None) => LoadEventView::Parsed(None),
        }
    }
}

impl View for Loaded {
    type V = LoadedView;

    open spec fn view(&self) -> LoadedView {
        match self {
            Loaded::NotFound => LoadedView::NotFound,
            Loaded::Found(repo) => LoadedView::Found(repo@),
            Loaded::Failed(e) => LoadedView::Failed(*e),
        }
    }
}

impl View for LoadAction {
    type V = LoadActionView;

    open spec fn view(&self) -> LoadActionView {
        match self {
            LoadAction::Read { path } => LoadActionView::Read { path: path@ },
            LoadAction::Parse(text) => LoadActionView::Parse(text@),
            LoadAction::Finish(end) => LoadActionView::Finish(end@),
        }
    }
}

/// The end of a reading with the given outcome.
pub open spec fn closed(end: LoadedView) -> (Load, LoadActionView) {
    (Load::Closed, LoadActionView::Finish(end))
}

/// One step in the reading of a configuration: the next phase and what the
/// caller is to do, from the phase and the caller's report.
///
/// A missing version file means that there is no repository. A version file
/// that is not a number in decimal digits, a configuration whose text is no
/// document, and a document that stands for no configuration are malformed;
/// a configuration of a version outside the supported range is unsupported.
/// A configuration file that is missing beside its version file, and a file
/// that the storage failed to read, are storage faults. A report that does
/// not answer what was asked ends the reading with `EngineFault`.
pub open spec fn load_step(phase: Load, event: LoadEventView) -> (Load, LoadActionView) {
    match (phase, event) {
        (Load::Start, LoadEventView::Begin) => (
            Load::MarkerRequested,
            LoadActionView::Read { path: VERSION_FILE@ },
        ),
        (Load::MarkerRequested, LoadEventView::Read(FileReadView::Missing)) => closed(
            LoadedView::NotFound,
        ),
        (Load::MarkerRequested, LoadEventView::Read(FileReadView::Found(marker))) => {
            if decimal_value(marker) is Some {
                (Load::ConfigRequested, LoadActionView::Read { path: CONFIG_YML_FILE@ })
            } else {
                closed(LoadedView::Failed(ConfigError::MalformedConfig))
            }
        },
        (Load::ConfigRequested, LoadEventView::Read(FileReadView::Found(text))) => (
            Load::Parsing,
            LoadActionView::Parse(text),
        ),
        (Load::MarkerRequested, LoadEventView::Read(FileReadView::Failed)) => closed(
            LoadedView::Failed(ConfigError::StorageFault),
        ),
        (Load::ConfigRequested, LoadEventView::Read(_)) => closed(
            LoadedView::Failed(ConfigError::StorageFault),
        ),
        (Load::Parsing, LoadEventView::Parsed(None)) => closed(
            LoadedView::Failed(ConfigError::MalformedConfig),
        ),
        (Load::Parsing, LoadEventView::Parsed(Some(doc))) => match parsed(doc) {
            Ok(repo) => closed(LoadedView::Found(repo)),
            Err(e) => closed(LoadedView::Failed(e)),
        },
        _ => closed(LoadedView::Failed(ConfigError::EngineFault)),
    }
}

/// The end of a reading that failed for `e`.
fn fail(e: ConfigError) -> (step: (Load, LoadAction))
    ensures
        (step.0, step.1@) == closed(LoadedView::Failed(e)),
{
    (Load::Closed, LoadAction::Finish(Loaded::Failed(e)))
}

/// One step in reading a configuration back. The caller starts with
/// `Load::Start` and `LoadEvent::Begin`, does what the returned action says,
/// and reports the outcome together with the returned phase, until the
/// action is `Finish`.
pub fn load(phase: Load, event: LoadEvent) -> (step: (Load, LoadAction))
    ensures
        (step.0, step.1@) == load_step(phase, event@),
{
    match phase {
        Load::Start => match event {
            LoadEvent::Begin => (
                Load::MarkerRequested,
                LoadAction::Read { path: String::from_str(VERSION_FILE) },
            ),
            _ => fail(ConfigError::EngineFault),
        },
        Load::MarkerRequested => match event {
            LoadEvent::Read(FileRead::Missing) => (
                Load::Closed,
                LoadAction::Finish(Loaded::NotFound),
            ),
            LoadEvent::Read(FileRead::Failed) => fail(ConfigError::StorageFault),
            LoadEvent::Read(FileRead::Found(marker)) => match from_decimal(marker.as_slice()) {
                Some(_) => (
                    Load::ConfigRequested,
                    LoadAction::Read { path: String::from_str(CONFIG_YML_FILE) },
                ),
                None => fail(ConfigError::MalformedConfig),
            },
            _ => fail(ConfigError::EngineFault),
        },
        Load::ConfigRequested => match event {
            LoadEvent::Read(FileRead::Found(text)) => (Load::Parsing, LoadAction::Parse(text)),
            LoadEvent::Read(_) => fail(ConfigError::StorageFault),
            _ => fail(ConfigError::EngineFault),
        },
        Load::Parsing => match event {
            LoadEvent::Parsed(None) => fail(ConfigError::MalformedConfig),
            LoadEvent::Parsed(Some(doc)) => match Repo::from_document(&doc) {
                Ok(repo) => (Load::Closed, LoadAction::Finish(Loaded::Found(repo))),
                Err(e) => fail(e),
            },
            _ => fail(ConfigError::EngineFault),
        },
        Load::Closed => fail(ConfigError::EngineFault),
    }
}

/// Where the version file is missing, the reading ends at once with "there
/// is no repository", and the configuration file is not even asked for.
pub proof fn lemma_no_marker_no_repository()
    ensures
        load_step(Load::Start, LoadEventView::Begin) == (
            Load::MarkerRequested,
            LoadActionView::Read { path: VERSION_FILE@ },
        ),
        load_step(Load::MarkerRequested, LoadEventView::Read(FileReadView::Missing)) == closed(
            LoadedView::NotFound,
        ),
{
}

/// The configuration file is asked for only when a version file was found
/// that holds a number.
pub proof fn lemma_config_read_after_marker(phase: Load, event: LoadEventView)
    requires
        load_step(phase, event).1 == (LoadActionView::Read { path: CONFIG_YML_FILE@ }),
    ensures
        phase == Load::MarkerRequested,
        event matches LoadEventView::Read(FileReadView::Found(marker)) && decimal_value(marker)
            is Some,
{
    reveal_strlit("config.yml");
    reveal_strlit("version");
    assert(CONFIG_YML_FILE@.len() == 10);
    assert(VERSION_FILE@.len() == 7);
}

/// What was written is read back: with the version file that a writing
/// leaves and the document that it rendered, the reading ends with the
/// configuration that was written, equal in every part.
pub proof fn lemma_written_is_loaded(repo: RepoView, text: Seq<u8>)
    requires
        repo.checked() is Ok,
    ensures
        load_step(
            Load::MarkerRequested,
            LoadEventView::Read(FileReadView::Found(decimal(REPO_VERSION_CURRENT as nat))),
        ).0 == Load::ConfigRequested,
        load_step(Load::ConfigRequested, LoadEventView::Read(FileReadView::Found(text))) == (
            Load::Parsing,
            LoadActionView::Parse(text),
        ),
        load_step(Load::Parsing, LoadEventView::Parsed(Some(rendered(repo)))) == closed(
            LoadedView::Found(repo),
        ),
{
    lemma_version_read_back(REPO_VERSION_CURRENT);
    lemma_round_trip(repo);
}

/// A stored configuration whose version is one beyond the current one ends
/// the reading as unsupported, whatever else it holds.
pub proof fn lemma_next_version_not_loaded(repo: RepoView)
    requires
        repo.version == REPO_VERSION_CURRENT + 1,
    ensures
        load_step(Load::Parsing, LoadEventView::Parsed(Some(rendered(repo)))) == closed(
            LoadedView::Failed(ConfigError::UnsupportedVersion),
        ),
{
    lemma_round_trip(repo);
}

} // verus!
