//! The order of a conversion run, as a machine: each step takes what the last
//! piece of outside work reported and says what is to be done next.
//!
//! The caller performs the action and hands the machine the event that tells
//! how it went. The machine checks the cache, reads the selection only once the
//! resources are there, and lets nothing be written before both paths are known.

use vstd::prelude::*;

use crate::error::{PipelineError, RequiredResource, SelectionField};
use crate::resource::CacheFile;
use crate::selection::{SelectedPath, Snapshot};

verus! {

/// How a run ended.
#[derive(Debug, PartialEq, Eq)]
pub enum Outcome {
    /// The archive was written.
    Completed,
    /// The user chose not to go on without the correction script.
    Declined,
    /// The run stopped on this failure.
    Failed(PipelineError),
}

/// Where a run stands.
#[derive(Debug, PartialEq, Eq)]
pub enum ConvertState {
    /// Not begun.
    Idle,
    /// Asked whether the catalog of sources is cached.
    CheckingSources,
    /// Asked whether the catalog of parsers is cached.
    CheckingParsers,
    /// Asked whether the correction script is cached.
    CheckingScript,
    /// Asked the user whether to go on without the correction script.
    AwaitingConfirmation,
    /// Asked for the two paths.
    ReadingSelection { script: bool },
    /// The backup is being decoded.
    Decoding { script: bool, save: SelectedPath },
    /// The converter is being built from the two catalogs.
    BuildingContext { script: bool, save: SelectedPath },
    /// The correction script is being attached to the converter.
    AttachingScript { save: SelectedPath },
    /// The backup is being converted.
    Converting { save: SelectedPath },
    /// The result is being packaged and written.
    Packaging,
    /// Over.
    Finished,
}

/// What the caller reports.
#[derive(Debug, PartialEq, Eq)]
pub enum ConvertEvent {
    /// A conversion was asked for.
    Start,
    /// Whether the file asked about is in the cache.
    Exists(bool),
    /// Whether the user wants to go on.
    Confirmed(bool),
    /// The two paths as they were read.
    Selected(Snapshot),
    /// The work asked for was done.
    Succeeded,
    /// The work asked for failed; the cause, in words.
    Failed(String),
}

/// What the caller is to do next.
#[derive(Debug, PartialEq, Eq)]
pub enum ConvertAction {
    /// Find out whether this file is in the cache.
    CheckFile(CacheFile),
    /// Ask the user whether to go on without the correction script.
    AskContinue,
    /// Read the two paths.
    ReadSelection,
    /// Open the backup at this place and decode it.
    Decode(SelectedPath),
    /// Build the converter from the catalogs of parsers and of sources.
    BuildContext,
    /// Attach the correction script to the converter.
    AttachScript,
    /// Convert the decoded backup.
    Convert,
    /// Package the result and write the archive to this place.
    Package(SelectedPath),
    /// Tell how the run ended.
    Finish(Outcome),
    /// Nothing: the event does not belong to the step the run is at.
    Ignore,
}

/// The run stops on `error`.
pub open spec fn stop(error: PipelineError) -> (ConvertState, ConvertAction) {
    (ConvertState::Finished, ConvertAction::Finish(Outcome::Failed(error)))
}

/// The step taken from `state` on `event`: the state after it and the action it asks for.
pub open spec fn next(state: ConvertState, event: ConvertEvent) -> (ConvertState, ConvertAction) {
    match (state, event) {
        (ConvertState::Idle, ConvertEvent::Start) => (
            ConvertState::CheckingSources,
            ConvertAction::CheckFile(CacheFile::Sources),
        ),
        (ConvertState::CheckingSources, ConvertEvent::Exists(found)) => if found {
            (ConvertState::CheckingParsers, ConvertAction::CheckFile(CacheFile::ParserCatalog))
        } else {
            stop(PipelineError::MissingResource(RequiredResource::Sources))
        },
        (ConvertState::CheckingParsers, ConvertEvent::Exists(found)) => if found {
            (ConvertState::CheckingScript, ConvertAction::CheckFile(CacheFile::Script))
        } else {
            stop(PipelineError::MissingResource(RequiredResource::Parsers))
        },
        (ConvertState::CheckingScript, ConvertEvent::Exists(found)) => if found {
            (ConvertState::ReadingSelection { script: true }, ConvertAction::ReadSelection)
        } else {
            (ConvertState::AwaitingConfirmation, ConvertAction::AskContinue)
        },
        (ConvertState::AwaitingConfirmation, ConvertEvent::Confirmed(go_on)) => if go_on {
            (ConvertState::ReadingSelection { script: false }, ConvertAction::ReadSelection)
        } else {
            (ConvertState::Finished, ConvertAction::Finish(Outcome::Declined))
        },
        (ConvertState::ReadingSelection { script }, ConvertEvent::Selected(paths)) => match (
            paths.backup_path,
            paths.save_path,
        ) {
            (Some(backup), Some(save)) => (
                ConvertState::Decoding { script, save },
                ConvertAction::Decode(backup),
            ),
            (_, None) => stop(PipelineError::MissingSelection(SelectionField::Save)),
            (None, _) => stop(PipelineError::MissingSelection(SelectionField::Backup)),
        },
        (ConvertState::Decoding { script, save }, ConvertEvent::Succeeded) => (
            ConvertState::BuildingContext { script, save },
            ConvertAction::BuildContext,
        ),
        (ConvertState::Decoding { .. }, ConvertEvent::Failed(cause)) => stop(
            PipelineError::DecodeError(cause),
        ),
        (ConvertState::BuildingContext { script, save }, ConvertEvent::Succeeded) => if script {
            (ConvertState::AttachingScript { save }, ConvertAction::AttachScript)
        } else {
            (ConvertState::Converting { save }, ConvertAction::Convert)
        },
        (ConvertState::BuildingContext { .. }, ConvertEvent::Failed(cause)) => stop(
            PipelineError::ContextBuildError(cause),
        ),
        (ConvertState::AttachingScript { save }, ConvertEvent::Succeeded) => (
            ConvertState::Converting { save },
            ConvertAction::Convert,
        ),
        (ConvertState::AttachingScript { .. }, ConvertEvent::Failed(cause)) => stop(
            PipelineError::ContextBuildError(cause),
        ),
        (ConvertState::Converting { save }, ConvertEvent::Succeeded) => (
            ConvertState::Packaging,
            ConvertAction::Package(save),
        ),
        (ConvertState::Packaging, ConvertEvent::Succeeded) => (
            ConvertState::Finished,
            ConvertAction::Finish(Outcome::Completed),
        ),
        (ConvertState::Packaging, ConvertEvent::Failed(cause)) => stop(
            PipelineError::ArchiveWriteError(cause),
        ),
        (state, _) => (state, ConvertAction::Ignore),
    }
}

/// Takes one step of a run: from where it stands and what the caller reports
/// to where it stands next and what the caller is to do.
pub fn step(state: ConvertState, event: ConvertEvent) -> (r: (ConvertState, ConvertAction))
    ensures
        r == next(state, event),
{
    match (state, event) {
        (ConvertState::Idle, ConvertEvent::Start) => (
            ConvertState::CheckingSources,
            ConvertAction::CheckFile(CacheFile::Sources),
        ),
        (ConvertState::CheckingSources, ConvertEvent::Exists(found)) => {
            if found {
                (ConvertState::CheckingParsers, ConvertAction::CheckFile(CacheFile::ParserCatalog))
            } else {
                halt(PipelineError::MissingResource(RequiredResource::Sources))
            }
        },
        (ConvertState::CheckingParsers, ConvertEvent::Exists(found)) => {
            if found {
                (ConvertState::CheckingScript, ConvertAction::CheckFile(CacheFile::Script))
            } else {
                halt(PipelineError::MissingResource(RequiredResource::Parsers))
            }
        },
        (ConvertState::CheckingScript, ConvertEvent::Exists(found)) => {
            if found {
                (ConvertState::ReadingSelection { script: true }, ConvertAction::ReadSelection)
            } else {
                (ConvertState::AwaitingConfirmation, ConvertAction::AskContinue)
            }
        },
        (ConvertState::AwaitingConfirmation, ConvertEvent::Confirmed(go_on)) => {
            if go_on {
                (ConvertState::ReadingSelection { script: false }, ConvertAction::ReadSelection)
            } else {
                (ConvertState::Finished, ConvertAction::Finish(Outcome::Declined))
            }
        },
        (ConvertState::ReadingSelection { script }, ConvertEvent::Selected(paths)) => {
            match (paths.backup_path, paths.save_path) {
                (Some(backup), Some(save)) => (
                    ConvertState::Decoding { script, save },
                    ConvertAction::Decode(backup),
                ),
                (_, None) => halt(PipelineError::MissingSelection(SelectionField::Save)),
                (None, _) => halt(PipelineError::MissingSelection(SelectionField::Backup)),
            }
        },
        (ConvertState::Decoding { script, save }, ConvertEvent::Succeeded) => (
            ConvertState::BuildingContext { script, save },
            ConvertAction::BuildContext,
        ),
        (ConvertState::Decoding { .. }, ConvertEvent::Failed(cause)) => halt(
            PipelineError::DecodeError(cause),
        ),
        (ConvertState::BuildingContext { script, save }, ConvertEvent::Succeeded) => {
            if script {
                (ConvertState::AttachingScript { save }, ConvertAction::AttachScript)
            } else {
                (ConvertState::Converting { save }, ConvertAction::Convert)
            }
        },
        (ConvertState::BuildingContext { .. }, ConvertEvent::Failed(cause)) => halt(
            PipelineError::ContextBuildError(cause),
        ),
        (ConvertState::AttachingScript { save }, ConvertEvent::Succeeded) => (
            ConvertState::Converting { save },
            ConvertAction::Convert,
        ),
        (ConvertState::AttachingScript { .. }, ConvertEvent::Failed(cause)) => halt(
            PipelineError::ContextBuildError(cause),
        ),
        (ConvertState::Converting { save }, ConvertEvent::Succeeded) => (
            ConvertState::Packaging,
            ConvertAction::Package(save),
        ),
        (ConvertState::Packaging, ConvertEvent::Succeeded) => (
            ConvertState::Finished,
            ConvertAction::Finish(Outcome::Completed),
        ),
        (ConvertState::Packaging, ConvertEvent::Failed(cause)) => halt(
            PipelineError::ArchiveWriteError(cause),
        ),
        (state, _) => (state, ConvertAction::Ignore),
    }
}

/// Ends the run on `error`.
fn halt(error: PipelineError) -> (r: (ConvertState, ConvertAction))
    ensures
        r == stop(error),
{
    (ConvertState::Finished, ConvertAction::Finish(Outcome::Failed(error)))
}

/// Whether a run in `state` has read both paths.
pub open spec fn selection_known(state: ConvertState) -> bool {
    state is Decoding || state is BuildingContext || state is AttachingScript
        || state is Converting || state is Packaging
}

/// Whether `action` opens, reads or writes a file. Asking whether a file is
/// cached does not.
pub open spec fn touches_files(action: ConvertAction) -> bool {
    action is Decode || action is BuildContext || action is AttachScript || action is Convert
        || action is Package
}

/// Where a run stands after `events`, begun in `state`, and the actions it
/// asked for on the way, one for each event.
pub open spec fn run_from(state: ConvertState, events: Seq<ConvertEvent>) -> (
    ConvertState,
    Seq<ConvertAction>,
)
    decreases events.len(),
{
    if events.len() == 0 {
        (state, seq![])
    } else {
        let before = run_from(state, events.drop_last());
        let last = next(before.0, events.last());
        (last.0, before.1.push(last.1))
    }
}

/// The path that a selection is reported to lack: the destination where it is
/// missing, the backup where only the backup is.
pub open spec fn missing_field(paths: Snapshot) -> SelectionField {
    if paths.save_path is None {
        SelectionField::Save
    } else {
        SelectionField::Backup
    }
}

/// A run that reads a selection without a backup or without a destination
/// ends there, on `MissingSelection` for the path that is missing.
pub proof fn lemma_missing_selection_stops(script: bool, paths: Snapshot)
    requires
        paths.backup_path is None || paths.save_path is None,
    ensures
        next(ConvertState::ReadingSelection { script }, ConvertEvent::Selected(paths)) == stop(
            PipelineError::MissingSelection(missing_field(paths)),
        ),
{
}

/// A step asks for work on files only once both paths are known: the run has
/// read them before, or reads them, both set, in this very step.
pub proof fn lemma_file_work_needs_selection(state: ConvertState, event: ConvertEvent)
    requires
        touches_files(next(state, event).1),
    ensures
        selection_known(state) || (state is ReadingSelection && (event matches ConvertEvent::Selected(
            paths,
        ) && paths.backup_path is Some && paths.save_path is Some)),
{
}

/// A run that has ended takes no further step.
pub proof fn lemma_finished_is_final(event: ConvertEvent)
    ensures
        next(ConvertState::Finished, event) == (ConvertState::Finished, ConvertAction::Ignore),
{
}

/// A run in which no selection with both paths is ever read asks for no work
/// on files: nothing is opened, decoded or written.
pub proof fn lemma_no_file_work_without_selection(events: Seq<ConvertEvent>)
    requires
        forall|i: int|
            0 <= i < events.len() ==> ((#[trigger] events[i]) matches ConvertEvent::Selected(paths)
                ==> paths.backup_path is None || paths.save_path is None),
    ensures
        !selection_known(run_from(ConvertState::Idle, events).0),
        run_from(ConvertState::Idle, events).1.len() == events.len(),
        forall|j: int|
            0 <= j < events.len() ==> !touches_files(
                #[trigger] run_from(ConvertState::Idle, events).1[j],
            ),
    decreases events.len(),
{
    if events.len() > 0 {
        let earlier = events.drop_last();
        assert forall|i: int| 0 <= i < earlier.len() implies ((
        #[trigger] earlier[i]) matches ConvertEvent::Selected(paths) ==> paths.backup_path is None
            || paths.save_path is None) by {
            assert(earlier[i] == events[i]);
        }
        lemma_no_file_work_without_selection(earlier);
        let before = run_from(ConvertState::Idle, earlier);
        let event = events.last();
        assert(event == events[events.len() - 1]);
        if touches_files(next(before.0, event).1) {
            lemma_file_work_needs_selection(before.0, event);
        }
    }
}

/// The destination a run in `state` will write to, once it has read one.
pub open spec fn destination(state: ConvertState) -> Option<SelectedPath> {
    match state {
        ConvertState::Decoding { save, .. } => Some(save),
        ConvertState::BuildingContext { save, .. } => Some(save),
        ConvertState::AttachingScript { save } => Some(save),
        ConvertState::Converting { save } => Some(save),
        _ => None,
    }
}

/// Whether `events` hold a selection with both paths set and `save` as its destination.
pub open spec fn selected_destination(events: Seq<ConvertEvent>, save: SelectedPath) -> bool {
    exists|i: int|
        0 <= i < events.len() && ((#[trigger] events[i]) matches ConvertEvent::Selected(paths)
            && paths.backup_path is Some && paths.save_path == Some(save))
}

/// Whatever a run writes, it writes to a destination that it read, together
/// with a backup, in a selection before.
pub proof fn lemma_writes_to_selected_destination(events: Seq<ConvertEvent>)
    ensures
        run_from(ConvertState::Idle, events).1.len() == events.len(),
        destination(run_from(ConvertState::Idle, events).0) matches Some(save)
            ==> selected_destination(events, save),
        forall|j: int|
            0 <= j < events.len() ==> ((#[trigger] run_from(
                ConvertState::Idle,
                events,
            ).1[j]) matches ConvertAction::Package(save) ==> selected_destination(events, save)),
    decreases events.len(),
{
    if events.len() > 0 {
        let earlier = events.drop_last();
        lemma_writes_to_selected_destination(earlier);
        let before = run_from(ConvertState::Idle, earlier);
        let event = events.last();
        let after = next(before.0, event);
        let all = run_from(ConvertState::Idle, events);
        assert forall|save: SelectedPath| selected_destination(earlier, save)
            implies selected_destination(events, save) by {
            let i = choose|i: int|
                0 <= i < earlier.len() && ((#[trigger] earlier[i]) matches ConvertEvent::Selected(
                    paths,
                ) && paths.backup_path is Some && paths.save_path == Some(save));
            assert(events[i] == earlier[i]);
        }
        if destination(after.0) is Some && destination(before.0) != destination(after.0) {
            assert(events[events.len() - 1] == event);
            assert(selected_destination(events, destination(after.0)->0));
        }
        assert forall|j: int| 0 <= j < events.len() implies ((
        #[trigger] all.1[j]) matches ConvertAction::Package(save) ==> selected_destination(
            events,
            save,
        )) by {
            if j < earlier.len() {
                assert(all.1[j] == before.1[j]);
            } else {
                assert(all.1[j] == after.1);
            }
        }
    }
}

} // verus!
