//! Fetching a resource into the cache, as a machine: what is asked of the
//! network and of the cache, in which order, and when the cache is touched.
//!
//! The body of a response goes to a staging file beside its destination and
//! takes the destination's place only once it is complete, so a transfer that
//! breaks off leaves the cache as it was.
//!
//! A download never asks before it overwrites. Whether a file that is there
//! may be replaced is settled by whoever asks for the download, before asking:
//! see [`overwrite_policy`].

use vstd::prelude::*;
use vstd::string::StringExecFns;

use crate::error::{NetworkFailure, PipelineError};
use crate::resource::{cache_file_name, CacheFile};
use crate::text::same_text;

verus! {

/// The one status that counts as success.
pub const STATUS_OK: u16 = 200;

/// What is put behind a file's name to name its staging file.
pub open spec fn staging_suffix() -> Seq<char> {
    ".part"@
}

/// The name of the staging file of `file_name`.
pub open spec fn staging_name_of(file_name: Seq<char>) -> Seq<char> {
    file_name + staging_suffix()
}

/// Whether a response with this status carries the resource.
pub fn is_success_status(status: u16) -> (ok: bool)
    ensures
        ok == (status == STATUS_OK),
{
    status == STATUS_OK
}

/// The name of the file that takes the body of a download for `file_name`
/// until the body is complete.
pub fn staging_name(file_name: &str) -> (name: String)
    ensures
        name@ == staging_name_of(file_name@),
{
    String::from_str(file_name).concat(".part")
}

/// Whether `file_name` is the archive of parsers, the one download that is
/// followed by deriving the parser catalog.
pub fn is_parser_archive(file_name: &str) -> (r: bool)
    ensures
        r == (file_name@ == cache_file_name(CacheFile::ParserArchive)),
{
    same_text(file_name, CacheFile::ParserArchive.name())
}

/// What to do about a download, given what is in the cache.
#[derive(Debug, Clone, Copy, PartialEq, Eq, Structural)]
pub enum Clearance {
    /// Ask the user whether the file may be overwritten.
    Ask,
    /// Ask for the download.
    Download,
    /// Leave the file as it is.
    Leave,
}

/// The policy on a file that may be there already: a file that is not there is
/// downloaded; one that is there is downloaded once the user has agreed, left
/// once the user has declined, and asked about before that.
pub open spec fn policy_of(exists: bool, answer: Option<bool>) -> Clearance {
    if !exists {
        Clearance::Download
    } else {
        match answer {
            None => Clearance::Ask,
            Some(true) => Clearance::Download,
            Some(false) => Clearance::Leave,
        }
    }
}

/// Decides, before a download is asked for, whether it is: `exists` says
/// whether the file is in the cache, `answer` what the user said, if asked.
pub fn overwrite_policy(exists: bool, answer: Option<bool>) -> (clearance: Clearance)
    ensures
        clearance == policy_of(exists, answer),
{
    if !exists {
        Clearance::Download
    } else {
        match answer {
            None => Clearance::Ask,
            Some(true) => Clearance::Download,
            Some(false) => Clearance::Leave,
        }
    }
}

/// How a download ended.
#[derive(Debug, PartialEq, Eq)]
pub enum DownloadOutcome {
    /// The resource is in the cache.
    Completed,
    /// The download stopped on this failure.
    Failed(PipelineError),
}

/// Where a download stands.
#[derive(Debug, PartialEq, Eq)]
pub enum DownloadState {
    /// Not begun.
    Idle,
    /// The request is out.
    Requesting { file_name: String },
    /// The body is being written to the staging file.
    Receiving { file_name: String },
    /// The staging file is taking the place of the file.
    Committing { file_name: String },
    /// The parser catalog is being derived from the archive.
    Transforming,
    /// Over.
    Finished,
}

/// What the caller reports.
#[derive(Debug, PartialEq, Eq)]
pub enum DownloadEvent {
    /// A download of `url` into `file_name` was asked for.
    Request { file_name: String, url: String },
    /// The server answered with this status.
    Responded(u16),
    /// The work asked for was done.
    Succeeded,
    /// The work asked for failed; the cause, in words.
    Failed(String),
}

/// What the caller is to do next.
#[derive(Debug, PartialEq, Eq)]
pub enum DownloadAction {
    /// Send a GET request to this address.
    Fetch(String),
    /// Write the body of the response to the staging file of this file,
    /// created or emptied first, whatever is in the cache under the file's name.
    Receive(String),
    /// Put the staging file of this file in the file's place.
    Commit(String),
    /// Derive the parser catalog from the archive of parsers.
    Transform,
    /// Tell how the download ended.
    Finish(DownloadOutcome),
    /// Nothing: the event does not belong to the step the download is at.
    Ignore,
}

/// The download stops on `error`.
pub open spec fn stop(error: PipelineError) -> (DownloadState, DownloadAction) {
    (DownloadState::Finished, DownloadAction::Finish(DownloadOutcome::Failed(error)))
}

/// The step taken from `state` on `event`: the state after it and the action it asks for.
pub open spec fn next(state: DownloadState, event: DownloadEvent) -> (DownloadState, DownloadAction) {
    match (state, event) {
        (DownloadState::Idle, DownloadEvent::Request { file_name, url }) => (
            DownloadState::Requesting { file_name },
            DownloadAction::Fetch(url),
        ),
        (DownloadState::Requesting { file_name }, DownloadEvent::Responded(status)) => if status
            == STATUS_OK {
            (DownloadState::Receiving { file_name }, DownloadAction::Receive(file_name))
        } else {
            stop(PipelineError::NetworkError(NetworkFailure::Status(status)))
        },
        (DownloadState::Requesting { .. }, DownloadEvent::Failed(cause)) => stop(
            PipelineError::NetworkError(NetworkFailure::Transport(cause)),
        ),
        (DownloadState::Receiving { file_name }, DownloadEvent::Succeeded) => (
            DownloadState::Committing { file_name },
            DownloadAction::Commit(file_name),
        ),
        (DownloadState::Receiving { .. }, DownloadEvent::Failed(cause)) => stop(
            PipelineError::NetworkError(NetworkFailure::Transport(cause)),
        ),
        (DownloadState::Committing { file_name }, DownloadEvent::Succeeded) => if file_name@
            == cache_file_name(CacheFile::ParserArchive) {
            (DownloadState::Transforming, DownloadAction::Transform)
        } else {
            (DownloadState::Finished, DownloadAction::Finish(DownloadOutcome::Completed))
        },
        (DownloadState::Committing { .. }, DownloadEvent::Failed(cause)) => stop(
            PipelineError::NetworkError(NetworkFailure::Transport(cause)),
        ),
        (DownloadState::Transforming, DownloadEvent::Succeeded) => (
            DownloadState::Finished,
            DownloadAction::Finish(DownloadOutcome::Completed),
        ),
        (DownloadState::Transforming, DownloadEvent::Failed(cause)) => stop(
            PipelineError::DerivedTransformError(cause),
        ),
        (state, _) => (state, DownloadAction::Ignore),
    }
}

/// Ends the download on `error`.
fn halt(error: PipelineError) -> (r: (DownloadState, DownloadAction))
    ensures
        r == stop(error),
{
    (DownloadState::Finished, DownloadAction::Finish(DownloadOutcome::Failed(error)))
}

/// Takes one step of a download: from where it stands and what the caller
/// reports to where it stands next and what the caller is to do.
pub fn step(state: DownloadState, event: DownloadEvent) -> (r: (DownloadState, DownloadAction))
    ensures
        r == next(state, event),
{
    match (state, event) {
        (DownloadState::Idle, DownloadEvent::Request { file_name, url }) => (
            DownloadState::Requesting { file_name },
            DownloadAction::Fetch(url),
        ),
        (DownloadState::Requesting { file_name }, DownloadEvent::Responded(status)) => {
            if is_success_status(status) {
                let target = file_name.clone();
                (DownloadState::Receiving { file_name }, DownloadAction::Receive(target))
            } else {
                halt(PipelineError::NetworkError(NetworkFailure::Status(status)))
            }
        },
        (DownloadState::Requesting { .. }, DownloadEvent::Failed(cause)) => halt(
            PipelineError::NetworkError(NetworkFailure::Transport(cause)),
        ),
        (DownloadState::Receiving { file_name }, DownloadEvent::Succeeded) => {
            let target = file_name.clone();
            (DownloadState::Committing { file_name }, DownloadAction::Commit(target))
        },
        (DownloadState::Receiving { .. }, DownloadEvent::Failed(cause)) => halt(
            PipelineError::NetworkError(NetworkFailure::Transport(cause)),
        ),
        (DownloadState::Committing { file_name }, DownloadEvent::Succeeded) => {
            if is_parser_archive(file_name.as_str()) {
                (DownloadState::Transforming, DownloadAction::Transform)
            } else {
                (DownloadState::Finished, DownloadAction::Finish(DownloadOutcome::Completed))
            }
        },
        (DownloadState::Committing { .. }, DownloadEvent::Failed(cause)) => halt(
            PipelineError::NetworkError(NetworkFailure::Transport(cause)),
        ),
        (DownloadState::Transforming, DownloadEvent::Succeeded) => (
            DownloadState::Finished,
            DownloadAction::Finish(DownloadOutcome::Completed),
        ),
        (DownloadState::Transforming, DownloadEvent::Failed(cause)) => halt(
            PipelineError::DerivedTransformError(cause),
        ),
        (state, _) => (state, DownloadAction::Ignore),
    }
}

/// Whether `action` writes to the cache directory: the staging file, the file
/// itself, or the derived catalog.
pub open spec fn touches_cache(action: DownloadAction) -> bool {
    action is Receive || action is Commit || action is Transform
}

/// Whether a download in `state` has seen the server answer with success.
pub open spec fn body_granted(state: DownloadState) -> bool {
    state is Receiving || state is Committing || state is Transforming
}

/// Where a download stands after `events`, begun in `state`, and the actions
/// it asked for on the way, one for each event.
pub open spec fn run_from(state: DownloadState, events: Seq<DownloadEvent>) -> (
    DownloadState,
    Seq<DownloadAction>,
)
    decreases events.len(),
{
    if events.len() == 0 {
        (state, seq![])
    } else {
        let before = run_from(state, events.drop_last());
        let last = next(before.0, events.last());
        (last.0, before.1.push(last.1))
    }
}

/// A download whose request is answered with success and whose body arrives
/// whole replaces the file, without a question about what was there.
pub proof fn lemma_complete_body_is_committed(file_name: String, url: String)
    ensures
        run_from(
            DownloadState::Idle,
            seq![
                DownloadEvent::Request { file_name, url },
                DownloadEvent::Responded(STATUS_OK),
                DownloadEvent::Succeeded,
            ],
        ) == (
            DownloadState::Committing { file_name },
            seq![
                DownloadAction::Fetch(url),
                DownloadAction::Receive(file_name),
                DownloadAction::Commit(file_name),
            ],
        ),
{
    let events = seq![
        DownloadEvent::Request { file_name, url },
        DownloadEvent::Responded(STATUS_OK),
        DownloadEvent::Succeeded,
    ];
    let two = events.drop_last();
    let one = two.drop_last();
    assert(one.drop_last() =~= Seq::<DownloadEvent>::empty());
    assert(run_from(DownloadState::Idle, one.drop_last()) == (
        DownloadState::Idle,
        Seq::<DownloadAction>::empty(),
    ));
    assert(one.last() == DownloadEvent::Request { file_name, url });
    assert(run_from(DownloadState::Idle, one).1 =~= seq![DownloadAction::Fetch(url)]);
    assert(two.last() == DownloadEvent::Responded(STATUS_OK));
    assert(run_from(DownloadState::Idle, two).1 =~= seq![
        DownloadAction::Fetch(url),
        DownloadAction::Receive(file_name),
    ]);
    assert(run_from(DownloadState::Idle, events).1 =~= seq![
        DownloadAction::Fetch(url),
        DownloadAction::Receive(file_name),
        DownloadAction::Commit(file_name),
    ]);
}

/// A status other than success ends the download on `NetworkError`, with that status.
pub proof fn lemma_refused_status_stops(file_name: String, status: u16)
    requires
        status != STATUS_OK,
    ensures
        next(DownloadState::Requesting { file_name }, DownloadEvent::Responded(status)) == stop(
            PipelineError::NetworkError(NetworkFailure::Status(status)),
        ),
{
}

/// A step writes to the cache directory only once the server has answered
/// with success: before this step, or in it.
pub proof fn lemma_cache_write_needs_success(state: DownloadState, event: DownloadEvent)
    requires
        touches_cache(next(state, event).1),
    ensures
        body_granted(state) || (state is Requesting && event == DownloadEvent::Responded(
            STATUS_OK,
        )),
{
}

/// A download in which the server never answers with success leaves the cache
/// directory alone: no staging file is written, no file replaced, no catalog
/// derived.
pub proof fn lemma_cache_untouched_without_success(events: Seq<DownloadEvent>)
    requires
        forall|i: int|
            0 <= i < events.len() ==> #[trigger] events[i] != DownloadEvent::Responded(STATUS_OK),
    ensures
        !body_granted(run_from(DownloadState::Idle, events).0),
        run_from(DownloadState::Idle, events).1.len() == events.len(),
        forall|j: int|
            0 <= j < events.len() ==> !touches_cache(
                #[trigger] run_from(DownloadState::Idle, events).1[j],
            ),
    decreases events.len(),
{
    if events.len() > 0 {
        let earlier = events.drop_last();
        assert forall|i: int| 0 <= i < earlier.len() implies #[trigger] earlier[i]
            != DownloadEvent::Responded(STATUS_OK) by {
            assert(earlier[i] == events[i]);
        }
        lemma_cache_untouched_without_success(earlier);
        let before = run_from(DownloadState::Idle, earlier);
        let event = events.last();
        assert(event == events[events.len() - 1]);
        if touches_cache(next(before.0, event).1) {
            lemma_cache_write_needs_success(before.0, event);
        }
    }
}

/// A file is replaced only by a body that was received whole: the staging
/// file is committed in the step that follows the end of the body, and under
/// the name the body was received for.
pub proof fn lemma_commit_follows_complete_body(state: DownloadState, event: DownloadEvent)
    requires
        next(state, event).1 is Commit,
    ensures
        event is Succeeded,
        state matches DownloadState::Receiving { file_name } && next(state, event).1
            == DownloadAction::Commit(file_name),
{
}

/// The parser catalog is derived after the archive of parsers was committed,
/// and after no other download.
pub proof fn lemma_transform_only_for_parser_archive(state: DownloadState, event: DownloadEvent)
    requires
        next(state, event).1 is Transform,
    ensures
        event is Succeeded,
        state matches DownloadState::Committing { file_name } && file_name@ == cache_file_name(
            CacheFile::ParserArchive,
        ),
{
}

/// Where deriving the parser catalog fails, the download ends on
/// `DerivedTransformError` and asks for nothing more: the archive stays.
pub proof fn lemma_failed_transform_keeps_archive(cause: String)
    ensures
        next(DownloadState::Transforming, DownloadEvent::Failed(cause)) == stop(
            PipelineError::DerivedTransformError(cause),
        ),
{
}

/// A download that has ended takes no further step.
pub proof fn lemma_finished_is_final(event: DownloadEvent)
    ensures
        next(DownloadState::Finished, event) == (DownloadState::Finished, DownloadAction::Ignore),
{
}

/// A staging file is never taken for a file of the cache: its name differs
/// from the name it was made from and from the name of every cache file.
pub proof fn lemma_staging_is_no_cache_file(file_name: Seq<char>, file: CacheFile)
    ensures
        staging_name_of(file_name) != file_name,
        staging_name_of(file_name) != cache_file_name(file),
{
    reveal_strlit(".part");
    reveal_strlit("tachi_sources.json");
    reveal_strlit("kotatsu_parsers.zip");
    reveal_strlit("kotatsu_parsers.json");
    reveal_strlit("correction.luau");
    let staged = staging_name_of(file_name);
    assert(".part"@.len() == 5);
    assert(staged.len() == file_name.len() + 5);
    assert(staged.last() == ".part"@[4]);
    assert(staged.last() == 't');
    let name = cache_file_name(file);
    assert("tachi_sources.json"@.len() == 18);
    assert("kotatsu_parsers.zip"@.len() == 19);
    assert("kotatsu_parsers.json"@.len() == 20);
    assert("correction.luau"@.len() == 15);
    assert(name.last() != 't') by {
        assert("tachi_sources.json"@[17] == 'n');
        assert("kotatsu_parsers.zip"@[18] == 'p');
        assert("kotatsu_parsers.json"@[19] == 'n');
        assert("correction.luau"@[14] == 'u');
    }
}

} // verus!
