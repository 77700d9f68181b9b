//! The upload handler as a state machine over plain values.
//!
//! The surrounding server owns the HTTP connection and the filesystem.
//! It performs one piece of outside work at a time — creating the upload
//! directory, pulling the next multipart part, creating a file, pulling a
//! chunk, writing a chunk — and feeds the outcome back as an [`Event`].
//! [`step`] answers with the next state and the next [`Action`] to
//! perform, until the terminal [`Action::Respond`].
use crate::filename::{joined, sanitized_of, target_path};
use vstd::pervasive::unreached;
use vstd::prelude::*;

verus! {

/// Status code of a successful upload.
pub const STATUS_OK: u16 = 200;

/// Status code of a failed upload.
pub const STATUS_INTERNAL_ERROR: u16 = 500;

/// The HTTP response that ends a request.
pub struct UploadResponse {
    pub status: u16,
    pub body: String,
}

/// What the next part of the multipart stream turned out to be.
///
/// A read error on the stream is reported as [`PartHeader::End`]: the
/// handler treats it the same as a cleanly exhausted stream.
pub enum PartHeader {
    /// The stream is exhausted (or failed to yield another part).
    End,
    /// A part that declares no filename.
    Unnamed,
    /// A part that declares the given raw filename.
    Named(String),
}

/// The outcome of the piece of outside work the handler asked for last.
pub enum Event {
    /// The upload directory exists (it was present or was created).
    DirCreated,
    /// The upload directory could not be created; the message says why.
    DirFailed(String),
    /// The next part of the stream, or its end.
    NextPartIs(PartHeader),
    /// The destination file was created (truncating any earlier file).
    FileCreated,
    /// The destination file could not be created; the message says why.
    FileFailed(String),
    /// The next chunk of the current part, or `None` at its end.
    ChunkIs(Option<Vec<u8>>),
    /// The chunk was appended to the destination file.
    ChunkWritten,
    /// The chunk could not be written; the message says why.
    WriteFailed(String),
}

/// The next piece of outside work the server must perform.
pub enum Action {
    /// Pull the next part from the multipart stream.
    PullPart,
    /// Create (truncate) the file at the given path.
    CreateFile(String),
    /// Pull the next chunk of the current part.
    PullChunk,
    /// Append the given bytes to the current file.
    WriteChunk(Vec<u8>),
    /// Send this response; the request is over.
    Respond(UploadResponse),
}

/// Where the handler stands between two pieces of outside work.
#[derive(Clone, Copy, PartialEq, Eq, Structural, Debug)]
pub enum UploadState {
    /// Waiting to learn whether the upload directory exists.
    AwaitingDir,
    /// Waiting for the next part of the stream.
    AwaitingPart,
    /// Waiting to learn whether the destination file was created.
    CreatingFile,
    /// Waiting for the next chunk of the current part.
    AwaitingChunk,
    /// Waiting to learn whether the chunk was written.
    WritingChunk,
    /// A response was issued; nothing more happens.
    Done,
}

/// Mathematical form of a [`PartHeader`].
pub enum PartHeaderV {
    End,
    Unnamed,
    Named(Seq<char>),
}

/// Mathematical form of an [`Event`].
pub enum EventV {
    DirCreated,
    DirFailed(Seq<char>),
    NextPartIs(PartHeaderV),
    FileCreated,
    FileFailed(Seq<char>),
    ChunkIs(Option<Seq<u8>>),
    ChunkWritten,
    WriteFailed(Seq<char>),
}

/// Mathematical form of an [`Action`]; a response is its status and body.
pub enum ActionV {
    PullPart,
    CreateFile(Seq<char>),
    PullChunk,
    WriteChunk(Seq<u8>),
    Respond(u16, Seq<char>),
}

impl View for PartHeader {
    type V = PartHeaderV;

    open spec fn view(&self) -> PartHeaderV {
        match self {
            PartHeader::End => PartHeaderV::End,
            PartHeader::Unnamed => PartHeaderV::Unnamed,
            PartHeader::Named(name) => PartHeaderV::Named(name@),
        }
    }
}

impl View for Event {
    type V = EventV;

    open spec fn view(&self) -> EventV {
        match self {
            Event::DirCreated => EventV::DirCreated,
            Event::DirFailed(m) => EventV::DirFailed(m@),
            Event::NextPartIs(h) => EventV::NextPartIs(h@),
            Event::FileCreated => EventV::FileCreated,
            Event::FileFailed(m) => EventV::FileFailed(m@),
            Event::ChunkIs(c) => EventV::ChunkIs(
                match c {
                    Some(bytes) => Some(bytes@),
                    None => None,
                },
            ),
            Event::ChunkWritten => EventV::ChunkWritten,
            Event::WriteFailed(m) => EventV::WriteFailed(m@),
        }
    }
}

impl View for Action {
    type V = ActionV;

    open spec fn view(&self) -> ActionV {
        match self {
            Action::PullPart => ActionV::PullPart,
            Action::CreateFile(p) => ActionV::CreateFile(p@),
            Action::PullChunk => ActionV::PullChunk,
            Action::WriteChunk(c) => ActionV::WriteChunk(c@),
            Action::Respond(r) => ActionV::Respond(r.status, r.body@),
        }
    }
}

/// Body of the response to a fully processed request.
pub open spec fn success_body() -> Seq<char> {
    "File uploaded successfully"@
}

/// Body of the response when the upload directory cannot be created.
pub open spec fn dir_failed_body(reason: Seq<char>) -> Seq<char> {
    "Failed to create upload directory: "@ + reason
}

/// Body of the response when the destination file cannot be created.
pub open spec fn file_failed_body(reason: Seq<char>) -> Seq<char> {
    "Failed to create file: "@ + reason
}

/// Body of the response when a chunk cannot be written.
pub open spec fn write_failed_body(reason: Seq<char>) -> Seq<char> {
    "Failed to write file: "@ + reason
}

/// Whether `event` is an outcome of the work that a handler in `state`
/// asked for.
pub open spec fn expects_event(state: UploadState, event: EventV) -> bool {
    match state {
        UploadState::AwaitingDir => event is DirCreated || event is DirFailed,
        UploadState::AwaitingPart => event is NextPartIs,
        UploadState::CreatingFile => event is FileCreated || event is FileFailed,
        UploadState::AwaitingChunk => event is ChunkIs,
        UploadState::WritingChunk => event is ChunkWritten || event is WriteFailed,
        UploadState::Done => false,
    }
}

/// What [`step`] does: the successor state and the action it orders, for
/// each state and each event that state expects.
pub open spec fn step_v(state: UploadState, dir: Seq<char>, event: EventV) -> (UploadState,
    ActionV) {
    match (state, event) {
        (UploadState::AwaitingDir, EventV::DirCreated) => (
            UploadState::AwaitingPart,
            ActionV::PullPart,
        ),
        (UploadState::AwaitingDir, EventV::DirFailed(m)) => (
            UploadState::Done,
            ActionV::Respond(STATUS_INTERNAL_ERROR, dir_failed_body(m)),
        ),
        (UploadState::AwaitingPart, EventV::NextPartIs(PartHeaderV::End)) => (
            UploadState::Done,
            ActionV::Respond(STATUS_OK, success_body()),
        ),
        (UploadState::AwaitingPart, EventV::NextPartIs(PartHeaderV::Unnamed)) => (
            UploadState::AwaitingPart,
            ActionV::PullPart,
        ),
        (UploadState::AwaitingPart, EventV::NextPartIs(PartHeaderV::Named(name))) => (
            UploadState::CreatingFile,
            ActionV::CreateFile(joined(dir, sanitized_of(name))),
        ),
        (UploadState::CreatingFile, EventV::FileCreated) => (
            UploadState::AwaitingChunk,
            ActionV::PullChunk,
        ),
        (UploadState::CreatingFile, EventV::FileFailed(m)) => (
            UploadState::Done,
            ActionV::Respond(STATUS_INTERNAL_ERROR, file_failed_body(m)),
        ),
        (UploadState::AwaitingChunk, EventV::ChunkIs(Some(c))) => (
            UploadState::WritingChunk,
            ActionV::WriteChunk(c),
        ),
        (UploadState::AwaitingChunk, EventV::ChunkIs(None)) => (
            UploadState::AwaitingPart,
            ActionV::PullPart,
        ),
        (UploadState::WritingChunk, EventV::ChunkWritten) => (
            UploadState::AwaitingChunk,
            ActionV::PullChunk,
        ),
        (UploadState::WritingChunk, EventV::WriteFailed(m)) => (
            UploadState::Done,
            ActionV::Respond(STATUS_INTERNAL_ERROR, write_failed_body(m)),
        ),
        _ => (UploadState::Done, ActionV::Respond(STATUS_INTERNAL_ERROR, Seq::empty())),
    }
}

/// Advance the handler by one event: from `state`, on `event`, move to
/// the successor state and order the next action, exactly as [`step_v`]
/// says. `dir` is the upload directory every stored file goes into; a
/// file the handler orders created always lies directly inside it.
pub fn step(state: UploadState, dir: &str, event: Event) -> (r: (UploadState, Action))
    requires
        expects_event(state, event@),
    ensures
        r.0 == step_v(state, dir@, event@).0,
        r.1@ == step_v(state, dir@, event@).1,
        r.1@ matches ActionV::CreateFile(path) ==> crate::filename::stays_within(dir@, path),
{
    match (state, event) {
        (UploadState::AwaitingDir, Event::DirCreated) => (
            UploadState::AwaitingPart,
            Action::PullPart,
        ),
        (UploadState::AwaitingDir, Event::DirFailed(m)) => (
            UploadState::Done,
            Action::Respond(
                UploadResponse {
                    status: STATUS_INTERNAL_ERROR,
                    body: "Failed to create upload directory: ".to_owned().concat(m.as_str()),
                },
            ),
        ),
        (UploadState::AwaitingPart, Event::NextPartIs(PartHeader::End)) => (
            UploadState::Done,
            Action::Respond(
                UploadResponse {
                    status: STATUS_OK,
                    body: "File uploaded successfully".to_owned(),
                },
            ),
        ),
        (UploadState::AwaitingPart, Event::NextPartIs(PartHeader::Unnamed)) => (
            UploadState::AwaitingPart,
            Action::PullPart,
        ),
        (UploadState::AwaitingPart, Event::NextPartIs(PartHeader::Named(name))) => (
            UploadState::CreatingFile,
            Action::CreateFile(target_path(dir, name.as_str())),
        ),
        (UploadState::CreatingFile, Event::FileCreated) => (
            UploadState::AwaitingChunk,
            Action::PullChunk,
        ),
        (UploadState::CreatingFile, Event::FileFailed(m)) => (
            UploadState::Done,
            Action::Respond(
                UploadResponse {
                    status: STATUS_INTERNAL_ERROR,
                    body: "Failed to create file: ".to_owned().concat(m.as_str()),
                },
            ),
        ),
        (UploadState::AwaitingChunk, Event::ChunkIs(Some(c))) => (
            UploadState::WritingChunk,
            Action::WriteChunk(c),
        ),
        (UploadState::AwaitingChunk, Event::ChunkIs(None)) => (
            UploadState::AwaitingPart,
            Action::PullPart,
        ),
        (UploadState::WritingChunk, Event::ChunkWritten) => (
            UploadState::AwaitingChunk,
            Action::PullChunk,
        ),
        (UploadState::WritingChunk, Event::WriteFailed(m)) => (
            UploadState::Done,
            Action::Respond(
                UploadResponse {
                    status: STATUS_INTERNAL_ERROR,
                    body: "Failed to write file: ".to_owned().concat(m.as_str()),
                },
            ),
        ),
        _ => unreached(),
    }
}

/// The state the handler reaches after the events in `events`, in order.
pub open spec fn run_state(state: UploadState, dir: Seq<char>, events: Seq<EventV>) -> UploadState
    decreases events.len(),
{
    if events.len() == 0 {
        state
    } else {
        run_state(step_v(state, dir, events[0]).0, dir, events.drop_first())
    }
}

/// The actions the handler orders on the events in `events`, in order.
pub open spec fn run_actions(state: UploadState, dir: Seq<char>, events: Seq<EventV>) -> Seq<
    ActionV,
>
    decreases events.len(),
{
    if events.len() == 0 {
        Seq::empty()
    } else {
        seq![step_v(state, dir, events[0]).1] + run_actions(
            step_v(state, dir, events[0]).0,
            dir,
            events.drop_first(),
        )
    }
}

} // verus!
