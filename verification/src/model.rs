//! A mathematical model of one upload request and of the files it leaves
//! in the upload directory, together with the laws that tie the state
//! machine of [`crate::machine`] to it.
use crate::filename::{joined, sanitized_of};
use crate::machine::{ActionV, EventV, PartHeaderV, UploadState};
use crate::machine::{dir_failed_body, expects_event, run_actions, run_state, step_v, write_failed_body};
use crate::machine::{success_body, STATUS_INTERNAL_ERROR, STATUS_OK};
use vstd::prelude::*;

verus! {

/// One part of a multipart request: its declared filename, if any, and
/// its chunks in arrival order.
pub struct PartView {
    pub filename: Option<Seq<char>>,
    pub chunks: Seq<Seq<u8>>,
}

/// The bytes of a part: its chunks concatenated in order.
pub open spec fn concat_chunks(chunks: Seq<Seq<u8>>) -> Seq<u8>
    decreases chunks.len(),
{
    if chunks.len() == 0 {
        Seq::empty()
    } else {
        chunks[0] + concat_chunks(chunks.drop_first())
    }
}

/// The path the part is stored under, for a part that declares a
/// filename.
pub open spec fn part_path(dir: Seq<char>, p: PartView) -> Seq<char> {
    joined(dir, sanitized_of(p.filename->0))
}

/// The upload directory after one part: unchanged for a part without a
/// filename, and holding the part's bytes under its path otherwise.
pub open spec fn apply_part(
    store: Map<Seq<char>, Seq<u8>>,
    dir: Seq<char>,
    p: PartView,
) -> Map<Seq<char>, Seq<u8>> {
    match p.filename {
        None => store,
        Some(_) => store.insert(part_path(dir, p), concat_chunks(p.chunks)),
    }
}

/// The upload directory after a whole request: the parts applied in
/// order, a later part with the same path overwriting an earlier one.
pub open spec fn store_after(
    store: Map<Seq<char>, Seq<u8>>,
    dir: Seq<char>,
    parts: Seq<PartView>,
) -> Map<Seq<char>, Seq<u8>>
    decreases parts.len(),
{
    if parts.len() == 0 {
        store
    } else {
        store_after(apply_part(store, dir, parts[0]), dir, parts.drop_first())
    }
}

/// The events the server feeds the machine while one part is processed
/// and no filesystem operation fails.
pub open spec fn part_events(p: PartView) -> Seq<EventV> {
    match p.filename {
        None => seq![EventV::NextPartIs(PartHeaderV::Unnamed)],
        Some(name) => seq![EventV::NextPartIs(PartHeaderV::Named(name)), EventV::FileCreated]
            + chunk_events(p.chunks),
    }
}

/// The events that deliver the chunks of one part, each write
/// succeeding, ending with the end of the part.
pub open spec fn chunk_events(chunks: Seq<Seq<u8>>) -> Seq<EventV>
    decreases chunks.len(),
{
    if chunks.len() == 0 {
        seq![EventV::ChunkIs(None)]
    } else {
        seq![EventV::ChunkIs(Some(chunks[0])), EventV::ChunkWritten] + chunk_events(
            chunks.drop_first(),
        )
    }
}

/// The events of a whole request whose parts are `parts`, delivered in
/// order with every filesystem operation succeeding, ending with the
/// end of the stream.
pub open spec fn upload_events(parts: Seq<PartView>) -> Seq<EventV>
    decreases parts.len(),
{
    if parts.len() == 0 {
        seq![EventV::NextPartIs(PartHeaderV::End)]
    } else {
        part_events(parts[0]) + upload_events(parts.drop_first())
    }
}

/// The upload directory after the filesystem actions in `actions` are
/// performed in order: a created file starts empty and becomes the one
/// chunks are appended to; `cur` is the file currently open, if any.
pub open spec fn apply_actions(
    store: Map<Seq<char>, Seq<u8>>,
    cur: Option<Seq<char>>,
    actions: Seq<ActionV>,
) -> Map<Seq<char>, Seq<u8>>
    decreases actions.len(),
{
    if actions.len() == 0 {
        store
    } else {
        let rest = actions.drop_first();
        match actions[0] {
            ActionV::CreateFile(path) => apply_actions(
                store.insert(path, Seq::empty()),
                Some(path),
                rest,
            ),
            ActionV::WriteChunk(bytes) => match cur {
                Some(path) => apply_actions(store.insert(path, store[path] + bytes), cur, rest),
                None => apply_actions(store, cur, rest),
            },
            _ => apply_actions(store, cur, rest),
        }
    }
}

/// The file left open after the filesystem actions in `actions`: the
/// last one created, or `cur` if none was.
pub open spec fn cur_after(cur: Option<Seq<char>>, actions: Seq<ActionV>) -> Option<Seq<char>>
    decreases actions.len(),
{
    if actions.len() == 0 {
        cur
    } else {
        match actions[0] {
            ActionV::CreateFile(path) => cur_after(Some(path), actions.drop_first()),
            _ => cur_after(cur, actions.drop_first()),
        }
    }
}

/// Running the machine over two event sequences in a row runs it over
/// the first, then over the second from the state so reached.
pub proof fn lemma_run_split(
    state: UploadState,
    dir: Seq<char>,
    first: Seq<EventV>,
    second: Seq<EventV>,
)
    ensures
        run_state(state, dir, first + second) == run_state(
            run_state(state, dir, first),
            dir,
            second,
        ),
        run_actions(state, dir, first + second) == run_actions(state, dir, first) + run_actions(
            run_state(state, dir, first),
            dir,
            second,
        ),
    decreases first.len(),
{
    if first.len() == 0 {
        assert(first + second =~= second);
        assert(run_actions(state, dir, first) + run_actions(state, dir, second) =~= run_actions(
            state,
            dir,
            second,
        ));
    } else {
        let mid = step_v(state, dir, first[0]).0;
        assert((first + second).drop_first() =~= first.drop_first() + second);
        lemma_run_split(mid, dir, first.drop_first(), second);
        assert(run_actions(state, dir, first + second) =~= run_actions(state, dir, first)
            + run_actions(run_state(state, dir, first), dir, second));
    }
}

/// Performing two action sequences in a row performs the first, then
/// the second on the store so reached, with the open file carried over.
pub proof fn lemma_apply_split(
    store: Map<Seq<char>, Seq<u8>>,
    cur: Option<Seq<char>>,
    first: Seq<ActionV>,
    second: Seq<ActionV>,
)
    ensures
        apply_actions(store, cur, first + second) == apply_actions(
            apply_actions(store, cur, first),
            cur_after(cur, first),
            second,
        ),
    decreases first.len(),
{
    if first.len() == 0 {
        assert(first + second =~= second);
    } else {
        assert((first + second).drop_first() =~= first.drop_first() + second);
        match first[0] {
            ActionV::CreateFile(path) => {
                lemma_apply_split(
                    store.insert(path, Seq::empty()),
                    Some(path),
                    first.drop_first(),
                    second,
                );
            },
            ActionV::WriteChunk(bytes) => {
                match cur {
                    Some(path) => {
                        lemma_apply_split(
                            store.insert(path, store[path] + bytes),
                            cur,
                            first.drop_first(),
                            second,
                        );
                    },
                    None => {
                        lemma_apply_split(store, cur, first.drop_first(), second);
                    },
                }
            },
            _ => {
                lemma_apply_split(store, cur, first.drop_first(), second);
            },
        }
    }
}

/// Streaming the chunks of one part into the open file `path` appends
/// their concatenation to it and returns the machine to awaiting the
/// next part.
proof fn lemma_chunk_run(
    store: Map<Seq<char>, Seq<u8>>,
    dir: Seq<char>,
    path: Seq<char>,
    chunks: Seq<Seq<u8>>,
)
    requires
        store.contains_key(path),
    ensures
        run_state(UploadState::AwaitingChunk, dir, chunk_events(chunks))
            == UploadState::AwaitingPart,
        apply_actions(
            store,
            Some(path),
            run_actions(UploadState::AwaitingChunk, dir, chunk_events(chunks)),
        ) == store.insert(path, store[path] + concat_chunks(chunks)),
        cur_after(
            Some(path),
            run_actions(UploadState::AwaitingChunk, dir, chunk_events(chunks)),
        ) == Some(path),
    decreases chunks.len(),
{
    reveal_with_fuel(chunk_events, 2);
    reveal_with_fuel(run_state, 4);
    reveal_with_fuel(run_actions, 4);
    reveal_with_fuel(apply_actions, 4);
    reveal_with_fuel(cur_after, 4);
    let events = chunk_events(chunks);
    if chunks.len() == 0 {
        assert(events =~= seq![EventV::ChunkIs(None)]);
        assert(events.drop_first() =~= Seq::<EventV>::empty());
        assert(run_actions(UploadState::AwaitingChunk, dir, events) =~= seq![ActionV::PullPart]);
        assert(store[path] + concat_chunks(chunks) =~= store[path]);
        assert(store.insert(path, store[path] + concat_chunks(chunks)) =~= store);
    } else {
        let head = chunks[0];
        let rest = chunks.drop_first();
        let stored = store.insert(path, store[path] + head);
        assert(events[0] == EventV::ChunkIs(Some(head)));
        assert(events.drop_first() =~= seq![EventV::ChunkWritten] + chunk_events(rest));
        let after_write = seq![EventV::ChunkWritten] + chunk_events(rest);
        assert(after_write.drop_first() =~= chunk_events(rest));
        lemma_chunk_run(stored, dir, path, rest);
        let acts = run_actions(UploadState::AwaitingChunk, dir, events);
        let rest_acts = run_actions(UploadState::AwaitingChunk, dir, chunk_events(rest));
        assert(acts =~= seq![ActionV::WriteChunk(head), ActionV::PullChunk] + rest_acts);
        assert(acts[0] == ActionV::WriteChunk(head));
        assert(acts.drop_first() =~= seq![ActionV::PullChunk] + rest_acts);
        assert(acts.drop_first()[0] == ActionV::PullChunk);
        assert(acts.drop_first().drop_first() =~= rest_acts);
        assert(stored[path] + concat_chunks(rest) =~= store[path] + concat_chunks(chunks));
        assert(apply_actions(store, Some(path), acts) == stored.insert(
            path,
            stored[path] + concat_chunks(rest),
        ));
        assert(stored.insert(path, stored[path] + concat_chunks(rest)) =~= store.insert(
            path,
            store[path] + concat_chunks(chunks),
        ));
    }
}

/// Processing one part from the awaiting-part state stores exactly what
/// [`apply_part`] says and returns the machine to awaiting the next
/// part.
proof fn lemma_part_run(
    store: Map<Seq<char>, Seq<u8>>,
    cur: Option<Seq<char>>,
    dir: Seq<char>,
    p: PartView,
)
    ensures
        run_state(UploadState::AwaitingPart, dir, part_events(p)) == UploadState::AwaitingPart,
        apply_actions(
            store,
            cur,
            run_actions(UploadState::AwaitingPart, dir, part_events(p)),
        ) == apply_part(store, dir, p),
        cur_after(cur, run_actions(UploadState::AwaitingPart, dir, part_events(p))) == (
        match p.filename {
            None => cur,
            Some(_) => Some(part_path(dir, p)),
        }),
{
    reveal_with_fuel(run_state, 4);
    reveal_with_fuel(run_actions, 4);
    reveal_with_fuel(apply_actions, 4);
    reveal_with_fuel(cur_after, 4);
    let events = part_events(p);
    match p.filename {
        None => {
            assert(events =~= seq![EventV::NextPartIs(PartHeaderV::Unnamed)]);
            assert(events.drop_first() =~= Seq::<EventV>::empty());
            assert(run_actions(UploadState::AwaitingPart, dir, events) =~= seq![
                ActionV::PullPart,
            ]);
        },
        Some(name) => {
            let path = part_path(dir, p);
            let created = store.insert(path, Seq::empty());
            assert(events[0] == EventV::NextPartIs(PartHeaderV::Named(name)));
            assert(events.drop_first() =~= seq![EventV::FileCreated] + chunk_events(p.chunks));
            let after_create = seq![EventV::FileCreated] + chunk_events(p.chunks);
            assert(after_create.drop_first() =~= chunk_events(p.chunks));
            lemma_chunk_run(created, dir, path, p.chunks);
            let acts = run_actions(UploadState::AwaitingPart, dir, events);
            let chunk_acts = run_actions(UploadState::AwaitingChunk, dir, chunk_events(p.chunks));
            assert(acts =~= seq![ActionV::CreateFile(path), ActionV::PullChunk] + chunk_acts);
            assert(acts[0] == ActionV::CreateFile(path));
            assert(acts.drop_first() =~= seq![ActionV::PullChunk] + chunk_acts);
            assert(acts.drop_first()[0] == ActionV::PullChunk);
            assert(acts.drop_first().drop_first() =~= chunk_acts);
            assert(created[path] + concat_chunks(p.chunks) =~= concat_chunks(p.chunks));
            assert(apply_actions(store, cur, acts) == created.insert(
                path,
                created[path] + concat_chunks(p.chunks),
            ));
            assert(created.insert(path, created[path] + concat_chunks(p.chunks)) =~= store.insert(
                path,
                concat_chunks(p.chunks),
            ));
        },
    }
}

/// A request whose parts are delivered in order with every filesystem
/// operation succeeding ends in the success response, and the files its
/// actions leave on disk are exactly [`store_after`] of its parts.
pub proof fn lemma_successful_upload(
    store: Map<Seq<char>, Seq<u8>>,
    cur: Option<Seq<char>>,
    dir: Seq<char>,
    parts: Seq<PartView>,
)
    ensures
        run_state(UploadState::AwaitingPart, dir, upload_events(parts)) == UploadState::Done,
        run_actions(UploadState::AwaitingPart, dir, upload_events(parts)).len() > 0,
        run_actions(UploadState::AwaitingPart, dir, upload_events(parts)).last()
            == ActionV::Respond(STATUS_OK, success_body()),
        apply_actions(
            store,
            cur,
            run_actions(UploadState::AwaitingPart, dir, upload_events(parts)),
        ) == store_after(store, dir, parts),
    decreases parts.len(),
{
    reveal_with_fuel(upload_events, 2);
    reveal_with_fuel(run_state, 3);
    reveal_with_fuel(run_actions, 3);
    reveal_with_fuel(apply_actions, 3);
    reveal_with_fuel(store_after, 2);
    let events = upload_events(parts);
    if parts.len() == 0 {
        assert(events =~= seq![EventV::NextPartIs(PartHeaderV::End)]);
        assert(events.drop_first() =~= Seq::<EventV>::empty());
        assert(run_actions(UploadState::AwaitingPart, dir, events) =~= seq![
            ActionV::Respond(STATUS_OK, success_body()),
        ]);
    } else {
        let p0 = parts[0];
        let rest = parts.drop_first();
        let head_events = part_events(p0);
        let rest_events = upload_events(rest);
        assert(events =~= head_events + rest_events);
        lemma_run_split(UploadState::AwaitingPart, dir, head_events, rest_events);
        lemma_part_run(store, cur, dir, p0);
        let head_actions = run_actions(UploadState::AwaitingPart, dir, head_events);
        let rest_actions = run_actions(UploadState::AwaitingPart, dir, rest_events);
        lemma_apply_split(store, cur, head_actions, rest_actions);
        lemma_successful_upload(
            apply_part(store, dir, p0),
            cur_after(cur, head_actions),
            dir,
            rest,
        );
        assert((head_actions + rest_actions).last() == rest_actions.last());
    }
}

/// A whole request, from before the upload directory is known to exist:
/// once the directory is created and every part is delivered and stored
/// without error, the machine responds with success and the directory
/// holds exactly [`store_after`] of the parts.
pub proof fn lemma_successful_request(
    store: Map<Seq<char>, Seq<u8>>,
    dir: Seq<char>,
    parts: Seq<PartView>,
)
    ensures
        run_state(
            UploadState::AwaitingDir,
            dir,
            seq![EventV::DirCreated] + upload_events(parts),
        ) == UploadState::Done,
        run_actions(
            UploadState::AwaitingDir,
            dir,
            seq![EventV::DirCreated] + upload_events(parts),
        ).last() == ActionV::Respond(STATUS_OK, success_body()),
        apply_actions(
            store,
            None,
            run_actions(
                UploadState::AwaitingDir,
                dir,
                seq![EventV::DirCreated] + upload_events(parts),
            ),
        ) == store_after(store, dir, parts),
{
    reveal_with_fuel(run_state, 3);
    reveal_with_fuel(run_actions, 3);
    reveal_with_fuel(apply_actions, 3);
    reveal_with_fuel(cur_after, 3);
    let lead = seq![EventV::DirCreated];
    lemma_run_split(UploadState::AwaitingDir, dir, lead, upload_events(parts));
    assert(lead.drop_first() =~= Seq::<EventV>::empty());
    assert(run_actions(UploadState::AwaitingDir, dir, lead) =~= seq![ActionV::PullPart]);
    assert(run_state(UploadState::AwaitingDir, dir, lead) == UploadState::AwaitingPart);
    lemma_successful_upload(store, None, dir, parts);
    let head_actions = run_actions(UploadState::AwaitingDir, dir, lead);
    let rest_actions = run_actions(UploadState::AwaitingPart, dir, upload_events(parts));
    lemma_apply_split(store, None, head_actions, rest_actions);
    assert(apply_actions(store, None, head_actions) == store);
    assert(cur_after(None, head_actions) == None::<Seq<char>>);
    assert((head_actions + rest_actions).last() == rest_actions.last());
}

/// The events that deliver the chunks of one part while the first
/// `written` writes succeed and the next one fails.
pub open spec fn partial_chunk_events(
    chunks: Seq<Seq<u8>>,
    written: int,
    reason: Seq<char>,
) -> Seq<EventV>
    decreases written,
{
    if written <= 0 {
        seq![EventV::ChunkIs(Some(chunks[0])), EventV::WriteFailed(reason)]
    } else {
        seq![EventV::ChunkIs(Some(chunks[0])), EventV::ChunkWritten] + partial_chunk_events(
            chunks.drop_first(),
            written - 1,
            reason,
        )
    }
}

/// The events of a request whose parts in `done` are stored without
/// error, after which the part `p` has its file created, its first
/// `written` chunks written, and the next write fail.
pub open spec fn failed_write_events(
    done: Seq<PartView>,
    p: PartView,
    written: int,
    reason: Seq<char>,
) -> Seq<EventV>
    decreases done.len(),
{
    if done.len() == 0 {
        seq![EventV::NextPartIs(PartHeaderV::Named(p.filename->0)), EventV::FileCreated]
            + partial_chunk_events(p.chunks, written, reason)
    } else {
        part_events(done[0]) + failed_write_events(done.drop_first(), p, written, reason)
    }
}

/// Streaming chunks into the open file `path` until a write fails ends
/// the request with the write error; every action before the failed
/// write leaves the file holding exactly the chunks written so far.
proof fn lemma_partial_chunk_run(
    store: Map<Seq<char>, Seq<u8>>,
    dir: Seq<char>,
    path: Seq<char>,
    chunks: Seq<Seq<u8>>,
    written: int,
    reason: Seq<char>,
)
    requires
        store.contains_key(path),
        0 <= written < chunks.len(),
    ensures
        ({
            let events = partial_chunk_events(chunks, written, reason);
            let acts = run_actions(UploadState::AwaitingChunk, dir, events);
            &&& run_state(UploadState::AwaitingChunk, dir, events) == UploadState::Done
            &&& acts.len() == 2 * written + 2
            &&& acts.last() == ActionV::Respond(STATUS_INTERNAL_ERROR, write_failed_body(reason))
            &&& apply_actions(store, Some(path), acts.take(acts.len() - 2)) == store.insert(
                path,
                store[path] + concat_chunks(chunks.take(written)),
            )
        }),
    decreases written,
{
    reveal_with_fuel(run_state, 4);
    reveal_with_fuel(run_actions, 4);
    reveal_with_fuel(apply_actions, 4);
    let events = partial_chunk_events(chunks, written, reason);
    let acts = run_actions(UploadState::AwaitingChunk, dir, events);
    let head = chunks[0];
    if written == 0 {
        assert(events =~= seq![EventV::ChunkIs(Some(head)), EventV::WriteFailed(reason)]);
        assert(events.drop_first() =~= seq![EventV::WriteFailed(reason)]);
        assert(events.drop_first().drop_first() =~= Seq::<EventV>::empty());
        assert(acts =~= seq![
            ActionV::WriteChunk(head),
            ActionV::Respond(STATUS_INTERNAL_ERROR, write_failed_body(reason)),
        ]);
        assert(acts.take(0) =~= Seq::<ActionV>::empty());
        assert(store[path] + concat_chunks(chunks.take(0)) =~= store[path]);
        assert(store.insert(path, store[path] + concat_chunks(chunks.take(0))) =~= store);
    } else {
        let rest = chunks.drop_first();
        let stored = store.insert(path, store[path] + head);
        assert(events[0] == EventV::ChunkIs(Some(head)));
        assert(events.drop_first() =~= seq![EventV::ChunkWritten] + partial_chunk_events(
            rest,
            written - 1,
            reason,
        ));
        let after_write = seq![EventV::ChunkWritten] + partial_chunk_events(
            rest,
            written - 1,
            reason,
        );
        assert(after_write.drop_first() =~= partial_chunk_events(rest, written - 1, reason));
        lemma_partial_chunk_run(stored, dir, path, rest, written - 1, reason);
        let rest_acts = run_actions(
            UploadState::AwaitingChunk,
            dir,
            partial_chunk_events(rest, written - 1, reason),
        );
        assert(acts =~= seq![ActionV::WriteChunk(head), ActionV::PullChunk] + rest_acts);
        assert(acts.last() == rest_acts.last());
        assert(acts.take(acts.len() - 2) =~= seq![ActionV::WriteChunk(head), ActionV::PullChunk]
            + rest_acts.take(rest_acts.len() - 2));
        let kept = acts.take(acts.len() - 2);
        assert(kept[0] == ActionV::WriteChunk(head));
        assert(kept.drop_first() =~= seq![ActionV::PullChunk] + rest_acts.take(
            rest_acts.len() - 2,
        ));
        assert(kept.drop_first()[0] == ActionV::PullChunk);
        assert(kept.drop_first().drop_first() =~= rest_acts.take(rest_acts.len() - 2));
        assert(apply_actions(store, Some(path), kept) == stored.insert(
            path,
            stored[path] + concat_chunks(rest.take(written - 1)),
        ));
        assert(chunks.take(written)[0] == head);
        assert(chunks.take(written).drop_first() =~= rest.take(written - 1));
        assert(stored[path] + concat_chunks(rest.take(written - 1)) =~= store[path]
            + concat_chunks(chunks.take(written)));
        assert(stored.insert(path, stored[path] + concat_chunks(rest.take(written - 1)))
            =~= store.insert(path, store[path] + concat_chunks(chunks.take(written))));
    }
}

/// A chunk-write failure aborts the request at once with the write
/// error. No rollback happens: the parts stored before it keep their
/// files, and the actions before the failed write leave the failed
/// part's file holding exactly the chunks written so far — a truncated
/// file remains on disk.
#[verifier::rlimit(60)]
pub proof fn lemma_failed_write_aborts(
    store: Map<Seq<char>, Seq<u8>>,
    cur: Option<Seq<char>>,
    dir: Seq<char>,
    done: Seq<PartView>,
    p: PartView,
    written: int,
    reason: Seq<char>,
)
    requires
        p.filename is Some,
        0 <= written < p.chunks.len(),
    ensures
        ({
            let events = failed_write_events(done, p, written, reason);
            let acts = run_actions(UploadState::AwaitingPart, dir, events);
            &&& run_state(UploadState::AwaitingPart, dir, events) == UploadState::Done
            &&& acts.len() >= 2
            &&& acts.last() == ActionV::Respond(STATUS_INTERNAL_ERROR, write_failed_body(reason))
            &&& apply_actions(store, cur, acts.take(acts.len() - 2)) == store_after(
                store,
                dir,
                done,
            ).insert(part_path(dir, p), concat_chunks(p.chunks.take(written)))
        }),
    decreases done.len(),
{
    reveal_with_fuel(run_state, 4);
    reveal_with_fuel(run_actions, 4);
    reveal_with_fuel(apply_actions, 4);
    reveal_with_fuel(store_after, 2);
    let events = failed_write_events(done, p, written, reason);
    let acts = run_actions(UploadState::AwaitingPart, dir, events);
    if done.len() == 0 {
        let path = part_path(dir, p);
        let created = store.insert(path, Seq::empty());
        assert(events[0] == EventV::NextPartIs(PartHeaderV::Named(p.filename->0)));
        assert(events.drop_first() =~= seq![EventV::FileCreated] + partial_chunk_events(
            p.chunks,
            written,
            reason,
        ));
        let after_create = seq![EventV::FileCreated] + partial_chunk_events(
            p.chunks,
            written,
            reason,
        );
        assert(after_create.drop_first() =~= partial_chunk_events(p.chunks, written, reason));
        lemma_partial_chunk_run(created, dir, path, p.chunks, written, reason);
        let chunk_acts = run_actions(
            UploadState::AwaitingChunk,
            dir,
            partial_chunk_events(p.chunks, written, reason),
        );
        assert(acts =~= seq![ActionV::CreateFile(path), ActionV::PullChunk] + chunk_acts);
        assert(acts.last() == chunk_acts.last());
        assert(acts.take(acts.len() - 2) =~= seq![ActionV::CreateFile(path), ActionV::PullChunk]
            + chunk_acts.take(chunk_acts.len() - 2));
        let kept = acts.take(acts.len() - 2);
        assert(kept[0] == ActionV::CreateFile(path));
        assert(kept.drop_first() =~= seq![ActionV::PullChunk] + chunk_acts.take(
            chunk_acts.len() - 2,
        ));
        assert(kept.drop_first()[0] == ActionV::PullChunk);
        assert(kept.drop_first().drop_first() =~= chunk_acts.take(chunk_acts.len() - 2));
        assert(apply_actions(store, cur, kept) == created.insert(
            path,
            created[path] + concat_chunks(p.chunks.take(written)),
        ));
        assert(created[path] + concat_chunks(p.chunks.take(written)) =~= concat_chunks(
            p.chunks.take(written),
        ));
        assert(created.insert(path, created[path] + concat_chunks(p.chunks.take(written)))
            =~= store.insert(path, concat_chunks(p.chunks.take(written))));
    } else {
        let p0 = done[0];
        let rest = done.drop_first();
        let head_events = part_events(p0);
        let rest_events = failed_write_events(rest, p, written, reason);
        assert(events =~= head_events + rest_events);
        lemma_run_split(UploadState::AwaitingPart, dir, head_events, rest_events);
        lemma_part_run(store, cur, dir, p0);
        let head_acts = run_actions(UploadState::AwaitingPart, dir, head_events);
        let rest_acts = run_actions(UploadState::AwaitingPart, dir, rest_events);
        lemma_failed_write_aborts(
            apply_part(store, dir, p0),
            cur_after(cur, head_acts),
            dir,
            rest,
            p,
            written,
            reason,
        );
        assert(acts =~= head_acts + rest_acts);
        assert(acts.last() == rest_acts.last());
        assert(acts.take(acts.len() - 2) =~= head_acts + rest_acts.take(rest_acts.len() - 2));
        lemma_apply_split(store, cur, head_acts, rest_acts.take(rest_acts.len() - 2));
    }
}

/// Every filesystem failure ends the request at once with an internal
/// server error: on a directory, file-creation or write failure the
/// machine responds with status 500 and processes nothing further.
pub proof fn lemma_failure_responds_500(state: UploadState, dir: Seq<char>, event: EventV)
    requires
        expects_event(state, event),
        event is DirFailed || event is FileFailed || event is WriteFailed,
    ensures
        step_v(state, dir, event).0 == UploadState::Done,
        step_v(state, dir, event).1 matches ActionV::Respond(status, _) && status
            == STATUS_INTERNAL_ERROR,
        forall|later: EventV| !expects_event(step_v(state, dir, event).0, later),
{
}

/// A request that fails before the upload directory exists creates no
/// file: the machine only responds, and the directory is untouched.
pub proof fn lemma_dir_failure_stores_nothing(
    store: Map<Seq<char>, Seq<u8>>,
    dir: Seq<char>,
    reason: Seq<char>,
)
    ensures
        run_state(UploadState::AwaitingDir, dir, seq![EventV::DirFailed(reason)])
            == UploadState::Done,
        run_actions(UploadState::AwaitingDir, dir, seq![EventV::DirFailed(reason)]) == seq![
            ActionV::Respond(STATUS_INTERNAL_ERROR, dir_failed_body(reason)),
        ],
        apply_actions(
            store,
            None,
            run_actions(UploadState::AwaitingDir, dir, seq![EventV::DirFailed(reason)]),
        ) == store,
{
    reveal_with_fuel(run_state, 2);
    reveal_with_fuel(run_actions, 2);
    reveal_with_fuel(apply_actions, 3);
    let events = seq![EventV::DirFailed(reason)];
    assert(events.drop_first() =~= Seq::<EventV>::empty());
    assert(run_actions(UploadState::AwaitingDir, dir, events) =~= seq![
        ActionV::Respond(STATUS_INTERNAL_ERROR, dir_failed_body(reason)),
    ]);
}

/// Parts whose path differs from `path` never touch the entry at
/// `path`.
proof fn lemma_untouched_path(
    store: Map<Seq<char>, Seq<u8>>,
    dir: Seq<char>,
    parts: Seq<PartView>,
    path: Seq<char>,
)
    requires
        forall|j: int|
            0 <= j < parts.len() && parts[j].filename is Some ==> part_path(dir, parts[j]) != path,
    ensures
        store_after(store, dir, parts).contains_key(path) == store.contains_key(path),
        store.contains_key(path) ==> store_after(store, dir, parts)[path] == store[path],
    decreases parts.len(),
{
    if parts.len() > 0 {
        assert(forall|j: int|
            0 <= j < parts.drop_first().len() && parts.drop_first()[j].filename is Some
                ==> part_path(dir, parts.drop_first()[j]) != path) by {
            assert(forall|j: int|
                0 <= j < parts.drop_first().len() ==> parts.drop_first()[j] == parts[j + 1]);
        }
        lemma_untouched_path(apply_part(store, dir, parts[0]), dir, parts.drop_first(), path);
    }
}

/// After a request, the file of a part that declared a filename holds
/// the concatenation of that part's chunks, provided no later part of
/// the request stores under the same path.
pub proof fn lemma_stored_content(
    store: Map<Seq<char>, Seq<u8>>,
    dir: Seq<char>,
    parts: Seq<PartView>,
    i: int,
)
    requires
        0 <= i < parts.len(),
        parts[i].filename is Some,
        forall|j: int|
            i < j < parts.len() && parts[j].filename is Some ==> part_path(dir, parts[j])
                != part_path(dir, parts[i]),
    ensures
        store_after(store, dir, parts).contains_key(part_path(dir, parts[i])),
        store_after(store, dir, parts)[part_path(dir, parts[i])] == concat_chunks(
            parts[i].chunks,
        ),
    decreases parts.len(),
{
    let rest = parts.drop_first();
    assert(forall|j: int| 0 <= j < rest.len() ==> rest[j] == parts[j + 1]);
    if i == 0 {
        let path = part_path(dir, parts[0]);
        let stored = apply_part(store, dir, parts[0]);
        lemma_untouched_path(stored, dir, rest, path);
    } else {
        lemma_stored_content(apply_part(store, dir, parts[0]), dir, rest, i - 1);
    }
}

/// A part that declares no filename leaves the directory exactly as if
/// the request had not contained it: no file is created for it.
pub proof fn lemma_unnamed_part_stores_nothing(
    store: Map<Seq<char>, Seq<u8>>,
    dir: Seq<char>,
    parts: Seq<PartView>,
    i: int,
)
    requires
        0 <= i < parts.len(),
        parts[i].filename is None,
    ensures
        store_after(store, dir, parts) == store_after(store, dir, parts.remove(i)),
    decreases parts.len(),
{
    if i == 0 {
        assert(parts.remove(0) =~= parts.drop_first());
    } else {
        assert(parts.remove(i)[0] == parts[0]);
        assert(parts.remove(i).drop_first() =~= parts.drop_first().remove(i - 1));
        lemma_unnamed_part_stores_nothing(
            apply_part(store, dir, parts[0]),
            dir,
            parts.drop_first(),
            i - 1,
        );
    }
}

/// Uploading under a name a second time overwrites: after two parts
/// that store under the same path, the directory is as if only the
/// second had been uploaded.
pub proof fn lemma_repeated_name_overwrites(
    store: Map<Seq<char>, Seq<u8>>,
    dir: Seq<char>,
    first: PartView,
    second: PartView,
)
    requires
        first.filename is Some,
        second.filename is Some,
        part_path(dir, first) == part_path(dir, second),
    ensures
        store_after(store, dir, seq![first, second]) == store_after(store, dir, seq![second]),
{
    reveal_with_fuel(store_after, 4);
    let both = seq![first, second];
    assert(both.drop_first() =~= seq![second]);
    assert(seq![second].drop_first() =~= Seq::<PartView>::empty());
    assert(apply_part(apply_part(store, dir, first), dir, second) =~= apply_part(
        store,
        dir,
        second,
    ));
}

} // verus!
