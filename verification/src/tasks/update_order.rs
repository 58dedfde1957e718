//! What holds of every run of the update task: the order of its messages,
//! and the place of the marker writes among its actions.

use crate::check_game::{Part, VersionsInfoView};
use crate::path::PathView;
use crate::tasks::update::{
    begin, UpdateActionView, UpdateEventView, UpdatePhase, UpdateTaskMessage, UpdateTaskView,
};
use vstd::prelude::*;

verus! {

/// The messages among a list of actions, in order.
pub open spec fn sent(actions: Seq<UpdateActionView>) -> Seq<UpdateTaskMessage>
    decreases actions.len(),
{
    if actions.len() == 0 {
        Seq::empty()
    } else {
        match actions.last() {
            UpdateActionView::Send(message) => sent(actions.drop_last()).push(message),
            _ => sent(actions.drop_last()),
        }
    }
}

/// Does the message end the work on its part?
pub open spec fn closes_part(message: UpdateTaskMessage) -> bool {
    match message {
        UpdateTaskMessage::DownloadFinished { id } => id == Part::Bootloader,
        UpdateTaskMessage::UnpackFinished { id } => id == Part::Dats,
        UpdateTaskMessage::FailedSpecific { .. } => true,
        _ => false,
    }
}

/// May a first message about `part` come after `prev`? The boot loader's
/// comes first of all; the game data's comes first of all or after a message
/// that ended the work on the boot loader.
pub open spec fn opens_part(prev: Option<UpdateTaskMessage>, part: Part) -> bool {
    match prev {
        None => true,
        Some(before) => part == Part::Dats && closes_part(before) && before.part() == Some(
            Part::Bootloader,
        ),
    }
}

/// May `message` come directly after `prev` (`None`: as the first message)?
pub open spec fn may_follow(prev: Option<UpdateTaskMessage>, message: UpdateTaskMessage) -> bool {
    match message {
        UpdateTaskMessage::DownloadPending { id } => opens_part(prev, id),
        UpdateTaskMessage::DownloadStarted { id, .. } => prev == Some(
            UpdateTaskMessage::DownloadPending { id },
        ),
        UpdateTaskMessage::DownloadProgress { id, finished_length } => match prev {
            Some(UpdateTaskMessage::DownloadStarted { id: part, .. }) => part == id,
            Some(UpdateTaskMessage::DownloadProgress { id: part, finished_length: before }) => part
                == id && before <= finished_length,
            _ => false,
        },
        UpdateTaskMessage::DownloadFinished { id } => match prev {
            Some(UpdateTaskMessage::DownloadStarted { id: part, .. }) => part == id,
            Some(UpdateTaskMessage::DownloadProgress { id: part, .. }) => part == id,
            _ => false,
        },
        UpdateTaskMessage::UnpackPending { id } => id == Part::Dats && prev == Some(
            UpdateTaskMessage::DownloadFinished { id },
        ),
        UpdateTaskMessage::UnpackFinished { id } => id == Part::Dats && prev == Some(
            UpdateTaskMessage::UnpackPending { id },
        ),
        UpdateTaskMessage::FailedSpecific { id } => opens_part(prev, id) || match prev {
            Some(before) => before.part() == Some(id) && !(before is FailedSpecific),
            None => false,
        },
        UpdateTaskMessage::Done => match prev {
            None => true,
            Some(before) => closes_part(before),
        },
    }
}

/// The message before position `i` of `messages`, where `prev` came before
/// all of them.
pub open spec fn before(
    prev: Option<UpdateTaskMessage>,
    messages: Seq<UpdateTaskMessage>,
    i: int,
) -> Option<UpdateTaskMessage> {
    if i <= 0 {
        prev
    } else {
        Some(messages[i - 1])
    }
}

/// Every message of `messages` may follow the one before it, `prev` being
/// the one before the first.
pub open spec fn in_order(prev: Option<UpdateTaskMessage>, messages: Seq<UpdateTaskMessage>) -> bool {
    forall|i: int| 0 <= i < messages.len() ==> may_follow(before(prev, messages, i), #[trigger] messages[i])
}

/// The phase agrees with the last message that was sent.
pub open spec fn phase_fits(task: UpdateTaskView, last: Option<UpdateTaskMessage>) -> bool {
    match task.phase {
        UpdatePhase::Marker(part) => opens_part(last, part),
        UpdatePhase::Directory(part) => opens_part(last, part),
        UpdatePhase::Connecting(part) => last == Some(
            UpdateTaskMessage::DownloadPending { id: part },
        ),
        UpdatePhase::Streaming(part) => match last {
            Some(UpdateTaskMessage::DownloadStarted { id, .. }) => id == part,
            Some(UpdateTaskMessage::DownloadProgress { id, finished_length }) => id == part
                && finished_length == task.finished_length,
            _ => false,
        },
        UpdatePhase::Unpacking => last == Some(
            UpdateTaskMessage::UnpackPending { id: Part::Dats },
        ),
        UpdatePhase::Committing(part) => match part {
            Part::Bootloader => last == Some(UpdateTaskMessage::DownloadFinished { id: part }),
            Part::Dats => last == Some(UpdateTaskMessage::UnpackFinished { id: part }),
        },
        UpdatePhase::Finished => last == Some(UpdateTaskMessage::Done),
    }
}

/// The messages of two lists of actions, one after the other.
pub proof fn lemma_sent_concat(a: Seq<UpdateActionView>, b: Seq<UpdateActionView>)
    ensures
        sent(a + b) == sent(a) + sent(b),
    decreases b.len(),
{
    if b.len() == 0 {
        assert(a + b =~= a);
        assert(sent(a) + sent(b) =~= sent(a));
    } else {
        lemma_sent_concat(a, b.drop_last());
        assert((a + b).drop_last() =~= a + b.drop_last());
        assert((a + b).last() == b.last());
        match b.last() {
            UpdateActionView::Send(message) => {
                assert(sent(a) + sent(b.drop_last()).push(message) =~= (sent(a) + sent(
                    b.drop_last(),
                )).push(message));
            },
            _ => {},
        }
    }
}

/// The last of `messages`, or `prev` where there is none.
pub open spec fn last_after(prev: Option<UpdateTaskMessage>, messages: Seq<UpdateTaskMessage>) -> Option<
    UpdateTaskMessage,
> {
    before(prev, messages, messages.len() as int)
}

/// Two runs of messages in order, the second begun where the first ended,
/// are in order together.
pub proof fn lemma_in_order_concat(
    prev: Option<UpdateTaskMessage>,
    a: Seq<UpdateTaskMessage>,
    b: Seq<UpdateTaskMessage>,
)
    requires
        in_order(prev, a),
        in_order(last_after(prev, a), b),
    ensures
        in_order(prev, a + b),
        last_after(prev, a + b) == last_after(last_after(prev, a), b),
{
    assert forall|i: int| 0 <= i < (a + b).len() implies may_follow(
        before(prev, a + b, i),
        #[trigger] (a + b)[i],
    ) by {
        if i < a.len() {
            assert((a + b)[i] == a[i]);
            assert(before(prev, a + b, i) == before(prev, a, i));
        } else {
            let j = i - a.len();
            assert((a + b)[i] == b[j]);
            assert(before(prev, a + b, i) == before(last_after(prev, a), b, j));
        }
    }
}

/// The outcome of a step sends its messages in order after `last` and ends
/// in a state that agrees with the last of them.
pub open spec fn keeps_order(
    last: Option<UpdateTaskMessage>,
    outcome: (UpdateTaskView, Seq<UpdateActionView>),
) -> bool {
    in_order(last, sent(outcome.1)) && phase_fits(outcome.0, last_after(last, sent(outcome.1)))
}

/// Is the work on `part` over, or was nothing sent yet?
pub open spec fn settled(last: Option<UpdateTaskMessage>, part: Part) -> bool {
    match last {
        None => true,
        Some(message) => closes_part(message) && (part == Part::Bootloader ==> message.part()
            == Some(Part::Bootloader)),
    }
}

proof fn lemma_leave_in_order(task: UpdateTaskView, part: Part, last: Option<UpdateTaskMessage>)
    requires
        settled(last, part),
    ensures
        keeps_order(last, task.leave(part)),
{
    reveal_with_fuel(sent, 2);
    let outcome = task.leave(part);
    if outcome.0.phase == UpdatePhase::Finished {
        assert(sent(outcome.1) =~= seq![UpdateTaskMessage::Done]);
    } else {
        assert(sent(outcome.1) =~= Seq::<UpdateTaskMessage>::empty());
    }
}

proof fn lemma_fail_in_order(task: UpdateTaskView, part: Part, last: Option<UpdateTaskMessage>)
    requires
        may_follow(last, UpdateTaskMessage::FailedSpecific { id: part }),
    ensures
        keeps_order(last, task.fail(part)),
{
    reveal_with_fuel(sent, 2);
    let failed = UpdateTaskMessage::FailedSpecific { id: part };
    let first = one_sent(failed);
    assert(sent(first) =~= seq![failed]);
    lemma_leave_in_order(task, part, Some(failed));
    lemma_sent_concat(first, task.leave(part).1);
    assert(in_order(last, sent(first)));
    lemma_in_order_concat(last, sent(first), sent(task.leave(part).1));
}

/// The list of the one action that sends `message`.
pub open spec fn one_sent(message: UpdateTaskMessage) -> Seq<UpdateActionView> {
    Seq::empty().push(UpdateActionView::Send(message))
}

proof fn lemma_begin_part_in_order(
    task: UpdateTaskView,
    last: Option<UpdateTaskMessage>,
    event: UpdateEventView,
)
    requires
        phase_fits(task, last),
        task.phase is Marker || task.phase is Directory,
    ensures
        keeps_order(last, task.step(event)),
{
    reveal_with_fuel(sent, 3);
    let outcome = task.step(event);
    match (task.phase, event) {
        (UpdatePhase::Marker(part), UpdateEventView::Marker(marker)) => {
            lemma_leave_in_order(task, part, last);
            if outcome.0.phase == UpdatePhase::Directory(part) {
                assert(sent(outcome.1) =~= Seq::<UpdateTaskMessage>::empty());
            }
        },
        (UpdatePhase::Directory(part), UpdateEventView::Succeeded) => {
            lemma_leave_in_order(task, part, last);
            if task.versions.entry(part) is Some {
                assert(sent(outcome.1) =~= seq![UpdateTaskMessage::DownloadPending { id: part }]);
            }
        },
        (UpdatePhase::Directory(part), UpdateEventView::Failed) => {
            lemma_fail_in_order(task, part, last);
        },
        _ => {
            assert(sent(outcome.1) =~= Seq::<UpdateTaskMessage>::empty());
        },
    }
}

proof fn lemma_download_in_order(
    task: UpdateTaskView,
    last: Option<UpdateTaskMessage>,
    event: UpdateEventView,
)
    requires
        phase_fits(task, last),
        task.phase is Connecting || task.phase is Streaming,
    ensures
        keeps_order(last, task.step(event)),
{
    reveal_with_fuel(sent, 4);
    let outcome = task.step(event);
    match (task.phase, event) {
        (UpdatePhase::Connecting(part), UpdateEventView::Started { content_length }) => {
            assert(sent(outcome.1).len() == 1);
        },
        (UpdatePhase::Connecting(part), UpdateEventView::Failed) => {
            lemma_fail_in_order(task, part, last);
        },
        (UpdatePhase::Streaming(part), UpdateEventView::Chunk { length }) => {
            assert(sent(outcome.1).len() == 1);
        },
        (UpdatePhase::Streaming(part), UpdateEventView::StreamEnded) => {
            if task.versions.entry(part) is Some {
                match part {
                    Part::Bootloader => {
                        assert(sent(outcome.1) =~= seq![
                            UpdateTaskMessage::DownloadFinished { id: part },
                        ]);
                    },
                    Part::Dats => {
                        assert(sent(outcome.1) =~= seq![
                            UpdateTaskMessage::DownloadFinished { id: part },
                            UpdateTaskMessage::UnpackPending { id: part },
                        ]);
                    },
                }
            } else {
                lemma_fail_in_order(task, part, last);
            }
        },
        (UpdatePhase::Streaming(part), UpdateEventView::Failed) => {
            lemma_fail_in_order(task, part, last);
        },
        _ => {
            assert(sent(outcome.1) =~= Seq::<UpdateTaskMessage>::empty());
        },
    }
}

proof fn lemma_end_part_in_order(
    task: UpdateTaskView,
    last: Option<UpdateTaskMessage>,
    event: UpdateEventView,
)
    requires
        phase_fits(task, last),
        task.phase is Unpacking || task.phase is Committing || task.phase is Finished,
    ensures
        keeps_order(last, task.step(event)),
{
    reveal_with_fuel(sent, 4);
    let outcome = task.step(event);
    match (task.phase, event) {
        (UpdatePhase::Unpacking, UpdateEventView::Succeeded) => {
            if task.versions.dats is Some {
                assert(sent(outcome.1) =~= seq![
                    UpdateTaskMessage::UnpackFinished { id: Part::Dats },
                ]);
            } else {
                lemma_fail_in_order(task, Part::Dats, last);
            }
        },
        (UpdatePhase::Unpacking, UpdateEventView::Failed) => {
            lemma_fail_in_order(task, Part::Dats, last);
        },
        (UpdatePhase::Committing(part), UpdateEventView::Succeeded) => {
            lemma_leave_in_order(task, part, last);
        },
        (UpdatePhase::Committing(part), UpdateEventView::Failed) => {
            lemma_fail_in_order(task, part, last);
        },
        _ => {
            assert(sent(outcome.1) =~= Seq::<UpdateTaskMessage>::empty());
        },
    }
}

/// One step from a state that agrees with the last message sends messages
/// in order and ends in a state that agrees with the last of them.
pub proof fn lemma_step_in_order(
    task: UpdateTaskView,
    last: Option<UpdateTaskMessage>,
    event: UpdateEventView,
)
    requires
        phase_fits(task, last),
    ensures
        in_order(last, sent(task.step(event).1)),
        phase_fits(task.step(event).0, last_after(last, sent(task.step(event).1))),
{
    if task.phase is Marker || task.phase is Directory {
        lemma_begin_part_in_order(task, last, event);
    } else if task.phase is Connecting || task.phase is Streaming {
        lemma_download_in_order(task, last, event);
    } else {
        lemma_end_part_in_order(task, last, event);
    }
}

/// A run from a state that agrees with the last message sends messages in
/// order and ends in a state that agrees with the last of them.
pub proof fn lemma_run_in_order(
    task: UpdateTaskView,
    last: Option<UpdateTaskMessage>,
    events: Seq<UpdateEventView>,
)
    requires
        phase_fits(task, last),
    ensures
        in_order(last, sent(task.run(events).1)),
        phase_fits(task.run(events).0, last_after(last, sent(task.run(events).1))),
    decreases events.len(),
{
    if events.len() > 0 {
        let earlier = task.run(events.drop_last());
        lemma_run_in_order(task, last, events.drop_last());
        let reached = last_after(last, sent(earlier.1));
        lemma_step_in_order(earlier.0, reached, events.last());
        let step = earlier.0.step(events.last());
        lemma_sent_concat(earlier.1, step.1);
        lemma_in_order_concat(last, sent(earlier.1), sent(step.1));
    }
}

/// All actions of a task from its beginning through a sequence of events.
pub open spec fn all_actions(
    versions: VersionsInfoView,
    ashita_directory: PathView,
    server_filename: Seq<char>,
    events: Seq<UpdateEventView>,
) -> Seq<UpdateActionView> {
    let start = begin(versions, ashita_directory, server_filename);
    start.1 + start.0.run(events).1
}

/// Whatever happens outside, the messages of a task come in order: for each
/// part `DownloadPending`, then `DownloadStarted`, then `DownloadProgress`
/// with counts that never fall, then `DownloadFinished`; for the game data
/// then `UnpackPending` and `UnpackFinished`; `FailedSpecific` at most once
/// for a part and as the last word on it; `Done` only after the last word on
/// a part or as the only message.
pub proof fn lemma_messages_in_order(
    versions: VersionsInfoView,
    ashita_directory: PathView,
    server_filename: Seq<char>,
    events: Seq<UpdateEventView>,
)
    ensures
        in_order(None, sent(all_actions(versions, ashita_directory, server_filename, events))),
{
    reveal_with_fuel(sent, 3);
    let start = begin(versions, ashita_directory, server_filename);
    let first = sent(start.1);
    assert(in_order(None, first));
    assert(phase_fits(start.0, last_after(None, first)));
    lemma_run_in_order(start.0, last_after(None, first), events);
    lemma_sent_concat(start.1, start.0.run(events).1);
    lemma_in_order_concat(None, first, sent(start.0.run(events).1));
}

/// How far a message is in the course of the task: 0 for the boot loader,
/// 1 for the game data, 2 for `Done`.
pub open spec fn stage(message: UpdateTaskMessage) -> int {
    match message.part() {
        Some(Part::Bootloader) => 0,
        Some(Part::Dats) => 1,
        None => 2,
    }
}

/// In messages that are in order, the stage never falls.
pub proof fn lemma_stage_never_falls(messages: Seq<UpdateTaskMessage>, i: int, j: int)
    requires
        in_order(None, messages),
        0 <= i <= j < messages.len(),
    ensures
        stage(messages[i]) <= stage(messages[j]),
    decreases j - i,
{
    if i < j {
        lemma_stage_never_falls(messages, i, j - 1);
        assert(may_follow(before(None, messages, j), messages[j]));
    }
}

/// Whatever happens outside, every message about the boot loader comes
/// before every message about the game data, and `Done` comes last and once.
pub proof fn lemma_bootloader_before_dats(
    versions: VersionsInfoView,
    ashita_directory: PathView,
    server_filename: Seq<char>,
    events: Seq<UpdateEventView>,
)
    ensures
        ({
            let messages = sent(all_actions(versions, ashita_directory, server_filename, events));
            forall|i: int, j: int|
                0 <= i < j < messages.len() ==> {
                    &&& (#[trigger] messages[i]).part() == Some(Part::Dats) ==> (
                    #[trigger] messages[j]).part() != Some(Part::Bootloader)
                    &&& messages[i] != UpdateTaskMessage::Done
                }
        }),
{
    let messages = sent(all_actions(versions, ashita_directory, server_filename, events));
    lemma_messages_in_order(versions, ashita_directory, server_filename, events);
    assert forall|i: int, j: int| 0 <= i < j < messages.len() implies {
        &&& (#[trigger] messages[i]).part() == Some(Part::Dats) ==> (#[trigger] messages[j]).part()
            != Some(Part::Bootloader)
        &&& messages[i] != UpdateTaskMessage::Done
    } by {
        lemma_stage_never_falls(messages, i, j);
        lemma_stage_never_falls(messages, i, i + 1);
        assert(may_follow(before(None, messages, i + 1), messages[i + 1]));
    }
}

/// Does the marker write at place `i` of `actions` stand where it may?
/// The boot loader's stands directly behind the message that its download
/// is finished; the game data's stands behind the message that the archive
/// is unpacked, with only the archive's removal between. Either writes the
/// part's own marker with the version that the server published.
pub open spec fn marker_follows(task: UpdateTaskView, actions: Seq<UpdateActionView>, i: int) -> bool {
    ||| {
        &&& i >= 1
        &&& actions[i - 1] == UpdateActionView::Send(
            UpdateTaskMessage::DownloadFinished { id: Part::Bootloader },
        )
        &&& task.versions.bootloader matches Some(info)
        &&& actions[i] == (UpdateActionView::WriteMarker {
            path: task.marker_path(Part::Bootloader),
            version: info.version,
        })
    }
    ||| {
        &&& i >= 2
        &&& actions[i - 2] == UpdateActionView::Send(
            UpdateTaskMessage::UnpackFinished { id: Part::Dats },
        )
        &&& actions[i - 1] == (UpdateActionView::RemoveFile {
            path: task.asset_path(Part::Dats),
        })
        &&& task.versions.dats matches Some(info)
        &&& actions[i] == (UpdateActionView::WriteMarker {
            path: task.marker_path(Part::Dats),
            version: info.version,
        })
    }
}

/// Does every marker write among `actions` stand where it may?
pub open spec fn markers_follow_completion(
    task: UpdateTaskView,
    actions: Seq<UpdateActionView>,
) -> bool {
    forall|i: int|
        0 <= i < actions.len() && (#[trigger] actions[i]) is WriteMarker ==> marker_follows(
            task,
            actions,
            i,
        )
}

/// Do two states speak of the same server, directories and published versions?
pub open spec fn same_subject(a: UpdateTaskView, b: UpdateTaskView) -> bool {
    a.versions == b.versions && a.ashita_directory == b.ashita_directory && a.server_filename
        == b.server_filename
}

/// A step keeps the subject of the task, and writes a marker only where it
/// may: behind the message that the part's files are in place.
pub proof fn lemma_step_markers(task: UpdateTaskView, event: UpdateEventView)
    ensures
        same_subject(task, task.step(event).0),
        markers_follow_completion(task, task.step(event).1),
{
}

/// A list of actions goes on where another ends: a marker write that
/// stands where it may in its own list does so in the two together.
proof fn lemma_marker_follows_shifted(
    task: UpdateTaskView,
    other: UpdateTaskView,
    first: Seq<UpdateActionView>,
    second: Seq<UpdateActionView>,
    j: int,
)
    requires
        same_subject(task, other),
        0 <= j < second.len(),
        marker_follows(other, second, j),
    ensures
        marker_follows(task, first + second, first.len() + j),
{
    let all = first + second;
    let i = first.len() + j;
    assert(all[i] == second[j]);
    if j >= 1 {
        assert(all[i - 1] == second[j - 1]);
    }
    if j >= 2 {
        assert(all[i - 2] == second[j - 2]);
    }
    assert(other.marker_path(Part::Bootloader) == task.marker_path(Part::Bootloader));
    assert(other.marker_path(Part::Dats) == task.marker_path(Part::Dats));
    assert(other.asset_path(Part::Dats) == task.asset_path(Part::Dats));
}

/// A run keeps the subject of the task, and writes a marker only where it
/// may: behind the message that the part's files are in place.
pub proof fn lemma_run_markers(task: UpdateTaskView, events: Seq<UpdateEventView>)
    ensures
        same_subject(task, task.run(events).0),
        markers_follow_completion(task, task.run(events).1),
    decreases events.len(),
{
    if events.len() > 0 {
        let earlier = task.run(events.drop_last());
        lemma_run_markers(task, events.drop_last());
        lemma_step_markers(earlier.0, events.last());
        let step = earlier.0.step(events.last());
        let all = earlier.1 + step.1;
        assert forall|i: int|
            0 <= i < all.len() && (#[trigger] all[i]) is WriteMarker implies marker_follows(
            task,
            all,
            i,
        ) by {
            if i < earlier.1.len() {
                assert(all[i] == earlier.1[i]);
                assert(marker_follows(task, earlier.1, i));
                assert(all[i - 1] == earlier.1[i - 1]);
                if i >= 2 {
                    assert(all[i - 2] == earlier.1[i - 2]);
                }
            } else {
                let j = i - earlier.1.len();
                assert(all[i] == step.1[j]);
                lemma_marker_follows_shifted(task, earlier.0, earlier.1, step.1, j);
            }
        }
    }
}

/// Whatever happens outside, a version marker is written only behind the
/// message that the part's download (and, for the game data, its
/// unpacking) is finished, and it is the part's own marker that is written,
/// with the version that the server published for the part.
pub proof fn lemma_marker_written_after_completion(
    versions: VersionsInfoView,
    ashita_directory: PathView,
    server_filename: Seq<char>,
    events: Seq<UpdateEventView>,
)
    ensures
        markers_follow_completion(
            begin(versions, ashita_directory, server_filename).0,
            all_actions(versions, ashita_directory, server_filename, events),
        ),
{
    let start = begin(versions, ashita_directory, server_filename);
    lemma_run_markers(start.0, events);
    let rest = start.0.run(events).1;
    let all = start.1 + rest;
    assert forall|i: int|
        0 <= i < all.len() && (#[trigger] all[i]) is WriteMarker implies marker_follows(
        start.0,
        all,
        i,
    ) by {
        if i < start.1.len() {
            assert(all[i] == start.1[i]);
        } else {
            let j = i - start.1.len();
            assert(all[i] == rest[j]);
            lemma_marker_follows_shifted(start.0, start.0, start.1, rest, j);
        }
    }
}

/// A failure of the boot loader's part is told and leaves the game data's
/// part to be attempted: the task turns to the game data's marker where the
/// server publishes game data, and to its end where it does not.
pub proof fn lemma_bootloader_failure_turns_to_dats(task: UpdateTaskView, event: UpdateEventView)
    requires
        event is Failed,
        task.phase == UpdatePhase::Directory(Part::Bootloader) || task.phase
            == UpdatePhase::Connecting(Part::Bootloader) || task.phase == UpdatePhase::Streaming(
            Part::Bootloader,
        ) || task.phase == UpdatePhase::Committing(Part::Bootloader),
    ensures
        task.step(event).1[0] == UpdateActionView::Send(
            UpdateTaskMessage::FailedSpecific { id: Part::Bootloader },
        ),
        task.versions.dats is Some ==> task.step(event).0.phase == UpdatePhase::Marker(Part::Dats)
            && task.step(event).1 =~= seq![
            UpdateActionView::Send(UpdateTaskMessage::FailedSpecific { id: Part::Bootloader }),
            UpdateActionView::ReadMarker { path: task.marker_path(Part::Dats) },
        ],
        task.versions.dats is None ==> task.step(event).0.phase == UpdatePhase::Finished
            && task.step(event).1 =~= seq![
            UpdateActionView::Send(UpdateTaskMessage::FailedSpecific { id: Part::Bootloader }),
            UpdateActionView::Send(UpdateTaskMessage::Done),
        ],
{
}

/// Once the task is finished, nothing changes it and it asks for nothing.
pub proof fn lemma_finished_is_final(task: UpdateTaskView, events: Seq<UpdateEventView>)
    requires
        task.phase == UpdatePhase::Finished,
    ensures
        task.run(events) == (task, Seq::<UpdateActionView>::empty()),
    decreases events.len(),
{
    if events.len() > 0 {
        lemma_finished_is_final(task, events.drop_last());
        assert(Seq::<UpdateActionView>::empty() + Seq::<UpdateActionView>::empty()
            =~= Seq::<UpdateActionView>::empty());
    }
}

} // verus!
