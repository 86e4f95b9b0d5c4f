use crate::model::copy_notice;
use crate::model::lemma_next_wf;
use crate::model::Job;
use crate::model::Phase;
use crate::model::TaskView;
use crate::protocol::EventView;
use crate::protocol::OutcomeView;
use crate::protocol::PathKind;
use crate::protocol::RequestView;
use vstd::prelude::*;

verus! {

/// The task as it stands once each of `events` has answered, in turn, the
/// request before it.
pub open spec fn after(s: TaskView, events: Seq<EventView>) -> TaskView
    decreases events.len(),
{
    if events.len() == 0 {
        s
    } else {
        after(s, events.drop_last()).next(events.last()).0
    }
}

/// The request that the task makes when it is handed `events[k]`.
pub open spec fn reply(s: TaskView, events: Seq<EventView>, k: int) -> RequestView {
    after(s, events.take(k)).next(events[k]).1
}

/// Whether each of `events` answers the request that the task waits on when
/// the event comes.
pub open spec fn admissible(s: TaskView, events: Seq<EventView>) -> bool {
    forall|k: int| 0 <= k < events.len() ==> #[trigger] after(s, events.take(k)).accepts(events[k])
}

/// What no step of a task changes: what it is for, how it runs, the names it
/// was given, and where its store is.
pub open spec fn same_task(a: TaskView, b: TaskView) -> bool {
    &&& a.job == b.job
    &&& a.store == b.store
    &&& a.path == b.path
    &&& a.dry_run == b.dry_run
    &&& a.backup_name == b.backup_name
    &&& a.device_name == b.device_name
}

/// Whether the walk, going on from `s`, lands where it can: at the probe of
/// the next entry or of the next source, at the clock, or at the end. It
/// keeps what the task is and the document that it holds. Only a real run
/// reads the clock, and only a mirror or a dry run ends there with all done.
pub open spec fn lands(s: TaskView) -> bool {
    let to = s.advance().0;
    let request = s.advance().1;
    &&& same_task(to, s)
    &&& to.document == s.document
    &&& match to.phase {
        Phase::EntrySource | Phase::SourceProbe => request == RequestView::Probe(to.entry_source),
        Phase::Stamp => request == RequestView::Clock && !s.dry_run,
        Phase::Finished => request is Finish,
        _ => false,
    }
    &&& request == RequestView::Finish(OutcomeView::Completed) ==> s.job == Job::Mirror || s.dry_run
}

/// The walk lands where it can, from wherever it goes on.
pub proof fn lemma_advance_lands(s: TaskView)
    ensures
        lands(s),
    decreases s.stack.len(),
{
    if s.stack.len() > 0 {
        let top = s.stack.last();
        if !(0 <= top.next < top.names.len()) && top.failure is None {
            lemma_advance_lands(TaskView { stack: s.stack.drop_last(), ..s });
        }
    }
}

/// The walk lands where it can in each step that goes on with it: after an
/// entry is dealt with, and after a directory is opened.
pub proof fn lemma_walk_lands(s: TaskView, event: EventView)
    ensures
        lands(s.stepped()),
        event is Listing ==> lands(s.opened(event->Listing_0, event->Listing_1)),
{
    lemma_advance_lands(s.stepped());
    if let EventView::Listing(names, failure) = event {
        lemma_advance_lands(s.opened(names, failure));
    }
}

/// No step changes what a task is.
pub proof fn lemma_next_same_task(s: TaskView, event: EventView)
    requires
        s.wf(),
        s.accepts(event),
    ensures
        same_task(s.next(event).0, s),
{
    lemma_walk_lands(s, event);
}

/// A dry run asks for nothing that changes the disk, never reads the clock
/// and never has the configuration encoded: whatever the event, the request
/// that answers it creates nothing, copies nothing and writes nothing, and
/// once the configuration is loaded it stays as it is.
pub proof fn lemma_dry_step_mutates_nothing(s: TaskView, event: EventView)
    requires
        s.wf(),
        s.dry_run,
        s.accepts(event),
    ensures
        !s.next(event).1.mutates(),
        !(s.next(event).1 is Clock),
        !(s.next(event).1 is Encode),
        !s.in_load() ==> s.next(event).0.document == s.document,
{
    lemma_walk_lands(s, event);
}

/// Whether `request` can be what the task waits on: a request that names a
/// path names the path that the task has at hand for it.
pub open spec fn waits_on(s: TaskView, request: RequestView) -> bool {
    match request {
        RequestView::Probe(p) => match s.phase {
            Phase::LoadProbe => p == s.path,
            Phase::DestProbe => p == s.dest_root,
            Phase::SourceProbe | Phase::EntrySource => p == s.entry_source,
            Phase::EntryDestDir | Phase::EntryDestFile => p == s.entry_dest,
            _ => false,
        },
        RequestView::ReadText(p) => s.phase == Phase::LoadRead && p == s.path,
        RequestView::Decode(store, _) => s.phase == Phase::LoadDecode && store == s.store,
        RequestView::Encode => s.phase == Phase::SaveEncode || s.phase == Phase::ShowEncode,
        RequestView::WriteText(p, _) => s.phase == Phase::SaveWrite && p == s.path,
        RequestView::List(p) => s.phase == Phase::Listing && p == s.entry_source,
        RequestView::CreateDir(p) => (s.phase == Phase::DestCreate && p == s.dest_root) || (s.phase
            == Phase::EntryCreate && p == s.entry_dest),
        RequestView::CopyFile { from, to } => s.phase == Phase::EntryCopy && from == s.entry_source
            && to == s.entry_dest,
        RequestView::Notice(text) => match s.phase {
            Phase::ShowPath => true,
            Phase::ShowText => text == s.shown,
            Phase::EntryWould | Phase::EntryAnnounce => text == copy_notice(
                s.dry_run,
                s.entry_source,
                s.entry_dest,
            ),
            _ => false,
        },
        RequestView::Clock => s.phase == Phase::Stamp,
        RequestView::Finish(_) => s.phase == Phase::Finished,
    }
}

/// After each step the task waits on the request that the step made.
pub proof fn lemma_next_waits(s: TaskView, event: EventView)
    requires
        s.wf(),
        s.accepts(event),
    ensures
        waits_on(s.next(event).0, s.next(event).1),
{
    lemma_walk_lands(s, event);
}

/// A task that begins waits on its first request.
pub proof fn lemma_start_waits(
    store: crate::protocol::Store,
    document: crate::protocol::DocumentView,
    dir: Seq<u8>,
    dest_dir: Seq<u8>,
    backup_name: Seq<char>,
    device_name: Seq<char>,
    dry_run: bool,
)
    ensures
        waits_on(TaskView::start_load(store, dir).0, TaskView::start_load(store, dir).1),
        waits_on(TaskView::start_initialize(store, dir).0, TaskView::start_initialize(store, dir).1),
        waits_on(TaskView::start_save(document, dir).0, TaskView::start_save(document, dir).1),
        waits_on(
            TaskView::start_run(dir, backup_name, device_name, dry_run).0,
            TaskView::start_run(dir, backup_name, device_name, dry_run).1,
        ),
        waits_on(
            TaskView::start_mirror(dir, dest_dir, dry_run).0,
            TaskView::start_mirror(dir, dest_dir, dry_run).1,
        ),
{
}

/// How a task comes to wait for something to be created or copied: only
/// from the probe of the very path, answered that nothing is there; a copy
/// is shown in between. The paths at hand stay as they are on the way.
pub proof fn lemma_step_targets(s: TaskView, event: EventView)
    requires
        s.wf(),
        s.accepts(event),
    ensures
        s.next(event).0.phase == Phase::DestCreate ==> s.phase == Phase::DestProbe && event
            == EventView::Kind(PathKind::Missing) && s.next(event).0.dest_root == s.dest_root,
        s.next(event).0.phase == Phase::EntryCreate ==> s.phase == Phase::EntryDestDir && event
            == EventView::Kind(PathKind::Missing) && s.next(event).0.entry_dest == s.entry_dest,
        s.next(event).0.phase == Phase::EntryAnnounce ==> s.phase == Phase::EntryDestFile && event
            == EventView::Kind(PathKind::Missing) && s.next(event).0.entry_dest == s.entry_dest,
        s.next(event).0.phase == Phase::EntryCopy ==> s.phase == Phase::EntryAnnounce && s.next(
            event,
        ).0.entry_dest == s.entry_dest,
{
    lemma_walk_lands(s, event);
}

/// Whether the task waits for something to be created or copied, or for the
/// word that a copy comes next.
pub open spec fn about_to_write(s: TaskView) -> bool {
    s.phase == Phase::DestCreate || s.phase == Phase::EntryCreate || s.phase
        == Phase::EntryAnnounce || s.phase == Phase::EntryCopy
}

/// Where every path that is probed is found to be there, nothing is created
/// and nothing is copied: as long as no probe is answered with `Missing`, the
/// task asks for no directory and for no copy. So a run that finds each
/// destination in place, as a run leaves them, copies no file.
pub proof fn lemma_nothing_missing_nothing_copied(s: TaskView, events: Seq<EventView>, k: int)
    requires
        s.wf(),
        !about_to_write(s),
        admissible(s, events),
        forall|i: int| 0 <= i < events.len() ==> events[i] != EventView::Kind(PathKind::Missing),
        0 <= k < events.len(),
    ensures
        after(s, events.take(k)).wf(),
        !about_to_write(after(s, events.take(k))),
        !(reply(s, events, k) is CopyFile),
        !(reply(s, events, k) is CreateDir),
    decreases k,
{
    if k == 0 {
        assert(events.take(0) =~= Seq::empty());
    } else {
        let j = k - 1;
        lemma_nothing_missing_nothing_copied(s, events, j);
        assert(events.take(k).drop_last() =~= events.take(j));
        let t = after(s, events.take(j));
        assert(t.accepts(events[j]));
        lemma_next_wf(t, events[j]);
        lemma_step_targets(t, events[j]);
    }
    let t = after(s, events.take(k));
    assert(t.accepts(events[k]));
    lemma_next_wf(t, events[k]);
    lemma_next_waits(t, events[k]);
    lemma_step_targets(t, events[k]);
}

/// The time of a run is recorded when the clock is read, after the last
/// source is mirrored: the first backup of the name gets the time as its
/// last run, nothing else in the configuration changes, and the
/// configuration is then encoded to be saved.
pub proof fn lemma_stamp_records_the_time(s: TaskView, now: crate::clock::Timestamp)
    requires
        s.wf(),
        s.phase == Phase::Stamp,
    ensures
        s.next(EventView::Time(now)).1 == RequestView::Encode,
        s.next(EventView::Time(now)).0.config() == s.config().stamped(s.backup_name, now),
        s.next(EventView::Time(now)).0.config().backups.len() == s.config().backups.len(),
        s.next(EventView::Time(now)).0.config().backups[s.backup_index] == s.config().backups[s.backup_index].stamped(
            now,
        ),
        forall|i: int|
            0 <= i < s.config().backups.len() && i != s.backup_index ==> s.next(
                EventView::Time(now),
            ).0.config().backups[i] == s.config().backups[i],
{
}

/// A run changes its configuration only when it records its time, and saves
/// it only after that: before the clock is read the configuration stays as
/// it was loaded and nothing is encoded or written, so a run that fails
/// while it mirrors leaves the time of the last run as it was.
pub proof fn lemma_only_the_stamp_changes_the_configuration(s: TaskView, event: EventView)
    requires
        s.wf(),
        s.job == Job::Run,
        s.accepts(event),
        !s.in_load(),
    ensures
        s.phase != Phase::Stamp ==> s.next(event).0.document == s.document,
        s.next(event).0.phase == Phase::SaveEncode ==> s.phase == Phase::Stamp,
        s.next(event).1 is Encode ==> s.phase == Phase::Stamp,
        s.next(event).1 is WriteText ==> s.phase == Phase::SaveEncode,
{
    lemma_walk_lands(s, event);
}

/// A dry run shows the copies that a real run makes. On the same answer to
/// the probe of where a file goes, a dry run shows a copy exactly when a real
/// run announces one, of the same file to the same place; where the place is
/// taken both pass the file over and go on alike.
pub proof fn lemma_dry_run_shows_what_a_real_run_copies(run: TaskView, event: EventView)
    requires
        run.wf(),
        !run.dry_run,
        run.phase == Phase::EntryDestFile,
        run.accepts(event),
    ensures
        ({
            let dry = TaskView { dry_run: true, ..run };
            if event == EventView::Kind(PathKind::Missing) {
                &&& run.next(event).1 == RequestView::Notice(
                    copy_notice(false, run.entry_source, run.entry_dest),
                )
                &&& dry.next(event).1 == RequestView::Notice(
                    copy_notice(true, run.entry_source, run.entry_dest),
                )
                &&& run.next(event).0.next(EventView::Done).1 == (RequestView::CopyFile {
                    from: run.entry_source,
                    to: run.entry_dest,
                })
            } else {
                &&& !(run.next(event).1 is Notice)
                &&& !(dry.next(event).1 is Notice)
                &&& dry.next(event).1 == run.next(event).1 || run.next(event).1 is Clock
                &&& dry.next(event).0.stack == run.next(event).0.stack
            }
        }),
{
    let dry = TaskView { dry_run: true, ..run };
    lemma_advance_lands(run.stepped());
    lemma_advance_lands(dry.stepped());
    lemma_advance_twin(run.stepped());
}

/// The walk goes on alike in a dry run and in a real run, up to the end of
/// the last source, where a real run reads the clock and a dry run is over.
pub proof fn lemma_advance_twin(run: TaskView)
    requires
        !run.dry_run,
    ensures
        ({
            let dry = TaskView { dry_run: true, ..run };
            &&& dry.advance().0.stack == run.advance().0.stack
            &&& dry.advance().1 == run.advance().1 || run.advance().1 is Clock
        }),
    decreases run.stack.len(),
{
    if run.stack.len() > 0 {
        let top = run.stack.last();
        if !(0 <= top.next < top.names.len()) && top.failure is None {
            lemma_advance_twin(TaskView { stack: run.stack.drop_last(), ..run });
        }
    }
}

/// A file whose place is taken is passed over: whatever stands there, a
/// file or a directory, the task shows nothing, copies nothing and goes on
/// with the walk.
pub proof fn lemma_file_in_place_is_passed_over(s: TaskView, kind: PathKind)
    requires
        s.wf(),
        s.phase == Phase::EntryDestFile,
        kind != PathKind::Missing,
    ensures
        s.next(EventView::Kind(kind)) == s.stepped().advance(),
        !(s.next(EventView::Kind(kind)).1 is Notice),
        !s.next(EventView::Kind(kind)).1.mutates(),
{
    lemma_advance_lands(s.stepped());
}

/// A directory whose place holds a file stops the task; one whose place is
/// free is created there, but not in a dry run; and in every other case the
/// task goes into the directory, also in a dry run that did not create its
/// place.
pub proof fn lemma_directory_is_entered(s: TaskView, kind: PathKind)
    requires
        s.wf(),
        s.phase == Phase::EntryDestDir,
    ensures
        ({
            let probed = s.next(EventView::Kind(kind));
            if kind == PathKind::File {
                probed.1 == RequestView::Finish(
                    OutcomeView::Failed(
                        crate::error::ErrorView::NotADirectory {
                            path: s.entry_dest,
                            path_type: crate::error::PathType::Dest,
                        },
                    ),
                )
            } else if kind == PathKind::Missing && !s.dry_run {
                &&& probed.1 == RequestView::CreateDir(s.entry_dest)
                &&& probed.0.next(EventView::Done).1 == RequestView::List(s.entry_source)
            } else {
                probed.1 == RequestView::List(s.entry_source)
            }
        }),
{
}

} // verus!
