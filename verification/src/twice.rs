use crate::config::BackupView;
use crate::config::ConfigView;
use crate::disk::asked;
use crate::disk::history;
use crate::disk::kind_on;
use crate::disk::lemma_after_take;
use crate::disk::lemma_history_holds;
use crate::disk::lemma_history_keeps;
use crate::disk::same_but_at;
use crate::disk::step_on_disk;
use crate::disk::target_is_free;
use crate::disk::Node;
use crate::laws::about_to_write;
use crate::laws::after;
use crate::laws::lemma_next_waits;
use crate::laws::lemma_step_targets;
use crate::laws::reply;
use crate::laws::waits_on;
use crate::model::Job;
use crate::model::Phase;
use crate::model::TaskView;
use crate::protocol::EventView;
use crate::protocol::OutcomeView;
use crate::protocol::PathKind;
use crate::protocol::RequestView;
use vstd::prelude::*;

verus! {

/// Whether two configurations hold the same backups, with the same names,
/// sources and destinations: they differ at most in the times of the last
/// runs.
pub open spec fn same_plan(a: ConfigView, b: ConfigView) -> bool {
    &&& a.backups.len() == b.backups.len()
    &&& forall|i: int|
        0 <= i < a.backups.len() ==> #[trigger] a.backups[i] == (BackupView {
            last_run: a.backups[i].last_run,
            ..b.backups[i]
        })
}

/// What a run finds around it, as far as two runs have to find it alike:
/// for each source directory the answer to its listing, for each source
/// path the answer to its probe, and the configuration but for the times of
/// the last runs.
pub struct Setting {
    pub listings: Map<Seq<u8>, EventView>,
    pub probes: Map<Seq<u8>, EventView>,
    pub plan: ConfigView,
}

/// Whether the event at `k` of a history is what `setting` has for the
/// request that it answers: a listing or a probe on the side of the sources
/// is answered as `setting` holds it, and the configuration is there and
/// decodes to one with the plan of `setting`.
pub open spec fn answers_from(s: TaskView, events: Seq<EventView>, setting: Setting, k: int) -> bool {
    let t = after(s, events.take(k));
    let e = events[k];
    match t.phase {
        Phase::Listing => e == setting.listings[t.entry_source],
        Phase::SourceProbe | Phase::EntrySource => e == setting.probes[t.entry_source],
        Phase::LoadProbe => e != EventView::Kind(PathKind::Missing),
        Phase::LoadRead => e is Text,
        Phase::LoadDecode => {
            &&& e is Decoded
            &&& e->Decoded_0 is Config
            &&& same_plan(e->Decoded_0->Config_0, setting.plan)
        },
        _ => true,
    }
}

/// Whether a history finds all around it as `setting` has it.
pub open spec fn finds(s: TaskView, events: Seq<EventView>, setting: Setting) -> bool {
    forall|k: int| 0 <= k < events.len() ==> #[trigger] answers_from(s, events, setting, k)
}

/// Whether a history has run to its end without an error.
pub open spec fn completes(s: TaskView, events: Seq<EventView>) -> bool {
    &&& events.len() > 0
    &&& reply(s, events, events.len() - 1) == RequestView::Finish(OutcomeView::Completed)
}

/// Whether two tasks are at the same point of the same work: they are equal
/// but for their configurations, which have the same plan.
pub open spec fn alike(a: TaskView, b: TaskView) -> bool {
    &&& b == (TaskView { document: b.document, ..a })
    &&& a.document is Some <==> b.document is Some
    &&& a.document is Some ==> {
        &&& a.document->0 is Config
        &&& b.document->0 is Config
        &&& same_plan(a.config(), b.config())
    }
}

/// Two configurations with the plan of a third have the same plan.
pub proof fn lemma_same_plan_meets(a: ConfigView, b: ConfigView, c: ConfigView)
    requires
        same_plan(a, c),
        same_plan(b, c),
    ensures
        same_plan(a, b),
{
    assert forall|i: int| 0 <= i < a.backups.len() implies #[trigger] a.backups[i] == (BackupView {
        last_run: a.backups[i].last_run,
        ..b.backups[i]
    }) by {
        assert(a.backups[i] == (BackupView { last_run: a.backups[i].last_run, ..c.backups[i] }));
        assert(b.backups[i] == (BackupView { last_run: b.backups[i].last_run, ..c.backups[i] }));
    }
}

/// Configurations with the same plan resolve every pair of names alike, and
/// hold the same sources at each position.
pub proof fn lemma_same_plan_resolves(a: ConfigView, b: ConfigView, backup_name: Seq<char>, device_name: Seq<char>)
    requires
        same_plan(a, b),
    ensures
        a.backup_index(backup_name) == b.backup_index(backup_name),
        a.destination(backup_name, device_name) == b.destination(backup_name, device_name),
        forall|i: int|
            0 <= i < a.backups.len() ==> (#[trigger] a.backups[i]).source_paths
                == b.backups[i].source_paths,
{
    assert forall|i: int| 0 <= i < a.backups.len() implies a.backups[i].name == b.backups[i].name
        && a.backups[i].destinations == b.backups[i].destinations && (#[trigger] a.backups[i]).source_paths
        == b.backups[i].source_paths by {
        assert(a.backups[i] == (BackupView { last_run: a.backups[i].last_run, ..b.backups[i] }));
    }
    assert(a.names() =~= b.names());
    a.names().index_of_first_ensures(backup_name);
    match a.backup_index(backup_name) {
        Some(i) => {
            assert(a.backups[i].device_names() =~= b.backups[i].device_names());
        },
        None => {},
    }
}

/// Configurations with the same plan still have the same plan when each
/// records a time for the backup of one name.
pub proof fn lemma_same_plan_stamped(
    a: ConfigView,
    b: ConfigView,
    name: Seq<char>,
    then: crate::clock::Timestamp,
    now: crate::clock::Timestamp,
)
    requires
        same_plan(a, b),
    ensures
        same_plan(a.stamped(name, then), b.stamped(name, now)),
{
    lemma_same_plan_resolves(a, b, name, Seq::empty());
    a.names().index_of_first_ensures(name);
    let x = a.stamped(name, then);
    let y = b.stamped(name, now);
    assert forall|i: int| 0 <= i < x.backups.len() implies #[trigger] x.backups[i] == (BackupView {
        last_run: x.backups[i].last_run,
        ..y.backups[i]
    }) by {
        assert(a.backups[i] == (BackupView { last_run: a.backups[i].last_run, ..b.backups[i] }));
    }
}

/// Tasks that are alike, whatever request each had answered last, go on
/// with the walk alike.
pub proof fn lemma_advance_alike(a: TaskView, b: TaskView)
    requires
        alike(TaskView { phase: b.phase, ..a }, b),
        a.job == Job::Mirror || (a.resolved() && b.resolved()),
    ensures
        alike(a.advance().0, b.advance().0),
        a.advance().1 == b.advance().1,
    decreases a.stack.len(),
{
    if a.stack.len() == 0 {
        if a.job != Job::Mirror {
            lemma_same_plan_resolves(a.config(), b.config(), a.backup_name, a.device_name);
        }
    } else {
        let top = a.stack.last();
        if !(0 <= top.next < top.names.len()) && top.failure is None {
            lemma_advance_alike(
                TaskView { stack: a.stack.drop_last(), ..a },
                TaskView { stack: b.stack.drop_last(), ..b },
            );
        }
    }
}

/// A task that is over takes no more events: the step that ends a task is
/// the last of its history.
pub proof fn lemma_finished_is_last(
    s: TaskView,
    first: RequestView,
    events: Seq<EventView>,
    disks: Seq<Map<Seq<u8>, Node>>,
    k: int,
)
    requires
        history(s, first, events, disks),
        0 <= k <= events.len(),
        after(s, events.take(k)).phase == Phase::Finished,
    ensures
        k == events.len(),
{
    if k < events.len() {
        assert(after(s, events.take(k)).accepts(events[k]));
    }
}

/// In a history that completes, no step before the last ends the task, and
/// none ends it on an error.
pub proof fn lemma_completing_goes_on(
    s: TaskView,
    first: RequestView,
    events: Seq<EventView>,
    disks: Seq<Map<Seq<u8>, Node>>,
    k: int,
)
    requires
        s.wf(),
        waits_on(s, first),
        target_is_free(s, disks[0]),
        history(s, first, events, disks),
        completes(s, events),
        0 <= k < events.len(),
    ensures
        reply(s, events, k) is Finish ==> k == events.len() - 1 && reply(s, events, k)
            == RequestView::Finish(OutcomeView::Completed),
        !(reply(s, events, k) is Finish) ==> k + 1 < events.len(),
{
    lemma_history_holds(s, first, events, disks, k + 1);
    if reply(s, events, k) is Finish {
        lemma_finished_is_last(s, first, events, disks, k + 1);
    } else {
        if k + 1 == events.len() {
            assert(reply(s, events, k) is Finish);
        }
    }
}

/// Whether `s`, waiting on `first`, is a run or a mirror that is no dry run,
/// at a point before anything was loaded or written.
pub open spec fn begins(s: TaskView, first: RequestView) -> bool {
    &&& s.wf()
    &&& s.job == Job::Mirror || s.job == Job::Run
    &&& !s.dry_run
    &&& !about_to_write(s)
    &&& s.phase != Phase::Stamp
    &&& !s.in_save()
    &&& s.document is None
    &&& waits_on(s, first)
}

/// A run and a mirror that are no dry runs begin as `begins` asks.
pub proof fn lemma_start_begins(
    dir: Seq<u8>,
    backup_name: Seq<char>,
    device_name: Seq<char>,
    source_dir: Seq<u8>,
    dest_dir: Seq<u8>,
)
    ensures
        begins(
            TaskView::start_run(dir, backup_name, device_name, false).0,
            TaskView::start_run(dir, backup_name, device_name, false).1,
        ),
        begins(
            TaskView::start_mirror(source_dir, dest_dir, false).0,
            TaskView::start_mirror(source_dir, dest_dir, false).1,
        ),
{
}

/// Whether a history is one of a run, or of a mirror, that is no dry run,
/// from a point before anything was loaded or written, and finds all around
/// it as `setting` has it.
pub open spec fn runs_in(
    s: TaskView,
    first: RequestView,
    setting: Setting,
    events: Seq<EventView>,
    disks: Seq<Map<Seq<u8>, Node>>,
) -> bool {
    &&& begins(s, first)
    &&& history(s, first, events, disks)
    &&& finds(s, events, setting)
}

/// What holds at the step `j` of a history of a run: the task is well formed
/// and what it was, waits on the request asked last, accepts the event, and
/// becomes what the step makes of it; the disk allows the step; and, where
/// the history completes, the step ends the task only if it is the last, and
/// then with all done.
pub proof fn lemma_step_of_run(
    s: TaskView,
    first: RequestView,
    setting: Setting,
    events: Seq<EventView>,
    disks: Seq<Map<Seq<u8>, Node>>,
    j: int,
)
    requires
        runs_in(s, first, setting, events, disks),
        0 <= j < events.len(),
    ensures
        ({
            let t = after(s, events.take(j));
            let e = events[j];
            &&& t.wf()
            &&& crate::laws::same_task(t, s)
            &&& t.accepts(e)
            &&& waits_on(t, asked(s, first, events, j))
            &&& target_is_free(t, disks[j])
            &&& crate::disk::carries_out(disks[j], asked(s, first, events, j), e, disks[j + 1])
            &&& answers_from(s, events, setting, j)
            &&& after(s, events.take(j + 1)) == t.next(e).0
            &&& reply(s, events, j) == t.next(e).1
            &&& waits_on(t.next(e).0, t.next(e).1)
            &&& asked(s, first, events, j + 1) == t.next(e).1
            &&& completes(s, events) ==> {
                &&& t.next(e).1 is Finish ==> j == events.len() - 1 && t.next(e).1
                    == RequestView::Finish(OutcomeView::Completed)
                &&& !(t.next(e).1 is Finish) ==> j + 1 < events.len()
            }
        }),
{
    lemma_history_holds(s, first, events, disks, j);
    lemma_after_take(s, events, j);
    let t = after(s, events.take(j));
    assert(t.accepts(events[j]));
    assert(step_on_disk(s, first, events, disks, j));
    assert(answers_from(s, events, setting, j));
    lemma_next_waits(t, events[j]);
    if completes(s, events) {
        lemma_completing_goes_on(s, first, events, disks, j);
    }
}

/// What stands on the disk at some point of a history that completes stands
/// there at its end: unchanged, unless it is the file of the store, which a
/// run writes again before it ends.
pub proof fn lemma_present_at_the_end(
    s: TaskView,
    first: RequestView,
    setting: Setting,
    events: Seq<EventView>,
    disks: Seq<Map<Seq<u8>, Node>>,
    i: int,
    q: Seq<u8>,
)
    requires
        runs_in(s, first, setting, events, disks),
        completes(s, events),
        0 <= i <= events.len(),
        disks[i].contains_key(q),
    ensures
        disks.last().contains_key(q),
        q != s.path || s.job == Job::Mirror ==> disks.last()[q] == disks[i][q],
{
    let n = events.len() as int;
    lemma_history_keeps(s, first, events, disks, i, n);
    if q == s.path && s.job == Job::Run {
        let j = n - 1;
        lemma_step_of_run(s, first, setting, events, disks, j);
        let t = after(s, events.take(j));
        crate::laws::lemma_walk_lands(t, events[j]);
        assert(t.phase == Phase::SaveWrite);
    }
}

/// Whether the first run at its step `ja` and the second at its step `jb`
/// are at the same point, with the disk of the second still as the first
/// left it.
pub open spec fn paired(
    s: TaskView,
    events_a: Seq<EventView>,
    events_b: Seq<EventView>,
    disks_b: Seq<Map<Seq<u8>, Node>>,
    ja: int,
    jb: int,
) -> bool {
    &&& 0 <= ja <= events_a.len()
    &&& alike(after(s, events_a.take(ja)), after(s, events_b.take(jb)))
    &&& disks_b[jb] == disks_b[0]
    &&& !about_to_write(after(s, events_b.take(jb)))
}

/// Whether after `kb` events of the second run what the theorem claims
/// holds, with the first run at its step `ka`.
pub open spec fn follows(
    s: TaskView,
    events_a: Seq<EventView>,
    events_b: Seq<EventView>,
    disks_b: Seq<Map<Seq<u8>, Node>>,
    ka: int,
    kb: int,
) -> bool {
    &&& 0 <= ka <= events_a.len()
    &&& !about_to_write(after(s, events_b.take(kb)))
    &&& after(s, events_b.take(kb)).phase != Phase::Finished ==> paired(
        s,
        events_a,
        events_b,
        disks_b,
        ka,
        kb,
    )
    &&& same_but_at(disks_b[0], disks_b[kb], s.path)
    &&& s.job == Job::Mirror ==> disks_b[kb] == disks_b[0]
}

/// The first run is not over where the second, at the same point, goes on.
pub proof fn lemma_first_goes_on(
    s: TaskView,
    first: RequestView,
    setting: Setting,
    events_a: Seq<EventView>,
    disks_a: Seq<Map<Seq<u8>, Node>>,
    events_b: Seq<EventView>,
    disks_b: Seq<Map<Seq<u8>, Node>>,
    ja: int,
    jb: int,
)
    requires
        runs_in(s, first, setting, events_a, disks_a),
        completes(s, events_a),
        runs_in(s, first, setting, events_b, disks_b),
        paired(s, events_a, events_b, disks_b, ja, jb),
        0 <= jb < events_b.len(),
    ensures
        ja < events_a.len(),
{
    let n = events_a.len() as int;
    lemma_step_of_run(s, first, setting, events_b, disks_b, jb);
    if ja == n {
        lemma_history_holds(s, first, events_a, disks_a, n);
        assert(events_a.take(n) =~= events_a);
        assert(false);
    }
}

/// The step of the second run where both runs are handed what they find in
/// the same way: while the configuration is loaded, at a source, and from
/// the clock on.
pub proof fn lemma_follow_alongside(
    s: TaskView,
    first: RequestView,
    setting: Setting,
    events_a: Seq<EventView>,
    disks_a: Seq<Map<Seq<u8>, Node>>,
    events_b: Seq<EventView>,
    disks_b: Seq<Map<Seq<u8>, Node>>,
    ja: int,
    jb: int,
)
    requires
        runs_in(s, first, setting, events_a, disks_a),
        completes(s, events_a),
        runs_in(s, first, setting, events_b, disks_b),
        paired(s, events_a, events_b, disks_b, ja, jb),
        0 <= jb < events_b.len(),
        ({
            let p = after(s, events_b.take(jb)).phase;
            p != Phase::DestProbe && p != Phase::EntryDestDir && p != Phase::EntryDestFile
        }),
    ensures
        follows(s, events_a, events_b, disks_b, ja + 1, jb + 1),
{
    lemma_first_goes_on(s, first, setting, events_a, disks_a, events_b, disks_b, ja, jb);
    lemma_step_of_run(s, first, setting, events_a, disks_a, ja);
    lemma_step_of_run(s, first, setting, events_b, disks_b, jb);
    let ta = after(s, events_a.take(ja));
    let tb = after(s, events_b.take(jb));
    let ea = events_a[ja];
    let eb = events_b[jb];
    lemma_step_targets(tb, eb);
    match tb.phase {
        Phase::LoadDecode => {
            let ca = ea->Decoded_0->Config_0;
            let cb = eb->Decoded_0->Config_0;
            lemma_same_plan_meets(ca, cb, setting.plan);
            lemma_same_plan_resolves(ca, cb, s.backup_name, s.device_name);
        },
        Phase::Listing => {
            if let EventView::Listing(names, failure) = eb {
                lemma_advance_alike(ta.opened(names, failure), tb.opened(names, failure));
            }
        },
        Phase::Stamp => {
            lemma_same_plan_stamped(ta.config(), tb.config(), s.backup_name, ea->Time_0, eb->Time_0);
        },
        _ => {},
    }
}

/// The step of the second run at the probe of where a directory goes: the
/// first run found the directory there or created it, so the second finds
/// it.
pub proof fn lemma_follow_directory(
    s: TaskView,
    first: RequestView,
    setting: Setting,
    events_a: Seq<EventView>,
    disks_a: Seq<Map<Seq<u8>, Node>>,
    events_b: Seq<EventView>,
    disks_b: Seq<Map<Seq<u8>, Node>>,
    ja: int,
    jb: int,
) -> (ka: int)
    requires
        runs_in(s, first, setting, events_a, disks_a),
        completes(s, events_a),
        runs_in(s, first, setting, events_b, disks_b),
        disks_b[0] == disks_a.last(),
        paired(s, events_a, events_b, disks_b, ja, jb),
        0 <= jb < events_b.len(),
        ({
            let p = after(s, events_b.take(jb)).phase;
            p == Phase::DestProbe || p == Phase::EntryDestDir
        }),
    ensures
        follows(s, events_a, events_b, disks_b, ka, jb + 1),
{
    lemma_first_goes_on(s, first, setting, events_a, disks_a, events_b, disks_b, ja, jb);
    lemma_step_of_run(s, first, setting, events_a, disks_a, ja);
    lemma_step_of_run(s, first, setting, events_b, disks_b, jb);
    let ta = after(s, events_a.take(ja));
    let tb = after(s, events_b.take(jb));
    let ea = events_a[ja];
    let eb = events_b[jb];
    lemma_step_targets(tb, eb);
    let q = if tb.phase == Phase::DestProbe {
        tb.dest_root
    } else {
        tb.entry_dest
    };
    assert(ea == EventView::Kind(kind_on(disks_a[ja], q)));
    assert(eb == EventView::Kind(kind_on(disks_b[jb], q)));
    if tb.phase == Phase::DestProbe {
        lemma_same_plan_resolves(ta.config(), tb.config(), s.backup_name, s.device_name);
    }
    if ea == EventView::Kind(PathKind::Missing) {
        let ja1 = ja + 1;
        lemma_step_of_run(s, first, setting, events_a, disks_a, ja1);
        assert(disks_a[ja1 + 1].contains_key(q));
        lemma_present_at_the_end(s, first, setting, events_a, disks_a, ja1 + 1, q);
        ja + 2
    } else {
        assert(disks_a[ja].contains_key(q));
        lemma_present_at_the_end(s, first, setting, events_a, disks_a, ja, q);
        ja + 1
    }
}

/// The step of the second run at the probe of where a file goes: the first
/// run found something there or copied the file, so the second passes the
/// file over.
pub proof fn lemma_follow_file(
    s: TaskView,
    first: RequestView,
    setting: Setting,
    events_a: Seq<EventView>,
    disks_a: Seq<Map<Seq<u8>, Node>>,
    events_b: Seq<EventView>,
    disks_b: Seq<Map<Seq<u8>, Node>>,
    ja: int,
    jb: int,
) -> (ka: int)
    requires
        runs_in(s, first, setting, events_a, disks_a),
        completes(s, events_a),
        runs_in(s, first, setting, events_b, disks_b),
        disks_b[0] == disks_a.last(),
        paired(s, events_a, events_b, disks_b, ja, jb),
        0 <= jb < events_b.len(),
        after(s, events_b.take(jb)).phase == Phase::EntryDestFile,
    ensures
        follows(s, events_a, events_b, disks_b, ka, jb + 1),
{
    lemma_first_goes_on(s, first, setting, events_a, disks_a, events_b, disks_b, ja, jb);
    lemma_step_of_run(s, first, setting, events_a, disks_a, ja);
    lemma_step_of_run(s, first, setting, events_b, disks_b, jb);
    let ta = after(s, events_a.take(ja));
    let tb = after(s, events_b.take(jb));
    let ea = events_a[ja];
    let eb = events_b[jb];
    lemma_step_targets(tb, eb);
    let q = tb.entry_dest;
    assert(ea == EventView::Kind(kind_on(disks_a[ja], q)));
    assert(eb == EventView::Kind(kind_on(disks_b[jb], q)));
    if ea == EventView::Kind(PathKind::Missing) {
        let ja1 = ja + 1;
        lemma_step_of_run(s, first, setting, events_a, disks_a, ja1);
        let ja2 = ja + 2;
        lemma_step_of_run(s, first, setting, events_a, disks_a, ja2);
        let t2 = after(s, events_a.take(ja2));
        assert(disks_a[ja2 + 1].contains_key(q));
        lemma_present_at_the_end(s, first, setting, events_a, disks_a, ja2 + 1, q);
        lemma_advance_alike(t2.stepped(), tb.stepped());
        ja + 3
    } else {
        assert(disks_a[ja].contains_key(q));
        lemma_present_at_the_end(s, first, setting, events_a, disks_a, ja, q);
        lemma_advance_alike(ta.stepped(), tb.stepped());
        ja + 1
    }
}

/// A second run goes the way of the first. Where a run, or a mirror, has
/// completed on a disk, and the same then runs again on the disk that the
/// first left, finding all around it as the first did, then after each step
/// of the second the first was at some step at the same point, unless the
/// second is over; the second never waits for anything to be created or
/// copied; and until it is over the disk is as the first left it.
pub proof fn lemma_second_follows_first(
    s: TaskView,
    first: RequestView,
    setting: Setting,
    events_a: Seq<EventView>,
    disks_a: Seq<Map<Seq<u8>, Node>>,
    events_b: Seq<EventView>,
    disks_b: Seq<Map<Seq<u8>, Node>>,
    kb: int,
) -> (ka: int)
    requires
        runs_in(s, first, setting, events_a, disks_a),
        completes(s, events_a),
        runs_in(s, first, setting, events_b, disks_b),
        disks_b[0] == disks_a.last(),
        0 <= kb <= events_b.len(),
    ensures
        follows(s, events_a, events_b, disks_b, ka, kb),
    decreases kb,
{
    if kb == 0 {
        assert(events_a.take(0) =~= Seq::empty());
        assert(events_b.take(0) =~= Seq::empty());
        return 0;
    }
    let jb = kb - 1;
    let ja = lemma_second_follows_first(s, first, setting, events_a, disks_a, events_b, disks_b, jb);
    let tb = after(s, events_b.take(jb));
    assert(tb.accepts(events_b[jb]));
    if tb.phase == Phase::DestProbe || tb.phase == Phase::EntryDestDir {
        lemma_follow_directory(s, first, setting, events_a, disks_a, events_b, disks_b, ja, jb)
    } else if tb.phase == Phase::EntryDestFile {
        lemma_follow_file(s, first, setting, events_a, disks_a, events_b, disks_b, ja, jb)
    } else {
        lemma_follow_alongside(s, first, setting, events_a, disks_a, events_b, disks_b, ja, jb);
        ja + 1
    }
}

/// Running a second time copies nothing. Where a run, or a mirror, has
/// completed on a disk, and the same then runs again on the disk that the
/// first left, finding the sources and the configuration as the first did,
/// the second asks for no directory and for no copy. It leaves the disk as
/// the first left it, but for the file of the store, where a run records its
/// time.
pub proof fn lemma_second_run_copies_nothing(
    s: TaskView,
    first: RequestView,
    setting: Setting,
    events_a: Seq<EventView>,
    disks_a: Seq<Map<Seq<u8>, Node>>,
    events_b: Seq<EventView>,
    disks_b: Seq<Map<Seq<u8>, Node>>,
    k: int,
)
    requires
        runs_in(s, first, setting, events_a, disks_a),
        completes(s, events_a),
        runs_in(s, first, setting, events_b, disks_b),
        disks_b[0] == disks_a.last(),
        0 <= k < events_b.len(),
    ensures
        !(reply(s, events_b, k) is CopyFile),
        !(reply(s, events_b, k) is CreateDir),
        same_but_at(disks_a.last(), disks_b[k + 1], s.path),
        s.job == Job::Mirror ==> disks_b[k + 1] == disks_a.last(),
{
    let ka = lemma_second_follows_first(s, first, setting, events_a, disks_a, events_b, disks_b, k + 1);
    lemma_history_holds(s, first, events_b, disks_b, k + 1);
}

} // verus!
