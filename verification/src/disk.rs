use crate::laws::admissible;
use crate::laws::after;
use crate::laws::lemma_dry_step_mutates_nothing;
use crate::laws::lemma_next_same_task;
use crate::laws::lemma_next_waits;
use crate::laws::reply;
use crate::laws::same_task;
use crate::laws::waits_on;
use crate::model::lemma_next_wf;
use crate::model::Job;
use crate::model::Phase;
use crate::model::TaskView;
use crate::protocol::EventView;
use crate::protocol::PathKind;
use crate::protocol::RequestView;
use vstd::prelude::*;

verus! {

/// What a path holds on a disk: a file with its bytes, or a directory.
pub enum Node {
    File(Seq<u8>),
    Directory,
}

/// What a probe of `path` finds on `disk`.
pub open spec fn kind_on(disk: Map<Seq<u8>, Node>, path: Seq<u8>) -> PathKind {
    if !disk.contains_key(path) {
        PathKind::Missing
    } else if disk[path] is Directory {
        PathKind::Directory
    } else {
        PathKind::File
    }
}

/// Whether `after` holds at every path but `path` what `before` holds there.
pub open spec fn same_but_at(before: Map<Seq<u8>, Node>, after: Map<Seq<u8>, Node>, path: Seq<u8>) -> bool {
    forall|p: Seq<u8>|
        p != path ==> {
            &&& before.contains_key(p) <==> #[trigger] after.contains_key(p)
            &&& before.contains_key(p) ==> before[p] == after[p]
        }
}

/// Whether carrying out `request` on the disk `before` can give `event` and
/// leave the disk `after`. A probe reports what the path holds. A directory
/// that is created, and a file that is copied or written, come to stand at
/// the path that was asked for; a copy or a write that fails may leave
/// anything at its target. Nothing else changes.
pub open spec fn carries_out(
    before: Map<Seq<u8>, Node>,
    request: RequestView,
    event: EventView,
    after: Map<Seq<u8>, Node>,
) -> bool {
    match request {
        RequestView::Probe(p) => {
            &&& after == before
            &&& event is Kind ==> event == EventView::Kind(kind_on(before, p))
        },
        RequestView::CreateDir(p) => if event is Done {
            after == before.insert(p, Node::Directory)
        } else {
            after == before
        },
        RequestView::CopyFile { from, to } => if event is Done {
            &&& before.contains_key(from)
            &&& after == before.insert(to, before[from])
        } else {
            same_but_at(before, after, to)
        },
        RequestView::WriteText(p, _) => {
            &&& same_but_at(before, after, p)
            &&& event is Done ==> after.contains_key(p)
        },
        _ => after == before,
    }
}

/// The request that `events[k]` answers: the first request of the task, or
/// the one that the task made on the event before.
pub open spec fn asked(s: TaskView, first: RequestView, events: Seq<EventView>, k: int) -> RequestView {
    if k == 0 {
        first
    } else {
        reply(s, events, k - 1)
    }
}

/// Whether the step at `k` of a history is one that the disk allows.
pub open spec fn step_on_disk(
    s: TaskView,
    first: RequestView,
    events: Seq<EventView>,
    disks: Seq<Map<Seq<u8>, Node>>,
    k: int,
) -> bool {
    carries_out(disks[k], asked(s, first, events, k), events[k], disks[k + 1])
}

/// Whether `events` and `disks` tell of the task `s`, which begins by asking
/// `first`, driven on a disk: `disks[0]` is the disk at the beginning, each
/// event answers the request before it as the disk allows, and `disks[k + 1]`
/// is the disk that carrying out that request leaves.
pub open spec fn history(
    s: TaskView,
    first: RequestView,
    events: Seq<EventView>,
    disks: Seq<Map<Seq<u8>, Node>>,
) -> bool {
    &&& disks.len() == events.len() + 1
    &&& admissible(s, events)
    &&& forall|k: int| 0 <= k < events.len() ==> #[trigger] step_on_disk(s, first, events, disks, k)
}

/// Whether `now` still holds, at every path but `store`, whatever `then`
/// held there.
pub open spec fn keeps(then: Map<Seq<u8>, Node>, now: Map<Seq<u8>, Node>, store: Seq<u8>) -> bool {
    forall|p: Seq<u8>|
        p != store && #[trigger] then.contains_key(p) ==> now.contains_key(p) && now[p] == then[p]
}

/// Whether `now` still holds whatever `then` held, at every path.
pub open spec fn keeps_all(then: Map<Seq<u8>, Node>, now: Map<Seq<u8>, Node>) -> bool {
    forall|p: Seq<u8>| #[trigger] then.contains_key(p) ==> now.contains_key(p) && now[p] == then[p]
}

/// Whether nothing stands on `disk` where the task is about to have something
/// created or copied to.
pub open spec fn target_is_free(s: TaskView, disk: Map<Seq<u8>, Node>) -> bool {
    match s.phase {
        Phase::DestCreate => !disk.contains_key(s.dest_root),
        Phase::EntryCreate | Phase::EntryAnnounce | Phase::EntryCopy => !disk.contains_key(
            s.entry_dest,
        ),
        _ => true,
    }
}

/// The task after `k + 1` events is the task after `k` events, stepped on
/// the event at `k`.
pub proof fn lemma_after_take(s: TaskView, events: Seq<EventView>, k: int)
    requires
        0 <= k < events.len(),
    ensures
        after(s, events.take(k + 1)) == after(s, events.take(k)).next(events[k]).0,
{
    assert(events.take(k + 1).drop_last() =~= events.take(k));
}

/// Along a history the task stays well formed and what it was, waits on the
/// request that was asked last, and waits for something to be created or
/// copied only where nothing stands.
pub proof fn lemma_history_holds(
    s: TaskView,
    first: RequestView,
    events: Seq<EventView>,
    disks: Seq<Map<Seq<u8>, Node>>,
    k: int,
)
    requires
        s.wf(),
        waits_on(s, first),
        history(s, first, events, disks),
        target_is_free(s, disks[0]),
        0 <= k <= events.len(),
    ensures
        after(s, events.take(k)).wf(),
        same_task(after(s, events.take(k)), s),
        waits_on(after(s, events.take(k)), asked(s, first, events, k)),
        target_is_free(after(s, events.take(k)), disks[k]),
    decreases k,
{
    if k == 0 {
        assert(events.take(0) =~= Seq::empty());
    } else {
        let j = k - 1;
        lemma_history_holds(s, first, events, disks, j);
        lemma_after_take(s, events, j);
        let t = after(s, events.take(j));
        let e = events[j];
        assert(t.accepts(e));
        assert(step_on_disk(s, first, events, disks, j));
        lemma_next_wf(t, e);
        lemma_next_same_task(t, e);
        lemma_next_waits(t, e);
        crate::laws::lemma_step_targets(t, e);
    }
}

/// No step of a history replaces or removes what stands on the disk, but for
/// the file of the store.
pub proof fn lemma_step_keeps(
    s: TaskView,
    first: RequestView,
    events: Seq<EventView>,
    disks: Seq<Map<Seq<u8>, Node>>,
    j: int,
)
    requires
        s.wf(),
        waits_on(s, first),
        history(s, first, events, disks),
        target_is_free(s, disks[0]),
        0 <= j < events.len(),
    ensures
        keeps(disks[j], disks[j + 1], s.path),
        s.job == Job::Mirror ==> keeps_all(disks[j], disks[j + 1]),
{
    lemma_history_holds(s, first, events, disks, j);
    assert(step_on_disk(s, first, events, disks, j));
    let r = asked(s, first, events, j);
    let k = j + 1;
    assert(carries_out(disks[j], r, events[j], disks[k]));
    assert forall|p: Seq<u8>| p != s.path && #[trigger] disks[j].contains_key(p) implies disks[k].contains_key(
        p,
    ) && disks[k][p] == disks[j][p] by {
        match r {
            RequestView::CreateDir(q) => {
                assert(p != q);
            },
            RequestView::CopyFile { from, to } => {
                assert(p != to);
                assert(disks[k].contains_key(p));
            },
            RequestView::WriteText(q, _) => {
                assert(p != q);
                assert(disks[k].contains_key(p));
            },
            _ => {},
        }
    }
    if s.job == Job::Mirror {
        assert forall|p: Seq<u8>| #[trigger] disks[j].contains_key(p) implies disks[k].contains_key(p)
            && disks[k][p] == disks[j][p] by {
            match r {
                RequestView::CreateDir(q) => {
                    assert(p != q);
                },
                RequestView::CopyFile { from, to } => {
                    assert(p != to);
                    assert(disks[k].contains_key(p));
                },
                _ => {},
            }
        }
    }
}

/// From any point of a history to any later one, whatever stood on the disk
/// still stands there unchanged, but for the file of the store.
pub proof fn lemma_history_keeps(
    s: TaskView,
    first: RequestView,
    events: Seq<EventView>,
    disks: Seq<Map<Seq<u8>, Node>>,
    i: int,
    k: int,
)
    requires
        s.wf(),
        waits_on(s, first),
        history(s, first, events, disks),
        target_is_free(s, disks[0]),
        0 <= i <= k <= events.len(),
    ensures
        keeps(disks[i], disks[k], s.path),
        s.job == Job::Mirror ==> keeps_all(disks[i], disks[k]),
    decreases k - i,
{
    if i < k {
        lemma_history_keeps(s, first, events, disks, i, k - 1);
        lemma_step_keeps(s, first, events, disks, k - 1);
    }
}

/// Nothing that stands on the disk is ever replaced or removed. Whatever a
/// task does, driven on a disk, each path that held something before holds
/// the same after, but for the file of the store, which a save rewrites. A
/// file that is already at its place in the destination is so never written
/// over, whatever its bytes are.
pub proof fn lemma_what_exists_is_kept(
    s: TaskView,
    first: RequestView,
    events: Seq<EventView>,
    disks: Seq<Map<Seq<u8>, Node>>,
)
    requires
        s.wf(),
        waits_on(s, first),
        target_is_free(s, disks[0]),
        history(s, first, events, disks),
    ensures
        keeps(disks[0], disks.last(), s.path),
        s.job == Job::Mirror ==> keeps_all(disks[0], disks.last()),
{
    lemma_history_keeps(s, first, events, disks, 0, events.len() as int);
}

/// A dry run leaves the disk as it is: driven on a disk, a task that runs
/// dry has the same disk after each step as at the beginning.
pub proof fn lemma_dry_run_leaves_disk(
    s: TaskView,
    first: RequestView,
    events: Seq<EventView>,
    disks: Seq<Map<Seq<u8>, Node>>,
    k: int,
)
    requires
        s.wf(),
        s.dry_run,
        waits_on(s, first),
        history(s, first, events, disks),
        0 <= k <= events.len(),
    ensures
        disks[k] == disks[0],
    decreases k,
{
    if k > 0 {
        let j = k - 1;
        lemma_dry_run_leaves_disk(s, first, events, disks, j);
        lemma_history_holds(s, first, events, disks, j);
        assert(step_on_disk(s, first, events, disks, j));
        if j > 0 {
            let i = j - 1;
            lemma_history_holds(s, first, events, disks, i);
            lemma_after_take(s, events, i);
            let t = after(s, events.take(i));
            assert(t.accepts(events[i]));
            lemma_dry_step_mutates_nothing(t, events[i]);
        }
    }
}


} // verus!
