use crate::machine::Machine;
use crate::model::TaskView;
use crate::protocol::Document;
use crate::protocol::Event;
use crate::protocol::Request;
use crate::protocol::Store;
use crate::util::path_units;
use std::path::PathBuf;
use vstd::prelude::*;

verus! {

/// One operation of this library in progress. It does no input or output
/// itself: it asks for each, one request at a time, and goes on when it is
/// handed the event that answers the request.
pub struct Task {
    machine: Machine,
}

impl View for Task {
    type V = TaskView;

    closed spec fn view(&self) -> TaskView {
        self.machine@
    }
}

impl Task {
    #[verifier::type_invariant]
    spec fn well_formed(self) -> bool {
        self.machine@.wf()
    }

    /// Begins to load the document of `store` from the directory `dir`.
    pub fn load(store: Store, dir: &PathBuf) -> (r: (Task, Request))
        ensures
            (r.0@, r.1@) == TaskView::start_load(store, path_units(*dir)),
            r.0@.wf(),
    {
        let (machine, request) = Machine::load(store, dir);
        (Task { machine }, request)
    }

    /// Begins to initialize `store` in the directory `dir`.
    pub fn initialize(store: Store, dir: &PathBuf) -> (r: (Task, Request))
        ensures
            (r.0@, r.1@) == TaskView::start_initialize(store, path_units(*dir)),
            r.0@.wf(),
    {
        let (machine, request) = Machine::initialize(store, dir);
        (Task { machine }, request)
    }

    /// Begins to save `document` to its store in the directory `dir`.
    pub fn save(document: Document, dir: &PathBuf) -> (r: (Task, Request))
        ensures
            (r.0@, r.1@) == TaskView::start_save(document@, path_units(*dir)),
            r.0@.wf(),
    {
        let (machine, request) = Machine::save(document, dir);
        (Task { machine }, request)
    }

    /// Begins to run the backup `backup_name` for the device `device_name`,
    /// with the configuration kept in `dir`.
    pub fn run(dir: &PathBuf, backup_name: &str, device_name: &str, dry_run: bool) -> (r: (
        Task,
        Request,
    ))
        ensures
            (r.0@, r.1@) == TaskView::start_run(
                path_units(*dir),
                backup_name@,
                device_name@,
                dry_run,
            ),
            r.0@.wf(),
    {
        let (machine, request) = Machine::run(dir, backup_name, device_name, dry_run);
        (Task { machine }, request)
    }

    /// Begins to mirror what is in `source_dir` into `dest_dir`.
    pub fn mirror(source_dir: &PathBuf, dest_dir: &PathBuf, dry_run: bool) -> (r: (Task, Request))
        ensures
            (r.0@, r.1@) == TaskView::start_mirror(
                path_units(*source_dir),
                path_units(*dest_dir),
                dry_run,
            ),
            r.0@.wf(),
    {
        let (machine, request) = Machine::mirror(source_dir, dest_dir, dry_run);
        (Task { machine }, request)
    }

    /// The document that the task holds, for a driver that is asked to encode
    /// it.
    pub fn document(&self) -> (r: &Option<Document>)
        ensures
            r is Some <==> self@.document is Some,
            r is Some ==> r->0@ == self@.document->0,
            self@.wf(),
    {
        proof {
            use_type_invariant(self);
        }
        self.machine.document()
    }

    /// Whether the task is over.
    pub fn is_finished(&self) -> (r: bool)
        ensures
            r == (self@.phase == crate::model::Phase::Finished),
    {
        self.machine.is_finished()
    }

    /// Whether `event` answers the request that the task waits on.
    pub fn accepts(&self, event: &Event) -> (r: bool)
        ensures
            r == self@.accepts(event@),
    {
        self.machine.accepts(event)
    }

    /// Takes the event that answers the last request, and returns the task
    /// as it goes on with the request that it makes next.
    pub fn step(self, event: Event) -> (r: (Task, Request))
        requires
            self@.accepts(event@),
        ensures
            (r.0@, r.1@) == self@.next(event@),
            self@.wf(),
            r.0@.wf(),
    {
        proof {
            use_type_invariant(&self);
        }
        let (machine, request) = self.machine.step(event);
        (Task { machine }, request)
    }

    /// Takes `event` if it answers the last request, and then returns the
    /// task as it goes on with the request that it makes next; hands back the
    /// task and the event, both as they were, if it does not.
    pub fn try_step(self, event: Event) -> (r: Result<(Task, Request), (Task, Event)>)
        ensures
            self@.wf(),
            match r {
                Ok(next) => {
                    &&& self@.accepts(event@)
                    &&& (next.0@, next.1@) == self@.next(event@)
                    &&& next.0@.wf()
                },
                Err(back) => {
                    &&& !self@.accepts(event@)
                    &&& back.0@ == self@
                    &&& back.1@ == event@
                },
            },
    {
        proof {
            use_type_invariant(&self);
        }
        if self.accepts(&event) {
            Ok(self.step(event))
        } else {
            Err((self, event))
        }
    }
}

} // verus!
