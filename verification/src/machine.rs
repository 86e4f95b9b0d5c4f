use crate::config::Config;
use crate::error::BackupError;
use crate::error::PathType;
use crate::model::copy_notice;
use crate::model::lemma_next_wf;
use crate::model::FrameView;
use crate::model::Job;
use crate::model::Phase;
use crate::model::TaskView;
use crate::protocol::Document;
use crate::protocol::DocumentView;
use crate::protocol::Event;
use crate::protocol::Outcome;
use crate::protocol::PathKind;
use crate::protocol::Request;
use crate::protocol::Store;
use crate::util::join_path;
use crate::util::path_debug;
use crate::util::path_of;
use crate::util::path_units;
use crate::util::pathbuf_to_str;
use crate::util::units_of;
use std::path::PathBuf;
use vstd::pervasive::unreached;
use vstd::prelude::*;
use vstd::string::StringExecFns;

verus! {

/// A source directory whose entries are being mirrored.
struct Frame {
    source_dir: PathBuf,
    dest_dir: PathBuf,
    names: Vec<PathBuf>,
    next: usize,
    failure: Option<std::io::Error>,
}

impl View for Frame {
    type V = FrameView;

    closed spec fn view(&self) -> FrameView {
        FrameView {
            source_dir: path_units(self.source_dir),
            dest_dir: path_units(self.dest_dir),
            names: units_of(self.names@),
            next: self.next as int,
            failure: self.failure,
        }
    }
}

/// The value of each frame of `frames`, in order.
spec fn frame_views(frames: Seq<Frame>) -> Seq<FrameView> {
    Seq::new(frames.len(), |i: int| frames[i]@)
}

/// The value of a document that may not be there yet.
spec fn document_view(document: Option<Document>) -> Option<DocumentView> {
    match document {
        Some(d) => Some(d@),
        None => None,
    }
}

/// The state of a task. It is well formed after each step that is taken from
/// a well-formed state on an event that the state accepts.
pub(crate) struct Machine {
    job: Job,
    store: Store,
    path: PathBuf,
    document: Option<Document>,
    phase: Phase,
    shown: String,
    backup_name: String,
    device_name: String,
    dry_run: bool,
    backup_index: usize,
    dest_root: PathBuf,
    next_source: usize,
    entry_source: PathBuf,
    entry_dest: PathBuf,
    stack: Vec<Frame>,
}

impl View for Machine {
    type V = TaskView;

    closed spec fn view(&self) -> TaskView {
        TaskView {
            job: self.job,
            store: self.store,
            path: path_units(self.path),
            document: document_view(self.document),
            phase: self.phase,
            shown: self.shown@,
            backup_name: self.backup_name@,
            device_name: self.device_name@,
            dry_run: self.dry_run,
            backup_index: self.backup_index as int,
            dest_root: path_units(self.dest_root),
            next_source: self.next_source as int,
            entry_source: path_units(self.entry_source),
            entry_dest: path_units(self.entry_dest),
            stack: frame_views(self.stack@),
        }
    }
}

impl Machine {
    /// A task before its first request, on the store kept in `dir`.
    fn fresh(job: Job, store: Store, dir: &PathBuf) -> (r: Machine)
        ensures
            r@ == TaskView::fresh(job, store, crate::model::store_path(path_units(*dir), store)),
    {
        let name = match store {
            Store::Config => path_of(".smartsync.toml"),
            Store::Registry => path_of(".smartsync-registry.toml"),
        };
        let r = Machine {
            job,
            store,
            path: join_path(dir, &name),
            document: None,
            phase: Phase::LoadProbe,
            shown: String::new(),
            backup_name: String::new(),
            device_name: String::new(),
            dry_run: false,
            backup_index: 0,
            dest_root: PathBuf::new(),
            next_source: 0,
            entry_source: PathBuf::new(),
            entry_dest: PathBuf::new(),
            stack: Vec::new(),
        };
        assert(r@.stack =~= Seq::empty());
        r
    }

    /// Begins to load the document of `store` from the directory `dir`.
    pub(crate) fn load(store: Store, dir: &PathBuf) -> (r: (Machine, Request))
        ensures
            (r.0@, r.1@) == TaskView::start_load(store, path_units(*dir)),
            r.0@.wf(),
    {
        let task = Machine::fresh(Job::Load, store, dir);
        let path = task.path.clone();
        (task, Request::Probe(path))
    }

    /// Begins to initialize `store` in the directory `dir`.
    pub(crate) fn initialize(store: Store, dir: &PathBuf) -> (r: (Machine, Request))
        ensures
            (r.0@, r.1@) == TaskView::start_initialize(store, path_units(*dir)),
            r.0@.wf(),
    {
        let task = Machine::fresh(Job::Initialize, store, dir);
        let path = task.path.clone();
        (task, Request::Probe(path))
    }

    /// Begins to save `document` to its store in the directory `dir`.
    pub(crate) fn save(document: Document, dir: &PathBuf) -> (r: (Machine, Request))
        ensures
            (r.0@, r.1@) == TaskView::start_save(document@, path_units(*dir)),
            r.0@.wf(),
    {
        let mut task = Machine::fresh(Job::Save, document.store(), dir);
        task.document = Some(document);
        task.phase = Phase::SaveEncode;
        (task, Request::Encode)
    }

    /// Begins to run the backup `backup_name` for the device `device_name`,
    /// with the configuration kept in `dir`.
    pub(crate) fn run(dir: &PathBuf, backup_name: &str, device_name: &str, dry_run: bool) -> (r: (
        Machine,
        Request,
    ))
        ensures
            (r.0@, r.1@) == TaskView::start_run(
                path_units(*dir),
                backup_name@,
                device_name@,
                dry_run,
            ),
            r.0@.wf(),
    {
        let mut task = Machine::fresh(Job::Run, Store::Config, dir);
        task.backup_name = String::from_str(backup_name);
        task.device_name = String::from_str(device_name);
        task.dry_run = dry_run;
        let path = task.path.clone();
        (task, Request::Probe(path))
    }

    /// Begins to mirror what is in `source_dir` into `dest_dir`.
    pub(crate) fn mirror(source_dir: &PathBuf, dest_dir: &PathBuf, dry_run: bool) -> (r: (Machine, Request))
        ensures
            (r.0@, r.1@) == TaskView::start_mirror(
                path_units(*source_dir),
                path_units(*dest_dir),
                dry_run,
            ),
            r.0@.wf(),
    {
        let r = Machine {
            job: Job::Mirror,
            store: Store::Config,
            path: PathBuf::new(),
            document: None,
            phase: Phase::Listing,
            shown: String::new(),
            backup_name: String::new(),
            device_name: String::new(),
            dry_run,
            backup_index: 0,
            dest_root: PathBuf::new(),
            next_source: 0,
            entry_source: source_dir.clone(),
            entry_dest: dest_dir.clone(),
            stack: Vec::new(),
        };
        assert(r@.stack =~= Seq::empty());
        (r, Request::List(source_dir.clone()))
    }

    /// The document that the task holds, for a driver that is asked to encode
    /// it.
    pub(crate) fn document(&self) -> (r: &Option<Document>)
        ensures
            r is Some <==> self@.document is Some,
            r is Some ==> r->0@ == self@.document->0,
    {
        &self.document
    }

    /// Whether the task is over.
    pub(crate) fn is_finished(&self) -> (r: bool)
        ensures
            r == (self@.phase == Phase::Finished),
    {
        self.phase == Phase::Finished
    }
}

impl Machine {
    /// Stops on `error`.
    fn fail(self, error: BackupError) -> (r: (Machine, Request))
        ensures
            (r.0@, r.1@) == self@.fail(error@),
    {
        let mut task = self;
        task.phase = Phase::Finished;
        (task, Request::Finish(Outcome::Failed(error)))
    }

    /// Ends with all done.
    fn complete(self) -> (r: (Machine, Request))
        ensures
            (r.0@, r.1@) == self@.complete(),
    {
        let mut task = self;
        task.phase = Phase::Finished;
        (task, Request::Finish(Outcome::Completed))
    }

    /// Asks for the encoding of the document, to write it next.
    fn begin_save(self) -> (r: (Machine, Request))
        ensures
            (r.0@, r.1@) == self@.begin_save(),
    {
        let mut task = self;
        task.phase = Phase::SaveEncode;
        (task, Request::Encode)
    }

    /// The configuration that a run works on.
    fn config(&self) -> (c: &Config)
        requires
            self@.document is Some,
            self@.document->0 is Config,
        ensures
            c@ == self@.config(),
    {
        match &self.document {
            Some(Document::Config(c)) => c,
            _ => unreached(),
        }
    }

    /// Finds the backup and the destination that the run was asked for.
    fn resolve(self) -> (r: (Machine, Request))
        requires
            self@.document is Some,
            self@.document->0 is Config,
        ensures
            (r.0@, r.1@) == self@.resolve(),
    {
        let mut task = self;
        let found = task.config().find_backup(task.backup_name.as_str());
        match found {
            None => {
                let backup_name = task.backup_name.clone();
                task.fail(BackupError::BackupNotFound { backup_name })
            },
            Some(i) => {
                let spot = task.config().backups[i].find_destination(task.device_name.as_str());
                match spot {
                    None => {
                        let backup_name = task.backup_name.clone();
                        let device_name = task.device_name.clone();
                        task.fail(BackupError::DeviceNotFound { device_name, backup_name })
                    },
                    Some(j) => {
                        let root = task.config().backups[i].destinations[j].path.clone();
                        task.phase = Phase::DestProbe;
                        task.backup_index = i;
                        task.dest_root = root.clone();
                        (task, Request::Probe(root))
                    },
                }
            },
        }
    }

    /// Goes on with the document of the store in hand.
    fn loaded(self, document: Document) -> (r: (Machine, Request))
        requires
            self@.job == Job::Run ==> document@ is Config,
        ensures
            (r.0@, r.1@) == self@.loaded(document@),
    {
        let mut task = self;
        match task.job {
            Job::Load => {
                task.phase = Phase::Finished;
                (task, Request::Finish(Outcome::Loaded(document)))
            },
            Job::Run => {
                task.document = Some(document);
                task.resolve()
            },
            _ => {
                task.document = Some(document);
                task.begin_save()
            },
        }
    }

    /// Goes on after the document is written.
    fn saved(self) -> (r: (Machine, Request))
        ensures
            (r.0@, r.1@) == self@.saved(),
    {
        let mut task = self;
        match task.job {
            Job::Initialize => {
                task.phase = Phase::ShowEncode;
                (task, Request::Encode)
            },
            _ => task.complete(),
        }
    }

    /// Ends a dry run; asks a real run for the time.
    fn finish_run(self) -> (r: (Machine, Request))
        ensures
            (r.0@, r.1@) == self@.finish_run(),
    {
        let mut task = self;
        if task.dry_run {
            task.complete()
        } else {
            task.phase = Phase::Stamp;
            (task, Request::Clock)
        }
    }

    /// How many source roots the backup has.
    fn source_count(&self) -> (r: usize)
        requires
            self@.resolved(),
        ensures
            r == self@.sources().len(),
    {
        let sources = &self.config().backups[self.backup_index].source_paths;
        assert(self@.sources().len() == sources@.len());
        sources.len()
    }

    /// The source root at position `at`, where the backup has that many.
    fn source_at(&self, at: usize) -> (r: Option<PathBuf>)
        requires
            self@.resolved(),
        ensures
            r is Some <==> at < self@.sources().len(),
            r is Some ==> path_units(r->0) == self@.sources()[at as int],
    {
        let sources = &self.config().backups[self.backup_index].source_paths;
        assert(self@.sources().len() == sources@.len());
        if at < sources.len() {
            Some(sources[at].clone())
        } else {
            None
        }
    }

    /// Turns to the source at `next_source`, or ends the run.
    fn begin_source(self) -> (r: (Machine, Request))
        requires
            self@.resolved(),
        ensures
            (r.0@, r.1@) == self@.begin_source(),
    {
        let mut task = self;
        match task.source_at(task.next_source) {
            Some(source) => {
                task.phase = Phase::SourceProbe;
                task.entry_source = source.clone();
                task.entry_dest = task.dest_root.clone();
                (task, Request::Probe(source))
            },
            None => task.finish_run(),
        }
    }

    /// Counts the entry at hand as dealt with.
    fn stepped(self) -> (r: Machine)
        requires
            self@.stack.len() > 0,
            self@.stack.last().next < self@.stack.last().names.len(),
        ensures
            r@ == self@.stepped(),
    {
        let mut task = self;
        let popped = task.stack.pop();
        match popped {
            Some(frame) => {
                let mut top = frame;
                let count = top.names.len();
                assert(top@ == self@.stack.last());
                assert(top@.names.len() == count);
                top.next = top.next + 1;
                task.stack.push(top);
                assert(task@.stack =~= self@.stepped().stack);
                task
            },
            None => unreached(),
        }
    }

    /// Goes on with the walk.
    fn advance(self) -> (r: (Machine, Request))
        requires
            self@.walking(),
            self@.bounded(),
        ensures
            (r.0@, r.1@) == self@.advance(),
        decreases self@.stack.len(),
    {
        let mut task = self;
        let depth = task.stack.len();
        if depth == 0 {
            if task.job == Job::Mirror {
                return task.complete();
            }
            let count = task.source_count();
            assert(task.next_source < count);
            task.next_source = task.next_source + 1;
            return task.begin_source();
        }
        let next = task.stack[depth - 1].next;
        if next < task.stack[depth - 1].names.len() {
            let source = join_path(&task.stack[depth - 1].source_dir, &task.stack[depth - 1].names[next]);
            let dest = join_path(&task.stack[depth - 1].dest_dir, &task.stack[depth - 1].names[next]);
            task.phase = Phase::EntrySource;
            task.entry_source = source.clone();
            task.entry_dest = dest;
            return (task, Request::Probe(source));
        }
        let popped = task.stack.pop();
        assert(task@.stack =~= self@.stack.drop_last());
        match popped {
            Some(frame) => match frame.failure {
                Some(e) => task.fail(BackupError::IO(e)),
                None => task.advance(),
            },
            None => unreached(),
        }
    }

    /// Lists the directory entry at hand, to mirror what is in it.
    fn descend(self) -> (r: (Machine, Request))
        requires
            self@.stack.len() > 0,
            self@.stack.last().next < self@.stack.last().names.len(),
        ensures
            (r.0@, r.1@) == self@.descend(),
    {
        let mut task = self.stepped();
        task.phase = Phase::Listing;
        let source = task.entry_source.clone();
        (task, Request::List(source))
    }

    /// The line that tells of the copy of the entry at hand.
    fn copy_notice(&self) -> (r: String)
        ensures
            r@ == copy_notice(self@.dry_run, self@.entry_source, self@.entry_dest),
    {
        let from = pathbuf_to_str(&self.entry_source);
        let to = pathbuf_to_str(&self.entry_dest);
        let lead = if self.dry_run {
            String::from_str("would copy ")
        } else {
            String::from_str("copying ")
        };
        lead.concat(from.as_str()).concat(" to ").concat(to.as_str())
    }
}

impl Machine {
    /// Whether `event` answers the request that the task waits on.
    pub(crate) fn accepts(&self, event: &Event) -> (r: bool)
        ensures
            r == self@.accepts(event@),
    {
        match self.phase {
            Phase::LoadProbe
            | Phase::DestProbe
            | Phase::SourceProbe
            | Phase::EntrySource
            | Phase::EntryDestDir
            | Phase::EntryDestFile => match event {
                Event::Kind(_) => true,
                _ => false,
            },
            Phase::LoadRead => match event {
                Event::Text(_) => true,
                Event::Failed(_) => true,
                _ => false,
            },
            Phase::LoadDecode => match event {
                Event::Decoded(document) => document.store() == self.store,
                Event::Undecodable(_) => true,
                _ => false,
            },
            Phase::SaveEncode | Phase::ShowEncode => match event {
                Event::Encoded(_) => true,
                Event::Unencodable(_) => true,
                _ => false,
            },
            Phase::SaveWrite | Phase::DestCreate | Phase::EntryCreate | Phase::EntryCopy => match event {
                Event::Done => true,
                Event::Failed(_) => true,
                _ => false,
            },
            Phase::Listing => match event {
                Event::Listing(_, _) => true,
                Event::Failed(_) => true,
                _ => false,
            },
            Phase::ShowPath | Phase::ShowText | Phase::EntryWould | Phase::EntryAnnounce => match event {
                Event::Done => true,
                _ => false,
            },
            Phase::Stamp => match event {
                Event::Time(_) => true,
                _ => false,
            },
            Phase::Finished => false,
        }
    }

    /// Takes the event that answers the last request, and returns the task
    /// as it goes on with the request that it makes next.
    pub(crate) fn step(self, event: Event) -> (r: (Machine, Request))
        requires
            self@.wf(),
            self@.accepts(event@),
        ensures
            (r.0@, r.1@) == self@.next(event@),
            r.0@.wf(),
    {
        proof {
            lemma_next_wf(self@, event@);
        }
        let mut task = self;
        match task.phase {
            Phase::LoadProbe => match event {
                Event::Kind(PathKind::Missing) => {
                    let document = Document::empty(task.store);
                    task.loaded(document)
                },
                _ => {
                    task.phase = Phase::LoadRead;
                    let path = task.path.clone();
                    (task, Request::ReadText(path))
                },
            },
            Phase::LoadRead => match event {
                Event::Text(text) => {
                    task.phase = Phase::LoadDecode;
                    let store = task.store;
                    (task, Request::Decode(store, text))
                },
                Event::Failed(e) => task.fail(BackupError::IO(e)),
                _ => unreached(),
            },
            Phase::LoadDecode => match event {
                Event::Decoded(document) => task.loaded(document),
                Event::Undecodable(e) => task.fail(BackupError::DeToml(e)),
                _ => unreached(),
            },
            Phase::SaveEncode => match event {
                Event::Encoded(text) => {
                    task.phase = Phase::SaveWrite;
                    let path = task.path.clone();
                    (task, Request::WriteText(path, text))
                },
                Event::Unencodable(e) => task.fail(BackupError::SerToml(e)),
                _ => unreached(),
            },
            Phase::SaveWrite => match event {
                Event::Failed(e) => task.fail(BackupError::IO(e)),
                _ => task.saved(),
            },
            Phase::ShowEncode => match event {
                Event::Encoded(text) => {
                    let word = match task.store {
                        Store::Config => String::from_str("config"),
                        Store::Registry => String::from_str("registry"),
                    };
                    let place = path_debug(&task.path);
                    task.phase = Phase::ShowPath;
                    task.shown = text;
                    (task, Request::Notice(word.concat(" initialized at ").concat(place.as_str())))
                },
                Event::Unencodable(e) => task.fail(BackupError::SerToml(e)),
                _ => unreached(),
            },
            Phase::ShowPath => {
                task.phase = Phase::ShowText;
                let text = task.shown.clone();
                (task, Request::Notice(text))
            },
            Phase::ShowText => task.complete(),
            Phase::DestProbe => match event {
                Event::Kind(PathKind::File) => {
                    let path = task.dest_root.clone();
                    task.fail(BackupError::NotADirectory { path, path_type: PathType::Dest })
                },
                Event::Kind(PathKind::Missing) if !task.dry_run => {
                    task.phase = Phase::DestCreate;
                    let path = task.dest_root.clone();
                    (task, Request::CreateDir(path))
                },
                _ => {
                    task.next_source = 0;
                    task.begin_source()
                },
            },
            Phase::DestCreate => match event {
                Event::Failed(e) => task.fail(BackupError::IO(e)),
                _ => {
                    task.next_source = 0;
                    task.begin_source()
                },
            },
            Phase::SourceProbe => match event {
                Event::Kind(PathKind::Missing) => {
                    let path = task.entry_source.clone();
                    task.fail(BackupError::DirectoryNotFound { path, path_type: PathType::Source })
                },
                Event::Kind(PathKind::File) => {
                    let path = task.entry_source.clone();
                    task.fail(BackupError::NotADirectory { path, path_type: PathType::Source })
                },
                _ => {
                    task.phase = Phase::Listing;
                    let path = task.entry_source.clone();
                    (task, Request::List(path))
                },
            },
            Phase::Listing => match event {
                Event::Listing(names, failure) => {
                    let frame = Frame {
                        source_dir: task.entry_source.clone(),
                        dest_dir: task.entry_dest.clone(),
                        names,
                        next: 0,
                        failure,
                    };
                    task.stack.push(frame);
                    assert(task@.stack =~= self@.stack.push(frame@));
                    task.advance()
                },
                Event::Failed(e) => task.fail(BackupError::IO(e)),
                _ => unreached(),
            },
            Phase::EntrySource => match event {
                Event::Kind(PathKind::Directory) => {
                    task.phase = Phase::EntryDestDir;
                    let path = task.entry_dest.clone();
                    (task, Request::Probe(path))
                },
                _ => {
                    task.phase = Phase::EntryDestFile;
                    let path = task.entry_dest.clone();
                    (task, Request::Probe(path))
                },
            },
            Phase::EntryDestDir => match event {
                Event::Kind(PathKind::File) => {
                    let path = task.entry_dest.clone();
                    task.fail(BackupError::NotADirectory { path, path_type: PathType::Dest })
                },
                Event::Kind(PathKind::Missing) if !task.dry_run => {
                    task.phase = Phase::EntryCreate;
                    let path = task.entry_dest.clone();
                    (task, Request::CreateDir(path))
                },
                _ => task.descend(),
            },
            Phase::EntryCreate => match event {
                Event::Failed(e) => task.fail(BackupError::IO(e)),
                _ => task.descend(),
            },
            Phase::EntryDestFile => match event {
                Event::Kind(PathKind::Missing) => {
                    let notice = task.copy_notice();
                    task.phase = if task.dry_run {
                        Phase::EntryWould
                    } else {
                        Phase::EntryAnnounce
                    };
                    (task, Request::Notice(notice))
                },
                _ => {
                    proof {
                        crate::model::lemma_stepped_bounded(self@);
                    }
                    task.stepped().advance()
                },
            },
            Phase::EntryWould => {
                proof {
                    crate::model::lemma_stepped_bounded(self@);
                }
                task.stepped().advance()
            },
            Phase::EntryAnnounce => {
                task.phase = Phase::EntryCopy;
                let from = task.entry_source.clone();
                let to = task.entry_dest.clone();
                (task, Request::CopyFile { from, to })
            },
            Phase::EntryCopy => match event {
                Event::Failed(e) => task.fail(BackupError::IO(e)),
                _ => {
                    proof {
                        crate::model::lemma_stepped_bounded(self@);
                    }
                    task.stepped().advance()
                },
            },
            Phase::Stamp => match event {
                Event::Time(now) => {
                    let held = task.document;
                    task.document = None;
                    match held {
                        Some(Document::Config(config)) => {
                            let mut config = config;
                            config.stamp_last_run(task.backup_name.as_str(), now);
                            task.document = Some(Document::Config(config));
                            task.begin_save()
                        },
                        _ => unreached(),
                    }
                },
                _ => unreached(),
            },
            Phase::Finished => unreached(),
        }
    }
}

} // verus!
