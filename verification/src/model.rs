use crate::config::ConfigView;
use crate::error::ErrorView;
use crate::error::PathType;
use crate::protocol::DocumentView;
use crate::protocol::EventView;
use crate::protocol::OutcomeView;
use crate::protocol::PathKind;
use crate::protocol::RequestView;
use crate::protocol::Store;
use crate::util::debug_text;
use crate::util::joined_units;
use crate::util::text_of;
use vstd::prelude::*;
use vstd::utf8::encode_utf8;

verus! {

/// What a task is for.
#[derive(Clone, Copy, Debug, PartialEq, Eq, Structural)]
pub enum Job {
    /// Read the document of a store, or take the empty one where the store
    /// has no file yet.
    Load,
    /// Write a document to its store.
    Save,
    /// Load, save what was loaded, and show it.
    Initialize,
    /// Mirror the sources of a backup into its destination on a device.
    Run,
    /// Mirror one directory into another.
    Mirror,
}

/// The request that a task waits to have answered.
#[derive(Clone, Copy, Debug, PartialEq, Eq, Structural)]
pub enum Phase {
    /// Probing the store's file.
    LoadProbe,
    /// Reading the store's file.
    LoadRead,
    /// Decoding what was read.
    LoadDecode,
    /// Encoding the document to save it.
    SaveEncode,
    /// Writing the store's file.
    SaveWrite,
    /// Encoding the document to show it.
    ShowEncode,
    /// Showing where the store's file is.
    ShowPath,
    /// Showing the document.
    ShowText,
    /// Probing the destination root.
    DestProbe,
    /// Creating the destination root.
    DestCreate,
    /// Probing a source root.
    SourceProbe,
    /// Listing a source directory.
    Listing,
    /// Probing an entry of a source directory.
    EntrySource,
    /// Probing where a directory entry goes.
    EntryDestDir,
    /// Creating the directory that mirrors a directory entry.
    EntryCreate,
    /// Probing where a file entry goes.
    EntryDestFile,
    /// Showing, in a dry run, the copy that a real run would make.
    EntryWould,
    /// Showing the copy that comes next.
    EntryAnnounce,
    /// Copying a file entry.
    EntryCopy,
    /// Reading the clock for the time of the run.
    Stamp,
    /// Nothing: the task is over.
    Finished,
}

/// A source directory whose entries are being mirrored.
pub struct FrameView {
    /// The directory that was listed.
    pub source_dir: Seq<u8>,
    /// The directory that mirrors it.
    pub dest_dir: Seq<u8>,
    /// The names of its entries.
    pub names: Seq<Seq<u8>>,
    /// How many of them are dealt with.
    pub next: int,
    /// The failure that ended the listing early, if one did.
    pub failure: Option<std::io::Error>,
}

/// A task as a value.
pub struct TaskView {
    pub job: Job,
    pub store: Store,
    /// The store's file.
    pub path: Seq<u8>,
    /// The document, once there is one.
    pub document: Option<DocumentView>,
    pub phase: Phase,
    /// The document as text, while it waits to be shown.
    pub shown: Seq<char>,
    pub backup_name: Seq<char>,
    pub device_name: Seq<char>,
    pub dry_run: bool,
    /// The position of the backup that runs.
    pub backup_index: int,
    /// The destination root of the run.
    pub dest_root: Seq<u8>,
    /// How many sources are mirrored in full.
    pub next_source: int,
    /// The source path that is dealt with now.
    pub entry_source: Seq<u8>,
    /// Where it goes.
    pub entry_dest: Seq<u8>,
    /// The directories that are open, the outermost first.
    pub stack: Seq<FrameView>,
}

/// The name of a store's file, below the directory that holds both.
pub open spec fn store_file_name(store: Store) -> Seq<char> {
    match store {
        Store::Config => ".smartsync.toml"@,
        Store::Registry => ".smartsync-registry.toml"@,
    }
}

/// The encoding of the path of a store's file, for stores kept in the
/// directory encoded as `dir`.
pub open spec fn store_path(dir: Seq<u8>, store: Store) -> Seq<u8> {
    joined_units(dir, encode_utf8(store_file_name(store)))
}

/// The word for a store in what is shown to the user.
pub open spec fn store_word(store: Store) -> Seq<char> {
    match store {
        Store::Config => "config"@,
        Store::Registry => "registry"@,
    }
}

/// The line that tells of a copy from `from` to `to`: of one that is made,
/// or in a dry run of one that would be.
pub open spec fn copy_notice(dry_run: bool, from: Seq<u8>, to: Seq<u8>) -> Seq<char> {
    if dry_run {
        "would copy "@ + text_of(from) + " to "@ + text_of(to)
    } else {
        "copying "@ + text_of(from) + " to "@ + text_of(to)
    }
}

impl TaskView {
    /// A task before its first request: no document, nothing open.
    pub open spec fn fresh(job: Job, store: Store, path: Seq<u8>) -> TaskView {
        TaskView {
            job,
            store,
            path,
            document: None,
            phase: Phase::LoadProbe,
            shown: Seq::empty(),
            backup_name: Seq::empty(),
            device_name: Seq::empty(),
            dry_run: false,
            backup_index: 0,
            dest_root: Seq::empty(),
            next_source: 0,
            entry_source: Seq::empty(),
            entry_dest: Seq::empty(),
            stack: Seq::empty(),
        }
    }

    /// A load that begins: the store's file is probed.
    pub open spec fn start_load(store: Store, dir: Seq<u8>) -> (TaskView, RequestView) {
        let path = store_path(dir, store);
        (TaskView::fresh(Job::Load, store, path), RequestView::Probe(path))
    }

    /// An initialization that begins: the store's file is probed.
    pub open spec fn start_initialize(store: Store, dir: Seq<u8>) -> (TaskView, RequestView) {
        let path = store_path(dir, store);
        (TaskView::fresh(Job::Initialize, store, path), RequestView::Probe(path))
    }

    /// A save that begins: the document is encoded.
    pub open spec fn start_save(document: DocumentView, dir: Seq<u8>) -> (TaskView, RequestView) {
        let path = store_path(dir, document.store());
        (
            TaskView {
                document: Some(document),
                phase: Phase::SaveEncode,
                ..TaskView::fresh(Job::Save, document.store(), path)
            },
            RequestView::Encode,
        )
    }

    /// A run that begins: the file of the configuration is probed.
    pub open spec fn start_run(
        dir: Seq<u8>,
        backup_name: Seq<char>,
        device_name: Seq<char>,
        dry_run: bool,
    ) -> (TaskView, RequestView) {
        let path = store_path(dir, Store::Config);
        (
            TaskView {
                backup_name,
                device_name,
                dry_run,
                ..TaskView::fresh(Job::Run, Store::Config, path)
            },
            RequestView::Probe(path),
        )
    }

    /// A mirror that begins: the source directory is listed.
    pub open spec fn start_mirror(source_dir: Seq<u8>, dest_dir: Seq<u8>, dry_run: bool) -> (
        TaskView,
        RequestView,
    ) {
        (
            TaskView {
                phase: Phase::Listing,
                dry_run,
                entry_source: source_dir,
                entry_dest: dest_dir,
                ..TaskView::fresh(Job::Mirror, Store::Config, Seq::empty())
            },
            RequestView::List(source_dir),
        )
    }

    /// The configuration that a run works on.
    pub open spec fn config(self) -> ConfigView
        recommends
            self.document is Some,
            self.document->0 is Config,
    {
        self.document->0->Config_0
    }

    /// The source roots of the backup that runs.
    pub open spec fn sources(self) -> Seq<Seq<u8>> {
        self.config().backups[self.backup_index].source_paths
    }

    /// Whether the task is inside a run, past the resolution of its names.
    pub open spec fn in_run(self) -> bool {
        match self.phase {
            Phase::DestProbe
            | Phase::DestCreate
            | Phase::SourceProbe
            | Phase::Listing
            | Phase::EntrySource
            | Phase::EntryDestDir
            | Phase::EntryCreate
            | Phase::EntryDestFile
            | Phase::EntryWould
            | Phase::EntryAnnounce
            | Phase::EntryCopy
            | Phase::Stamp => true,
            _ => false,
        }
    }

    /// Whether the task is dealing with an entry of the innermost open
    /// directory.
    pub open spec fn in_entry(self) -> bool {
        match self.phase {
            Phase::EntrySource
            | Phase::EntryDestDir
            | Phase::EntryCreate
            | Phase::EntryDestFile
            | Phase::EntryWould
            | Phase::EntryAnnounce
            | Phase::EntryCopy => true,
            _ => false,
        }
    }

    /// Whether the task is at a request that belongs to loading a document.
    pub open spec fn in_load(self) -> bool {
        self.phase == Phase::LoadProbe || self.phase == Phase::LoadRead || self.phase
            == Phase::LoadDecode
    }

    /// Whether the task is at a request that belongs to saving a document.
    pub open spec fn in_save(self) -> bool {
        self.phase == Phase::SaveEncode || self.phase == Phase::SaveWrite
    }

    /// Whether the task is at a request that belongs to showing a document.
    pub open spec fn in_show(self) -> bool {
        self.phase == Phase::ShowEncode || self.phase == Phase::ShowPath || self.phase
            == Phase::ShowText
    }

    /// Whether the task is listing a directory or dealing with an entry of
    /// one.
    pub open spec fn in_walk(self) -> bool {
        self.phase == Phase::Listing || self.in_entry()
    }

    /// Whether the task is at a request that its job can lead to.
    pub open spec fn phase_fits_job(self) -> bool {
        ||| self.phase == Phase::Finished
        ||| match self.job {
            Job::Load => self.in_load(),
            Job::Save => self.in_save(),
            Job::Initialize => self.in_load() || self.in_save() || self.in_show(),
            Job::Run => self.in_load() || self.in_save() || self.in_run(),
            Job::Mirror => self.in_walk(),
        }
    }

    /// Whether the task is at a request that its kind of run can lead to: a
    /// dry run never waits for anything to be created, copied, stamped or
    /// saved, and only a dry run shows a copy that it does not make.
    pub open spec fn phase_fits_mode(self) -> bool {
        if self.dry_run {
            &&& self.job == Job::Run || self.job == Job::Mirror
            &&& self.phase != Phase::DestCreate
            &&& self.phase != Phase::EntryCreate
            &&& self.phase != Phase::EntryAnnounce
            &&& self.phase != Phase::EntryCopy
            &&& self.phase != Phase::Stamp
            &&& !self.in_save()
            &&& !self.in_show()
        } else {
            self.phase != Phase::EntryWould
        }
    }

    /// Whether the names of the run are resolved: the task holds the
    /// configuration, and the position of the first backup of the name.
    pub open spec fn resolved(self) -> bool {
        &&& self.job == Job::Run
        &&& self.store == Store::Config
        &&& self.document is Some
        &&& self.document->0 is Config
        &&& self.config().backup_index(self.backup_name) == Some(self.backup_index)
        &&& 0 <= self.backup_index < self.config().backups.len()
    }

    /// Whether the task can walk a directory: it is a mirror, or a run that
    /// is at one of its sources.
    pub open spec fn walking(self) -> bool {
        ||| self.job == Job::Mirror
        ||| {
            &&& self.resolved()
            &&& 0 <= self.next_source < self.sources().len()
        }
    }

    /// Whether no open directory has more entries dealt with than it has.
    pub open spec fn bounded(self) -> bool {
        forall|k: int|
            0 <= k < self.stack.len() ==> 0 <= (#[trigger] self.stack[k]).next
                <= self.stack[k].names.len()
    }

    /// What holds of every task that was started by this library and driven
    /// by events that it accepts.
    pub open spec fn wf(self) -> bool {
        &&& self.document is Some ==> self.document->0.store() == self.store
        &&& self.bounded()
        &&& self.phase_fits_job()
        &&& self.phase_fits_mode()
        &&& match self.phase {
            Phase::LoadProbe | Phase::LoadRead | Phase::LoadDecode => {
                self.job == Job::Run ==> self.store == Store::Config
            },
            Phase::SaveEncode | Phase::SaveWrite => self.document is Some,
            Phase::ShowEncode | Phase::ShowPath | Phase::ShowText => self.document is Some,
            Phase::Finished => true,
            Phase::DestProbe | Phase::DestCreate | Phase::Stamp => self.resolved(),
            Phase::SourceProbe => self.resolved() && self.walking(),
            _ => self.walking(),
        }
        &&& self.in_entry() ==> {
            &&& self.stack.len() > 0
            &&& self.stack.last().next < self.stack.last().names.len()
        }
    }

    /// Whether `event` answers the request that the task waits on.
    pub open spec fn accepts(self, event: EventView) -> bool {
        match self.phase {
            Phase::LoadProbe
            | Phase::DestProbe
            | Phase::SourceProbe
            | Phase::EntrySource
            | Phase::EntryDestDir
            | Phase::EntryDestFile => event is Kind,
            Phase::LoadRead => event is Text || event is Failed,
            Phase::LoadDecode => (event is Decoded && event->Decoded_0.store() == self.store)
                || event is Undecodable,
            Phase::SaveEncode | Phase::ShowEncode => event is Encoded || event is Unencodable,
            Phase::SaveWrite | Phase::DestCreate | Phase::EntryCreate | Phase::EntryCopy => event is Done
                || event is Failed,
            Phase::Listing => event is Listing || event is Failed,
            Phase::ShowPath | Phase::ShowText | Phase::EntryWould | Phase::EntryAnnounce => event is Done,
            Phase::Stamp => event is Time,
            Phase::Finished => false,
        }
    }

    /// The task stops on `error`.
    pub open spec fn fail(self, error: ErrorView) -> (TaskView, RequestView) {
        (
            TaskView { phase: Phase::Finished, ..self },
            RequestView::Finish(OutcomeView::Failed(error)),
        )
    }

    /// The task has done all it had to do.
    pub open spec fn complete(self) -> (TaskView, RequestView) {
        (TaskView { phase: Phase::Finished, ..self }, RequestView::Finish(OutcomeView::Completed))
    }

    /// The document is to be saved: first it is encoded.
    pub open spec fn begin_save(self) -> (TaskView, RequestView) {
        (TaskView { phase: Phase::SaveEncode, ..self }, RequestView::Encode)
    }

    /// The names of a run are resolved against the configuration; then the
    /// destination root is probed.
    pub open spec fn resolve(self) -> (TaskView, RequestView) {
        match self.config().destination(self.backup_name, self.device_name) {
            Err(error) => self.fail(error),
            Ok(root) => (
                TaskView {
                    phase: Phase::DestProbe,
                    backup_index: self.config().backup_index(self.backup_name)->0,
                    dest_root: root,
                    ..self
                },
                RequestView::Probe(root),
            ),
        }
    }

    /// The store's document is `document`: a load hands it out, an
    /// initialization saves it, a run resolves its names against it.
    pub open spec fn loaded(self, document: DocumentView) -> (TaskView, RequestView) {
        match self.job {
            Job::Load => (
                TaskView { phase: Phase::Finished, ..self },
                RequestView::Finish(OutcomeView::Loaded(document)),
            ),
            Job::Run => (TaskView { document: Some(document), ..self }).resolve(),
            _ => (TaskView { document: Some(document), ..self }).begin_save(),
        }
    }

    /// The document is written: an initialization goes on to show it.
    pub open spec fn saved(self) -> (TaskView, RequestView) {
        if self.job == Job::Initialize {
            (TaskView { phase: Phase::ShowEncode, ..self }, RequestView::Encode)
        } else {
            self.complete()
        }
    }

    /// All sources are mirrored: a dry run is over, a real run reads the
    /// clock to record when it ran.
    pub open spec fn finish_run(self) -> (TaskView, RequestView) {
        if self.dry_run {
            self.complete()
        } else {
            (TaskView { phase: Phase::Stamp, ..self }, RequestView::Clock)
        }
    }

    /// The next source root is probed, or the run ends where none is left.
    pub open spec fn begin_source(self) -> (TaskView, RequestView) {
        if 0 <= self.next_source < self.sources().len() {
            let source = self.sources()[self.next_source];
            (
                TaskView {
                    phase: Phase::SourceProbe,
                    entry_source: source,
                    entry_dest: self.dest_root,
                    ..self
                },
                RequestView::Probe(source),
            )
        } else {
            self.finish_run()
        }
    }

    /// The task with the directory at hand open: the directory, with the
    /// names that its listing gave and none of them dealt with, is the
    /// innermost on the stack.
    pub open spec fn opened(self, names: Seq<Seq<u8>>, failure: Option<std::io::Error>) -> TaskView {
        TaskView {
            stack: self.stack.push(
                FrameView {
                    source_dir: self.entry_source,
                    dest_dir: self.entry_dest,
                    names,
                    next: 0,
                    failure,
                },
            ),
            ..self
        }
    }

    /// The stack with one more entry of its innermost directory dealt with.
    pub open spec fn stepped(self) -> TaskView
        recommends
            self.stack.len() > 0,
    {
        let top = self.stack.last();
        TaskView {
            stack: self.stack.drop_last().push(FrameView { next: top.next + 1, ..top }),
            ..self
        }
    }

    /// The walk goes on: with the next entry of the innermost open directory;
    /// where that directory has none left, with the one around it, unless its
    /// listing had ended on a failure; where no directory is open, a mirror
    /// is over and a run turns to its next source.
    pub open spec fn advance(self) -> (TaskView, RequestView)
        decreases self.stack.len(),
    {
        if self.stack.len() == 0 {
            if self.job == Job::Mirror {
                self.complete()
            } else {
                (TaskView { next_source: self.next_source + 1, ..self }).begin_source()
            }
        } else {
            let top = self.stack.last();
            if 0 <= top.next < top.names.len() {
                let name = top.names[top.next];
                let source = joined_units(top.source_dir, name);
                (
                    TaskView {
                        phase: Phase::EntrySource,
                        entry_source: source,
                        entry_dest: joined_units(top.dest_dir, name),
                        ..self
                    },
                    RequestView::Probe(source),
                )
            } else {
                let rest = TaskView { stack: self.stack.drop_last(), ..self };
                match top.failure {
                    Some(e) => rest.fail(ErrorView::IO(e)),
                    None => rest.advance(),
                }
            }
        }
    }

    /// The entry at hand is a directory that can be mirrored: it counts as
    /// dealt with in the directory that holds it, and is listed.
    pub open spec fn descend(self) -> (TaskView, RequestView) {
        (
            TaskView { phase: Phase::Listing, ..self.stepped() },
            RequestView::List(self.entry_source),
        )
    }

    /// What the task does on `event`: the task it becomes, and what it asks
    /// next.
    pub open spec fn next(self, event: EventView) -> (TaskView, RequestView) {
        match self.phase {
            Phase::LoadProbe => match event {
                EventView::Kind(PathKind::Missing) => self.loaded(DocumentView::empty(self.store)),
                _ => (TaskView { phase: Phase::LoadRead, ..self }, RequestView::ReadText(self.path)),
            },
            Phase::LoadRead => match event {
                EventView::Text(text) => (
                    TaskView { phase: Phase::LoadDecode, ..self },
                    RequestView::Decode(self.store, text),
                ),
                EventView::Failed(e) => self.fail(ErrorView::IO(e)),
                _ => self.complete(),
            },
            Phase::LoadDecode => match event {
                EventView::Decoded(document) => self.loaded(document),
                EventView::Undecodable(e) => self.fail(ErrorView::DeToml(e)),
                _ => self.complete(),
            },
            Phase::SaveEncode => match event {
                EventView::Encoded(text) => (
                    TaskView { phase: Phase::SaveWrite, ..self },
                    RequestView::WriteText(self.path, text),
                ),
                EventView::Unencodable(e) => self.fail(ErrorView::SerToml(e)),
                _ => self.complete(),
            },
            Phase::SaveWrite => match event {
                EventView::Failed(e) => self.fail(ErrorView::IO(e)),
                _ => self.saved(),
            },
            Phase::ShowEncode => match event {
                EventView::Encoded(text) => (
                    TaskView { phase: Phase::ShowPath, shown: text, ..self },
                    RequestView::Notice(
                        store_word(self.store) + " initialized at "@ + debug_text(self.path),
                    ),
                ),
                EventView::Unencodable(e) => self.fail(ErrorView::SerToml(e)),
                _ => self.complete(),
            },
            Phase::ShowPath => (
                TaskView { phase: Phase::ShowText, ..self },
                RequestView::Notice(self.shown),
            ),
            Phase::ShowText => self.complete(),
            Phase::DestProbe => match event {
                EventView::Kind(PathKind::File) => self.fail(
                    ErrorView::NotADirectory { path: self.dest_root, path_type: PathType::Dest },
                ),
                EventView::Kind(PathKind::Missing) if !self.dry_run => (
                    TaskView { phase: Phase::DestCreate, ..self },
                    RequestView::CreateDir(self.dest_root),
                ),
                _ => (TaskView { next_source: 0, ..self }).begin_source(),
            },
            Phase::DestCreate => match event {
                EventView::Failed(e) => self.fail(ErrorView::IO(e)),
                _ => (TaskView { next_source: 0, ..self }).begin_source(),
            },
            Phase::SourceProbe => match event {
                EventView::Kind(PathKind::Missing) => self.fail(
                    ErrorView::DirectoryNotFound {
                        path: self.entry_source,
                        path_type: PathType::Source,
                    },
                ),
                EventView::Kind(PathKind::File) => self.fail(
                    ErrorView::NotADirectory {
                        path: self.entry_source,
                        path_type: PathType::Source,
                    },
                ),
                _ => (
                    TaskView { phase: Phase::Listing, ..self },
                    RequestView::List(self.entry_source),
                ),
            },
            Phase::Listing => match event {
                EventView::Listing(names, failure) => self.opened(names, failure).advance(),
                EventView::Failed(e) => self.fail(ErrorView::IO(e)),
                _ => self.complete(),
            },
            Phase::EntrySource => match event {
                EventView::Kind(PathKind::Directory) => (
                    TaskView { phase: Phase::EntryDestDir, ..self },
                    RequestView::Probe(self.entry_dest),
                ),
                _ => (
                    TaskView { phase: Phase::EntryDestFile, ..self },
                    RequestView::Probe(self.entry_dest),
                ),
            },
            Phase::EntryDestDir => match event {
                EventView::Kind(PathKind::File) => self.fail(
                    ErrorView::NotADirectory { path: self.entry_dest, path_type: PathType::Dest },
                ),
                EventView::Kind(PathKind::Missing) if !self.dry_run => (
                    TaskView { phase: Phase::EntryCreate, ..self },
                    RequestView::CreateDir(self.entry_dest),
                ),
                _ => self.descend(),
            },
            Phase::EntryCreate => match event {
                EventView::Failed(e) => self.fail(ErrorView::IO(e)),
                _ => self.descend(),
            },
            Phase::EntryDestFile => match event {
                EventView::Kind(PathKind::Missing) => (
                    TaskView {
                        phase: if self.dry_run {
                            Phase::EntryWould
                        } else {
                            Phase::EntryAnnounce
                        },
                        ..self
                    },
                    RequestView::Notice(
                        copy_notice(self.dry_run, self.entry_source, self.entry_dest),
                    ),
                ),
                _ => self.stepped().advance(),
            },
            Phase::EntryWould => self.stepped().advance(),
            Phase::EntryAnnounce => (
                TaskView { phase: Phase::EntryCopy, ..self },
                RequestView::CopyFile { from: self.entry_source, to: self.entry_dest },
            ),
            Phase::EntryCopy => match event {
                EventView::Failed(e) => self.fail(ErrorView::IO(e)),
                _ => self.stepped().advance(),
            },
            Phase::Stamp => match event {
                EventView::Time(now) => (TaskView {
                    document: Some(
                        DocumentView::Config(self.config().stamped(self.backup_name, now)),
                    ),
                    ..self
                }).begin_save(),
                _ => self.complete(),
            },
            Phase::Finished => (self, RequestView::Finish(OutcomeView::Completed)),
        }
    }
}

/// Resolving the names of a run keeps the task well formed.
pub proof fn lemma_resolve_wf(s: TaskView)
    requires
        s.job == Job::Run,
        s.store == Store::Config,
        s.document is Some,
        s.document->0 is Config,
        s.bounded(),
    ensures
        s.resolve().0.wf(),
{
    let c = s.config();
    c.names().index_of_first_ensures(s.backup_name);
    match c.backup_index(s.backup_name) {
        None => {},
        Some(i) => {
            c.backups[i].device_names().index_of_first_ensures(s.device_name);
        },
    }
}

/// Turning to the next source keeps the task well formed.
pub proof fn lemma_begin_source_wf(s: TaskView)
    requires
        s.resolved(),
        s.bounded(),
    ensures
        s.begin_source().0.wf(),
{
}

/// Going on with the walk keeps the task well formed.
pub proof fn lemma_advance_wf(s: TaskView)
    requires
        s.walking(),
        s.bounded(),
        s.document is Some ==> s.document->0.store() == s.store,
    ensures
        s.advance().0.wf(),
    decreases s.stack.len(),
{
    if s.stack.len() == 0 {
        if s.job != Job::Mirror {
            lemma_begin_source_wf(TaskView { next_source: s.next_source + 1, ..s });
        }
    } else {
        let top = s.stack.last();
        if 0 <= top.next < top.names.len() {
        } else {
            let rest = TaskView { stack: s.stack.drop_last(), ..s };
            if top.failure is None {
                lemma_advance_wf(rest);
            }
        }
    }
}

/// Counting the entry at hand as dealt with keeps the frames in bounds.
pub proof fn lemma_stepped_bounded(s: TaskView)
    requires
        s.bounded(),
        s.stack.len() > 0,
        s.stack.last().next < s.stack.last().names.len(),
    ensures
        s.stepped().bounded(),
        s.stepped().stack.len() == s.stack.len(),
{
}

/// A well-formed task stays well formed on every event that it accepts.
pub proof fn lemma_next_wf(s: TaskView, event: EventView)
    requires
        s.wf(),
        s.accepts(event),
    ensures
        s.next(event).0.wf(),
{
    match s.phase {
        Phase::LoadProbe | Phase::LoadDecode => {
            let document = match event {
                EventView::Decoded(d) => d,
                _ => DocumentView::empty(s.store),
            };
            if s.job == Job::Run {
                lemma_resolve_wf(TaskView { document: Some(document), ..s });
            }
        },
        Phase::DestProbe | Phase::DestCreate => {
            lemma_begin_source_wf(TaskView { next_source: 0, ..s });
        },
        Phase::Listing => {
            if let EventView::Listing(names, failure) = event {
                lemma_advance_wf(s.opened(names, failure));
            }
        },
        Phase::EntryDestDir | Phase::EntryCreate => {
            lemma_stepped_bounded(s);
        },
        Phase::EntryDestFile | Phase::EntryWould | Phase::EntryCopy => {
            lemma_stepped_bounded(s);
            lemma_advance_wf(s.stepped());
        },
        Phase::Stamp => {},
        _ => {},
    }
}

} // verus!
