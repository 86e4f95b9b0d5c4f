use crate::clock::Timestamp;
use crate::error::BackupError;
use crate::error::ErrorView;
use crate::model::TaskView;
use crate::protocol::Document;
use crate::protocol::DocumentView;
use crate::protocol::Request;
use crate::protocol::Store;
use crate::task::Task;
use crate::util::path_units;
use crate::util::units_of;
use std::path::PathBuf;
use vstd::prelude::*;
use vstd::string::StringExecFns;

verus! {

/// Where one device keeps the mirror of a backup.
#[derive(Debug)]
pub struct Destination {
    pub device_name: String,
    pub path: PathBuf,
}

/// A named backup job: what to mirror, where to, and when it last ran.
#[derive(Debug)]
pub struct Backup {
    pub name: String,
    pub source_paths: Vec<PathBuf>,
    pub destinations: Vec<Destination>,
    pub last_run: Option<Timestamp>,
}

/// The configuration document: the backups, in the order they were added.
#[derive(Debug)]
pub struct Config {
    pub backups: Vec<Backup>,
}

/// A destination as a value: its device name as text, and the encoding of
/// its path.
pub struct DestinationView {
    pub device_name: Seq<char>,
    pub path: Seq<u8>,
}

/// A backup as a value.
pub struct BackupView {
    pub name: Seq<char>,
    pub source_paths: Seq<Seq<u8>>,
    pub destinations: Seq<DestinationView>,
    pub last_run: Option<Timestamp>,
}

/// A configuration as a value.
pub struct ConfigView {
    pub backups: Seq<BackupView>,
}

impl View for Destination {
    type V = DestinationView;

    open spec fn view(&self) -> DestinationView {
        DestinationView { device_name: self.device_name@, path: path_units(self.path) }
    }
}

/// The value of each destination of `items`, in order.
pub open spec fn destination_views(items: Seq<Destination>) -> Seq<DestinationView> {
    Seq::new(items.len(), |i: int| items[i]@)
}

impl View for Backup {
    type V = BackupView;

    open spec fn view(&self) -> BackupView {
        BackupView {
            name: self.name@,
            source_paths: units_of(self.source_paths@),
            destinations: destination_views(self.destinations@),
            last_run: self.last_run,
        }
    }
}

/// The value of each backup of `items`, in order.
pub open spec fn backup_views(items: Seq<Backup>) -> Seq<BackupView> {
    Seq::new(items.len(), |i: int| items[i]@)
}

impl View for Config {
    type V = ConfigView;

    open spec fn view(&self) -> ConfigView {
        ConfigView { backups: backup_views(self.backups@) }
    }
}

impl BackupView {
    /// The device name of each destination, in order.
    pub open spec fn device_names(self) -> Seq<Seq<char>> {
        Seq::new(self.destinations.len(), |i: int| self.destinations[i].device_name)
    }

    /// The position of the first destination on `device`, if there is one.
    pub open spec fn destination_index(self, device: Seq<char>) -> Option<int> {
        self.device_names().index_of_first(device)
    }

    /// This backup with `now` as the time of its last run.
    pub open spec fn stamped(self, now: Timestamp) -> BackupView {
        BackupView { last_run: Some(now), ..self }
    }
}

impl ConfigView {
    /// The name of each backup, in order.
    pub open spec fn names(self) -> Seq<Seq<char>> {
        Seq::new(self.backups.len(), |i: int| self.backups[i].name)
    }

    /// The position of the first backup called `name`, if there is one.
    pub open spec fn backup_index(self, name: Seq<char>) -> Option<int> {
        self.names().index_of_first(name)
    }

    /// Where the backup `backup_name` keeps its mirror on `device_name`: the
    /// path of the first destination on that device, in the first backup of
    /// that name; or the error that says which of the two names is unknown.
    pub open spec fn destination(self, backup_name: Seq<char>, device_name: Seq<char>) -> Result<
        Seq<u8>,
        ErrorView,
    > {
        match self.backup_index(backup_name) {
            None => Err(ErrorView::BackupNotFound { backup_name }),
            Some(i) => match self.backups[i].destination_index(device_name) {
                None => Err(ErrorView::DeviceNotFound { device_name, backup_name }),
                Some(j) => Ok(self.backups[i].destinations[j].path),
            },
        }
    }

    /// This configuration with `now` as the last run of the first backup
    /// called `name`; unchanged where no backup has that name.
    pub open spec fn stamped(self, name: Seq<char>, now: Timestamp) -> ConfigView {
        match self.backup_index(name) {
            Some(i) => ConfigView { backups: self.backups.update(i, self.backups[i].stamped(now)) },
            None => self,
        }
    }
}

/// `i` is the first position of `needle` in `items`.
pub open spec fn is_first_at(items: Seq<Seq<char>>, needle: Seq<char>, i: int) -> bool {
    &&& 0 <= i < items.len()
    &&& items[i] == needle
    &&& forall|j: int| 0 <= j < i ==> items[j] != needle
}

/// The first position of `needle` in `items` is the one position that holds
/// it with none before.
pub proof fn lemma_first_at(items: Seq<Seq<char>>, needle: Seq<char>, i: int)
    requires
        is_first_at(items, needle, i),
    ensures
        items.index_of_first(needle) == Some(i),
{
    items.index_of_first_ensures(needle);
    assert(items.contains(needle));
}

/// Where nothing in `items` equals `needle`, there is no first position.
pub proof fn lemma_no_first(items: Seq<Seq<char>>, needle: Seq<char>)
    requires
        forall|j: int| 0 <= j < items.len() ==> items[j] != needle,
    ensures
        items.index_of_first(needle) is None,
{
    items.index_of_first_ensures(needle);
}

impl Default for Destination {
    fn default() -> (r: Destination)
        ensures
            r@ == (DestinationView { device_name: Seq::empty(), path: Seq::empty() }),
    {
        Destination { device_name: String::new(), path: PathBuf::new() }
    }
}

impl Default for Backup {
    fn default() -> (r: Backup)
        ensures
            r@ == (BackupView {
                name: Seq::empty(),
                source_paths: Seq::empty(),
                destinations: Seq::empty(),
                last_run: None,
            }),
    {
        let r = Backup {
            name: String::new(),
            source_paths: Vec::new(),
            destinations: Vec::new(),
            last_run: None,
        };
        assert(r@.destinations =~= Seq::empty());
        assert(r@.source_paths =~= Seq::empty());
        r
    }
}

impl Default for Config {
    fn default() -> (r: Config)
        ensures
            r@.backups == Seq::<BackupView>::empty(),
    {
        let r = Config { backups: Vec::new() };
        assert(r@.backups =~= Seq::empty());
        r
    }
}

impl Backup {
    /// The position of the first destination on `device_name`, if any.
    pub fn find_destination(&self, device_name: &str) -> (r: Option<usize>)
        ensures
            match r {
                Some(i) => i < self.destinations@.len() && self@.destination_index(device_name@)
                    == Some(i as int),
                None => self@.destination_index(device_name@) is None,
            },
    {
        let wanted = String::from_str(device_name);
        let mut i: usize = 0;
        while i < self.destinations.len()
            invariant
                i <= self.destinations.len(),
                wanted@ == device_name@,
                forall|j: int| 0 <= j < i ==> self@.device_names()[j] != device_name@,
            decreases self.destinations.len() - i,
        {
            if self.destinations[i].device_name == wanted {
                proof {
                    lemma_first_at(self@.device_names(), device_name@, i as int);
                }
                return Some(i);
            }
            i = i + 1;
        }
        proof {
            lemma_no_first(self@.device_names(), device_name@);
        }
        None
    }
}

impl Config {
    /// Appends `backup`; a backup of the same name may already be there.
    pub fn add_backup(&mut self, backup: Backup)
        ensures
            final(self)@.backups == old(self)@.backups.push(backup@),
    {
        self.backups.push(backup);
        assert(self@.backups =~= old(self)@.backups.push(backup@));
    }

    /// Where the backup `backup_name` keeps its mirror on `device_name`.
    pub fn destination(&self, backup_name: &str, device_name: &str) -> (r: Result<
        PathBuf,
        BackupError,
    >)
        ensures
            match r {
                Ok(path) => self@.destination(backup_name@, device_name@) == Ok::<
                    Seq<u8>,
                    ErrorView,
                >(path_units(path)),
                Err(e) => self@.destination(backup_name@, device_name@) == Err::<
                    Seq<u8>,
                    ErrorView,
                >(e@),
            },
    {
        match self.find_backup(backup_name) {
            None => Err(BackupError::BackupNotFound { backup_name: String::from_str(backup_name) }),
            Some(i) => match self.backups[i].find_destination(device_name) {
                None => Err(
                    BackupError::DeviceNotFound {
                        device_name: String::from_str(device_name),
                        backup_name: String::from_str(backup_name),
                    },
                ),
                Some(j) => Ok(self.backups[i].destinations[j].path.clone()),
            },
        }
    }

    /// Records `now` as the last run of the first backup called `name`. Where
    /// no backup has that name, nothing changes.
    pub fn stamp_last_run(&mut self, name: &str, now: Timestamp)
        ensures
            final(self)@ == old(self)@.stamped(name@, now),
    {
        match self.find_backup(name) {
            Some(i) => {
                self.backups[i].last_run = Some(now);
                assert(self@.backups =~= old(self)@.backups.update(
                    i as int,
                    old(self)@.backups[i as int].stamped(now),
                ));
            },
            None => {},
        }
    }

    /// The position of the first backup called `name`, if any.
    pub fn find_backup(&self, name: &str) -> (r: Option<usize>)
        ensures
            match r {
                Some(i) => i < self.backups@.len() && self@.backup_index(name@) == Some(i as int),
                None => self@.backup_index(name@) is None,
            },
    {
        let wanted = String::from_str(name);
        let mut i: usize = 0;
        while i < self.backups.len()
            invariant
                i <= self.backups.len(),
                wanted@ == name@,
                forall|j: int| 0 <= j < i ==> self@.names()[j] != name@,
            decreases self.backups.len() - i,
        {
            if self.backups[i].name == wanted {
                proof {
                    lemma_first_at(self@.names(), name@, i as int);
                }
                return Some(i);
            }
            i = i + 1;
        }
        proof {
            lemma_no_first(self@.names(), name@);
        }
        None
    }
}

/// Begins to load the configuration kept in the directory `dir`. The task
/// ends with the configuration that the file there decodes to, or with an
/// empty one where there is no file.
pub fn load_config(dir: &PathBuf) -> (r: (Task, Request))
    ensures
        (r.0@, r.1@) == TaskView::start_load(Store::Config, path_units(*dir)),
        r.0@.wf(),
{
    Task::load(Store::Config, dir)
}

/// Begins to save `config` to its file in the directory `dir`.
pub fn save_config(config: Config, dir: &PathBuf) -> (r: (Task, Request))
    ensures
        (r.0@, r.1@) == TaskView::start_save(DocumentView::Config(config@), path_units(*dir)),
        r.0@.wf(),
{
    Task::save(Document::Config(config), dir)
}

/// Begins to initialize the configuration in the directory `dir`: what is
/// loaded is saved again, which creates the file where there was none, and
/// then shown.
pub fn initialize_config(dir: &PathBuf) -> (r: (Task, Request))
    ensures
        (r.0@, r.1@) == TaskView::start_initialize(Store::Config, path_units(*dir)),
        r.0@.wf(),
{
    Task::initialize(Store::Config, dir)
}

} // verus!
