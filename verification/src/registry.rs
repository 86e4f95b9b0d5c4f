use crate::model::TaskView;
use crate::protocol::Document;
use crate::protocol::DocumentView;
use crate::protocol::Request;
use crate::protocol::Store;
use crate::task::Task;
use crate::text::join;
use crate::text::joined;
use crate::text::texts;
use crate::util::path_units;
use crate::util::pathbuf_to_str;
use crate::util::text_of;
use crate::util::units_of;
use std::path::PathBuf;
use vstd::prelude::*;
use vstd::string::StringExecFns;

verus! {

/// The registry document: the known backup locations, in the order they
/// were added. Whether a location can be reached is never stored.
#[derive(Debug)]
pub struct Registry {
    pub backups: Vec<PathBuf>,
}

/// A registry as a value: the encoding of each location.
pub struct RegistryView {
    pub backups: Seq<Seq<u8>>,
}

impl View for Registry {
    type V = RegistryView;

    open spec fn view(&self) -> RegistryView {
        RegistryView { backups: units_of(self.backups@) }
    }
}

impl Default for Registry {
    fn default() -> (r: Registry)
        ensures
            r@.backups == Seq::<Seq<u8>>::empty(),
    {
        let r = Registry { backups: Vec::new() };
        assert(r@.backups =~= Seq::empty());
        r
    }
}

/// The line that shows a location encoded as `units`: the path, marked as
/// offline exactly where it is not `present`.
pub open spec fn location_line(units: Seq<u8>, present: bool) -> Seq<char> {
    if present {
        text_of(units)
    } else {
        text_of(units) + " (offline)"@
    }
}

/// One line per location, in order.
pub open spec fn location_lines(locations: Seq<Seq<u8>>, present: Seq<bool>) -> Seq<Seq<char>> {
    Seq::new(locations.len(), |i: int| location_line(locations[i], present[i]))
}

/// The line that shows `path`, given whether it exists right now.
pub fn render_location(path: &PathBuf, present: bool) -> (r: String)
    ensures
        r@ == location_line(path_units(*path), present),
{
    let text = pathbuf_to_str(path);
    if present {
        text
    } else {
        text.concat(" (offline)")
    }
}

impl Registry {
    /// Appends `path`; the locations before it stay as they are.
    pub fn add_backup(&mut self, path: PathBuf)
        ensures
            final(self)@.backups == old(self)@.backups.push(path_units(path)),
    {
        self.backups.push(path);
        assert(self@.backups =~= old(self)@.backups.push(path_units(path)));
    }

    /// The registry as text, one location per line in the order of the
    /// document. `present` says of each location whether it exists right now;
    /// a location is marked as offline exactly where it does not. There is
    /// no text where `present` does not answer for each location once.
    pub fn render(&self, present: &Vec<bool>) -> (r: Option<String>)
        ensures
            r is Some <==> present@.len() == self.backups@.len(),
            r is Some ==> r->0@ == joined(location_lines(self@.backups, present@), "\n"@),
    {
        if present.len() != self.backups.len() {
            return None;
        }
        let mut lines: Vec<String> = Vec::new();
        let mut i: usize = 0;
        while i < self.backups.len()
            invariant
                i <= self.backups.len(),
                present@.len() == self.backups@.len(),
                lines@.len() == i,
                forall|k: int|
                    0 <= k < i ==> (#[trigger] lines@[k])@ == location_line(
                        path_units(self.backups@[k]),
                        present@[k],
                    ),
            decreases self.backups.len() - i,
        {
            lines.push(render_location(&self.backups[i], present[i]));
            i = i + 1;
        }
        proof {
            assert(texts(lines@) =~= location_lines(self@.backups, present@));
        }
        Some(join(&lines, "\n"))
    }
}

/// Begins to load the registry kept in the directory `dir`. The task ends
/// with the registry that the file there decodes to, or with an empty one
/// where there is no file.
pub fn load_registry(dir: &PathBuf) -> (r: (Task, Request))
    ensures
        (r.0@, r.1@) == TaskView::start_load(Store::Registry, path_units(*dir)),
        r.0@.wf(),
{
    Task::load(Store::Registry, dir)
}

/// Begins to save `registry` to its file in the directory `dir`.
pub fn save_registry(registry: Registry, dir: &PathBuf) -> (r: (Task, Request))
    ensures
        (r.0@, r.1@) == TaskView::start_save(DocumentView::Registry(registry@), path_units(*dir)),
        r.0@.wf(),
{
    Task::save(Document::Registry(registry), dir)
}

/// Begins to initialize the registry in the directory `dir`: what is loaded
/// is saved again, which creates the file where there was none, and then
/// shown.
pub fn initialize_registry(dir: &PathBuf) -> (r: (Task, Request))
    ensures
        (r.0@, r.1@) == TaskView::start_initialize(Store::Registry, path_units(*dir)),
        r.0@.wf(),
{
    Task::initialize(Store::Registry, dir)
}

} // verus!
