use crate::registry::location_line;
use crate::registry::render_location;
use crate::util::path_text;
use crate::util::path_units;
use crate::util::pathbuf_to_str;
use std::path::PathBuf;
use vstd::prelude::*;
use vstd::string::StringExecFns;

verus! {

/// A backup location with a name of its own.
#[derive(Debug)]
pub struct Backup {
    pub name: String,
    pub path: PathBuf,
}

impl Backup {
    /// The location `path`, called `name`.
    pub fn new(name: String, path: PathBuf) -> (r: Backup)
        ensures
            r.name == name,
            r.path == path,
    {
        Backup { name, path }
    }

    /// The location as printable text.
    pub fn path_str(&self) -> (r: String)
        ensures
            r@ == path_text(self.path),
    {
        pathbuf_to_str(&self.path)
    }

    /// What `render` returns: a heading with the name, and below it the
    /// location, marked as offline exactly where it is not `present`.
    pub open spec fn rendered(&self, present: bool) -> Seq<char> {
        "Backup: "@ + self.name@ + "\n"@ + location_line(path_units(self.path), present)
    }

    /// The backup as two lines of text, given whether its location exists
    /// right now.
    pub fn render(&self, present: bool) -> (r: String)
        ensures
            r@ == self.rendered(present),
    {
        let line = render_location(&self.path, present);
        String::from_str("Backup: ").concat(self.name.as_str()).concat("\n").concat(line.as_str())
    }
}

} // verus!
