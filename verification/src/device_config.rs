use crate::clock::utc_display;
use crate::clock::Timestamp;
use crate::file_sync::FileSync;
use crate::text::join;
use crate::text::joined;
use crate::text::texts;
use vstd::prelude::*;
use vstd::string::StringExecFns;

verus! {

/// What one device synchronises, and when it was last backed up.
#[derive(Debug)]
pub struct DeviceConfig {
    pub name: String,
    pub files: Vec<FileSync>,
    pub last_backup: Option<Timestamp>,
}

/// The display text of each sync of `files`, in order.
pub open spec fn file_blocks(files: Seq<FileSync>) -> Seq<Seq<char>> {
    Seq::new(files.len(), |i: int| files[i].rendered())
}

/// How the time of the last backup is shown: the instant as chrono prints
/// it, or `N/A` where there was no backup yet.
pub open spec fn last_backup_text(last_backup: Option<Timestamp>) -> Seq<char> {
    match last_backup {
        Some(t) => utc_display(t.secs(), t.nanos())->0,
        None => "N/A"@,
    }
}

impl Default for DeviceConfig {
    fn default() -> (r: DeviceConfig)
        ensures
            r.name@ == Seq::<char>::empty(),
            r.files@ == Seq::<FileSync>::empty(),
            r.last_backup is None,
    {
        DeviceConfig { name: String::new(), files: Vec::new(), last_backup: None }
    }
}

impl DeviceConfig {
    /// A device called `name` with nothing to synchronise and no backup yet.
    pub fn new(name: String) -> (r: DeviceConfig)
        ensures
            r.name == name,
            r.files@ == Seq::<FileSync>::empty(),
            r.last_backup is None,
    {
        DeviceConfig { name, files: Vec::new(), last_backup: None }
    }

    /// Appends `sync`; nothing else changes.
    pub fn add_sync(&mut self, sync: FileSync)
        ensures
            final(self).files@ == old(self).files@.push(sync),
            final(self).name == old(self).name,
            final(self).last_backup == old(self).last_backup,
    {
        self.files.push(sync);
    }

    /// What `render` returns: the device's name, its syncs with a rule
    /// between each two, and the time of the last backup, with an empty line
    /// before and after the syncs.
    pub open spec fn rendered(&self) -> Seq<char> {
        joined(
            seq![
                "Device: "@ + self.name@,
                Seq::<char>::empty(),
                joined(file_blocks(self.files@), "\n----\n"@),
                Seq::<char>::empty(),
                "Last backup: "@ + last_backup_text(self.last_backup),
            ],
            "\n"@,
        )
    }

    /// The device as a block of text for display.
    pub fn render(&self) -> (r: String)
        ensures
            r@ == self.rendered(),
    {
        let mut blocks: Vec<String> = Vec::new();
        let mut i: usize = 0;
        while i < self.files.len()
            invariant
                i <= self.files.len(),
                blocks@.len() == i,
                forall|k: int| 0 <= k < i ==> (#[trigger] blocks@[k])@ == self.files@[k].rendered(),
            decreases self.files.len() - i,
        {
            blocks.push(self.files[i].render());
            i = i + 1;
        }
        proof {
            assert(texts(blocks@) =~= file_blocks(self.files@));
        }
        let files = join(&blocks, "\n----\n");
        let last = match &self.last_backup {
            Some(t) => t.render(),
            None => String::from_str("N/A"),
        };
        let mut parts: Vec<String> = Vec::new();
        parts.push(String::from_str("Device: ").concat(self.name.as_str()));
        parts.push(String::new());
        parts.push(files);
        parts.push(String::new());
        parts.push(String::from_str("Last backup: ").concat(last.as_str()));
        proof {
            assert(texts(parts@) =~= seq![
                "Device: "@ + self.name@,
                Seq::<char>::empty(),
                joined(file_blocks(self.files@), "\n----\n"@),
                Seq::<char>::empty(),
                "Last backup: "@ + last_backup_text(self.last_backup),
            ]);
        }
        join(&parts, "\n")
    }
}

} // verus!
