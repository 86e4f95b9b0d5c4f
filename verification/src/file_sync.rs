use crate::text::join;
use crate::text::joined;
use crate::text::texts;
use crate::util::path_text;
use crate::util::pathbuf_to_str;
use std::path::PathBuf;
use vstd::prelude::*;
use vstd::string::StringExecFns;

verus! {

/// A named set of source paths that are synchronised into one destination.
#[derive(Debug)]
pub struct FileSync {
    pub name: String,
    pub sources: Vec<PathBuf>,
    pub dest: PathBuf,
}

/// The printable form of each path of `paths`, in order.
pub open spec fn path_texts(paths: Seq<PathBuf>) -> Seq<Seq<char>> {
    Seq::new(paths.len(), |i: int| path_text(paths[i]))
}

/// One list line per source: a dash, a space and the path.
pub open spec fn source_lines(paths: Seq<PathBuf>) -> Seq<Seq<char>> {
    Seq::new(paths.len(), |i: int| "- "@ + path_text(paths[i]))
}

impl FileSync {
    /// A sync called `name` into `dest`, with no sources yet.
    pub fn new(name: String, dest: PathBuf) -> (r: FileSync)
        ensures
            r.name == name,
            r.dest == dest,
            r.sources@ == Seq::<PathBuf>::empty(),
    {
        FileSync { name, sources: Vec::new(), dest }
    }

    /// Appends `source` to the sources; nothing else changes.
    pub fn add_source(&mut self, source: PathBuf)
        ensures
            final(self).sources@ == old(self).sources@.push(source),
            final(self).name == old(self).name,
            final(self).dest == old(self).dest,
    {
        self.sources.push(source);
    }

    /// The sources as printable text, in order.
    pub fn sources_str(&self) -> (r: Vec<String>)
        ensures
            texts(r@) == path_texts(self.sources@),
    {
        let mut out: Vec<String> = Vec::new();
        let mut i: usize = 0;
        while i < self.sources.len()
            invariant
                i <= self.sources.len(),
                out@.len() == i,
                forall|k: int| 0 <= k < i ==> (#[trigger] out@[k])@ == path_text(self.sources@[k]),
            decreases self.sources.len() - i,
        {
            out.push(pathbuf_to_str(&self.sources[i]));
            i = i + 1;
        }
        proof {
            assert(texts(out@) =~= path_texts(self.sources@));
        }
        out
    }

    /// The destination as printable text.
    pub fn dest_str(&self) -> (r: String)
        ensures
            r@ == path_text(self.dest),
    {
        pathbuf_to_str(&self.dest)
    }

    /// What `render` returns: the name, the list of sources and the
    /// destination, one below the other.
    pub open spec fn rendered(&self) -> Seq<char> {
        joined(
            seq![
                "Name: "@ + self.name@,
                "Sources:\n"@ + joined(source_lines(self.sources@), "\n"@),
                "Dest: "@ + path_text(self.dest),
            ],
            "\n"@,
        )
    }

    /// The sync as a block of text for display.
    pub fn render(&self) -> (r: String)
        ensures
            r@ == self.rendered(),
    {
        let sources = self.sources_str();
        let mut lines: Vec<String> = Vec::new();
        let mut i: usize = 0;
        proof {
            assert(texts(sources@).len() == path_texts(self.sources@).len());
        }
        while i < sources.len()
            invariant
                i <= sources.len(),
                sources@.len() == self.sources@.len(),
                lines@.len() == i,
                texts(sources@) == path_texts(self.sources@),
                forall|k: int| 0 <= k < i ==> (#[trigger] lines@[k])@ == "- "@ + path_text(self.sources@[k]),
            decreases sources.len() - i,
        {
            proof {
                assert(texts(sources@)[i as int] == path_texts(self.sources@)[i as int]);
            }
            lines.push(String::from_str("- ").concat(sources[i].as_str()));
            i = i + 1;
        }
        proof {
            assert(texts(lines@) =~= source_lines(self.sources@));
        }
        let list = join(&lines, "\n");
        let mut parts: Vec<String> = Vec::new();
        parts.push(String::from_str("Name: ").concat(self.name.as_str()));
        parts.push(String::from_str("Sources:\n").concat(list.as_str()));
        parts.push(String::from_str("Dest: ").concat(self.dest_str().as_str()));
        proof {
            assert(texts(parts@) =~= seq![
                "Name: "@ + self.name@,
                "Sources:\n"@ + joined(source_lines(self.sources@), "\n"@),
                "Dest: "@ + path_text(self.dest),
            ]);
        }
        join(&parts, "\n")
    }
}

} // verus!
