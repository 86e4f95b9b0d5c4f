use crate::clock::Timestamp;
use crate::config::Config;
use crate::config::ConfigView;
use crate::error::BackupError;
use crate::error::ErrorView;
use crate::registry::Registry;
use crate::registry::RegistryView;
use crate::util::path_units;
use crate::util::units_of;
use std::path::PathBuf;
use vstd::prelude::*;

verus! {

/// What a path is on disk at the moment it is looked at. `File` stands for
/// anything that exists and is not a directory.
#[derive(Clone, Copy, Debug, PartialEq, Eq, Structural)]
pub enum PathKind {
    Missing,
    File,
    Directory,
}

/// Which of the two persisted documents a task works on.
#[derive(Clone, Copy, Debug, PartialEq, Eq, Structural)]
pub enum Store {
    Config,
    Registry,
}

/// One of the two persisted documents.
#[derive(Debug)]
pub enum Document {
    Config(Config),
    Registry(Registry),
}

/// A document as a value.
pub enum DocumentView {
    Config(ConfigView),
    Registry(RegistryView),
}

impl View for Document {
    type V = DocumentView;

    open spec fn view(&self) -> DocumentView {
        match self {
            Document::Config(c) => DocumentView::Config(c@),
            Document::Registry(r) => DocumentView::Registry(r@),
        }
    }
}

impl DocumentView {
    /// The store that this document belongs to.
    pub open spec fn store(self) -> Store {
        match self {
            DocumentView::Config(_) => Store::Config,
            DocumentView::Registry(_) => Store::Registry,
        }
    }

    /// The document that a store holds before anything was saved to it.
    pub open spec fn empty(store: Store) -> DocumentView {
        match store {
            Store::Config => DocumentView::Config(ConfigView { backups: Seq::empty() }),
            Store::Registry => DocumentView::Registry(RegistryView { backups: Seq::empty() }),
        }
    }
}

impl Document {
    /// The store that this document belongs to.
    pub fn store(&self) -> (r: Store)
        ensures
            r == self@.store(),
    {
        match self {
            Document::Config(_) => Store::Config,
            Document::Registry(_) => Store::Registry,
        }
    }

    /// The document that `store` holds before anything was saved to it.
    pub fn empty(store: Store) -> (r: Document)
        ensures
            r@ == DocumentView::empty(store),
    {
        match store {
            Store::Config => Document::Config(Config::default()),
            Store::Registry => Document::Registry(Registry::default()),
        }
    }
}

/// How a task ended.
pub enum Outcome {
    /// A load ended with this document.
    Loaded(Document),
    /// The task did all it had to do.
    Completed,
    /// The task stopped on this error.
    Failed(BackupError),
}

/// An outcome as a value.
pub enum OutcomeView {
    Loaded(DocumentView),
    Completed,
    Failed(ErrorView),
}

impl View for Outcome {
    type V = OutcomeView;

    open spec fn view(&self) -> OutcomeView {
        match self {
            Outcome::Loaded(d) => OutcomeView::Loaded(d@),
            Outcome::Completed => OutcomeView::Completed,
            Outcome::Failed(e) => OutcomeView::Failed(e@),
        }
    }
}

/// What a task asks of whoever drives it. Each request but the last is
/// answered by one event.
pub enum Request {
    /// Look at a path and say what it is.
    Probe(PathBuf),
    /// Read a file as text.
    ReadText(PathBuf),
    /// Decode a text as the document of a store.
    Decode(Store, String),
    /// Encode the document that the task holds.
    Encode,
    /// Replace a file's contents by a text.
    WriteText(PathBuf, String),
    /// Name the entries directly under a directory.
    List(PathBuf),
    /// Create one directory; its parent has to exist.
    CreateDir(PathBuf),
    /// Copy a file's bytes.
    CopyFile { from: PathBuf, to: PathBuf },
    /// Show a line to the user.
    Notice(String),
    /// Read the clock.
    Clock,
    /// The task is over.
    Finish(Outcome),
}

/// A request as a value.
pub enum RequestView {
    Probe(Seq<u8>),
    ReadText(Seq<u8>),
    Decode(Store, Seq<char>),
    Encode,
    WriteText(Seq<u8>, Seq<char>),
    List(Seq<u8>),
    CreateDir(Seq<u8>),
    CopyFile { from: Seq<u8>, to: Seq<u8> },
    Notice(Seq<char>),
    Clock,
    Finish(OutcomeView),
}

impl View for Request {
    type V = RequestView;

    open spec fn view(&self) -> RequestView {
        match self {
            Request::Probe(p) => RequestView::Probe(path_units(*p)),
            Request::ReadText(p) => RequestView::ReadText(path_units(*p)),
            Request::Decode(store, text) => RequestView::Decode(*store, text@),
            Request::Encode => RequestView::Encode,
            Request::WriteText(p, text) => RequestView::WriteText(path_units(*p), text@),
            Request::List(p) => RequestView::List(path_units(*p)),
            Request::CreateDir(p) => RequestView::CreateDir(path_units(*p)),
            Request::CopyFile { from, to } => RequestView::CopyFile {
                from: path_units(*from),
                to: path_units(*to),
            },
            Request::Notice(text) => RequestView::Notice(text@),
            Request::Clock => RequestView::Clock,
            Request::Finish(outcome) => RequestView::Finish(outcome@),
        }
    }
}

impl RequestView {
    /// Whether carrying out this request changes anything on disk.
    pub open spec fn mutates(self) -> bool {
        self is WriteText || self is CreateDir || self is CopyFile
    }
}

/// The answer to a request.
pub enum Event {
    /// What the probed path is.
    Kind(PathKind),
    /// The text that was read.
    Text(String),
    /// The document that the text decodes to.
    Decoded(Document),
    /// The text is no document of the store.
    Undecodable(toml::de::Error),
    /// The text that the document encodes to.
    Encoded(String),
    /// The document has no encoding.
    Unencodable(toml::ser::Error),
    /// The names of the entries that were read, in the order they came, and
    /// the failure that ended the reading early, if one did.
    Listing(Vec<PathBuf>, Option<std::io::Error>),
    /// The request was carried out.
    Done,
    /// The filesystem refused the request.
    Failed(std::io::Error),
    /// The current time.
    Time(Timestamp),
}

/// An event as a value.
pub enum EventView {
    Kind(PathKind),
    Text(Seq<char>),
    Decoded(DocumentView),
    Undecodable(toml::de::Error),
    Encoded(Seq<char>),
    Unencodable(toml::ser::Error),
    Listing(Seq<Seq<u8>>, Option<std::io::Error>),
    Done,
    Failed(std::io::Error),
    Time(Timestamp),
}

impl View for Event {
    type V = EventView;

    open spec fn view(&self) -> EventView {
        match self {
            Event::Kind(k) => EventView::Kind(*k),
            Event::Text(t) => EventView::Text(t@),
            Event::Decoded(d) => EventView::Decoded(d@),
            Event::Undecodable(e) => EventView::Undecodable(*e),
            Event::Encoded(t) => EventView::Encoded(t@),
            Event::Unencodable(e) => EventView::Unencodable(*e),
            Event::Listing(names, failure) => EventView::Listing(units_of(names@), *failure),
            Event::Done => EventView::Done,
            Event::Failed(e) => EventView::Failed(*e),
            Event::Time(t) => EventView::Time(*t),
        }
    }
}

} // verus!
