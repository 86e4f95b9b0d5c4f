use crate::error::ErrorView;
use crate::model::store_path;
use crate::model::store_word;
use crate::model::TaskView;
use crate::protocol::DocumentView;
use crate::protocol::EventView;
use crate::protocol::OutcomeView;
use crate::protocol::PathKind;
use crate::protocol::RequestView;
use crate::protocol::Store;
use crate::util::debug_text;
use vstd::prelude::*;

verus! {

/// A load where the store has no file ends at once, with the empty
/// document of the store, and nothing is read or written.
pub proof fn lemma_load_of_no_file_is_empty(store: Store, dir: Seq<u8>)
    ensures
        TaskView::start_load(store, dir).1 == RequestView::Probe(store_path(dir, store)),
        TaskView::start_load(store, dir).0.next(EventView::Kind(PathKind::Missing)).1
            == RequestView::Finish(OutcomeView::Loaded(DocumentView::empty(store))),
{
}

/// A load where the store has a file reads the file, has the text decoded,
/// and ends with the document that the text decodes to. It ends with the
/// failure of the read where the file cannot be read, and with the failure
/// of the decoding where the text is no document.
pub proof fn lemma_load_reads_and_decodes(
    store: Store,
    dir: Seq<u8>,
    kind: PathKind,
    text: Seq<char>,
    document: DocumentView,
    refused: std::io::Error,
    broken: toml::de::Error,
)
    requires
        kind != PathKind::Missing,
    ensures
        ({
            let probed = TaskView::start_load(store, dir).0.next(EventView::Kind(kind));
            let read = probed.0.next(EventView::Text(text));
            &&& probed.1 == RequestView::ReadText(store_path(dir, store))
            &&& probed.0.next(EventView::Failed(refused)).1 == RequestView::Finish(
                OutcomeView::Failed(ErrorView::IO(refused)),
            )
            &&& read.1 == RequestView::Decode(store, text)
            &&& read.0.next(EventView::Decoded(document)).1 == RequestView::Finish(
                OutcomeView::Loaded(document),
            )
            &&& read.0.next(EventView::Undecodable(broken)).1 == RequestView::Finish(
                OutcomeView::Failed(ErrorView::DeToml(broken)),
            )
        }),
{
}

/// A save has the document encoded, writes the text over the file of the
/// store, and is done. It ends with the failure of the encoding where the
/// document has no encoding, and with the failure of the write where the
/// file cannot be written.
pub proof fn lemma_save_encodes_and_writes(
    document: DocumentView,
    dir: Seq<u8>,
    text: Seq<char>,
    refused: std::io::Error,
    broken: toml::ser::Error,
)
    ensures
        ({
            let start = TaskView::start_save(document, dir);
            let encoded = start.0.next(EventView::Encoded(text));
            &&& start.1 == RequestView::Encode
            &&& start.0.document == Some(document)
            &&& start.0.next(EventView::Unencodable(broken)).1 == RequestView::Finish(
                OutcomeView::Failed(ErrorView::SerToml(broken)),
            )
            &&& encoded.1 == RequestView::WriteText(store_path(dir, document.store()), text)
            &&& encoded.0.document == Some(document)
            &&& encoded.0.next(EventView::Done).1 == RequestView::Finish(OutcomeView::Completed)
            &&& encoded.0.next(EventView::Failed(refused)).1 == RequestView::Finish(
                OutcomeView::Failed(ErrorView::IO(refused)),
            )
        }),
{
}

/// An initialization of a store that has no file saves the empty document,
/// which creates the file, and then shows where the file is and what it
/// holds. The document that is encoded to be shown is the one that was
/// saved.
pub proof fn lemma_initialize_creates_and_shows(
    store: Store,
    dir: Seq<u8>,
    saved: Seq<char>,
    shown: Seq<char>,
)
    ensures
        ({
            let start = TaskView::start_initialize(store, dir);
            let loaded = start.0.next(EventView::Kind(PathKind::Missing));
            let encoded = loaded.0.next(EventView::Encoded(saved));
            let written = encoded.0.next(EventView::Done);
            let again = written.0.next(EventView::Encoded(shown));
            let placed = again.0.next(EventView::Done);
            &&& start.1 == RequestView::Probe(store_path(dir, store))
            &&& loaded.1 == RequestView::Encode
            &&& loaded.0.document == Some(DocumentView::empty(store))
            &&& encoded.1 == RequestView::WriteText(store_path(dir, store), saved)
            &&& written.1 == RequestView::Encode
            &&& written.0.document == Some(DocumentView::empty(store))
            &&& again.1 == RequestView::Notice(
                store_word(store) + " initialized at "@ + debug_text(store_path(dir, store)),
            )
            &&& placed.1 == RequestView::Notice(shown)
            &&& placed.0.next(EventView::Done).1 == RequestView::Finish(OutcomeView::Completed)
        }),
{
}

/// An initialization of a store that has a file saves the document that the
/// file decodes to, as it is.
pub proof fn lemma_initialize_keeps_the_document(
    store: Store,
    dir: Seq<u8>,
    kind: PathKind,
    text: Seq<char>,
    document: DocumentView,
)
    requires
        kind != PathKind::Missing,
    ensures
        ({
            let start = TaskView::start_initialize(store, dir);
            let decoded = start.0.next(EventView::Kind(kind)).0.next(EventView::Text(text)).0.next(
                EventView::Decoded(document),
            );
            &&& decoded.1 == RequestView::Encode
            &&& decoded.0.document == Some(document)
        }),
{
}

/// A run resolves its names against the configuration that it loads: it
/// goes on to probe the destination that the configuration has for the two
/// names, or ends with the error that says which of them is unknown. With no
/// file there, the configuration is empty and no backup is known.
pub proof fn lemma_run_resolves_its_names(
    dir: Seq<u8>,
    backup_name: Seq<char>,
    device_name: Seq<char>,
    dry_run: bool,
    kind: PathKind,
    text: Seq<char>,
    config: crate::config::ConfigView,
)
    requires
        kind != PathKind::Missing,
    ensures
        ({
            let start = TaskView::start_run(dir, backup_name, device_name, dry_run);
            let resolved = start.0.next(EventView::Kind(kind)).0.next(EventView::Text(text)).0.next(
                EventView::Decoded(DocumentView::Config(config)),
            );
            &&& start.1 == RequestView::Probe(store_path(dir, Store::Config))
            &&& match config.destination(backup_name, device_name) {
                Ok(root) => resolved.1 == RequestView::Probe(root),
                Err(error) => resolved.1 == RequestView::Finish(OutcomeView::Failed(error)),
            }
            &&& start.0.next(EventView::Kind(PathKind::Missing)).1 == RequestView::Finish(
                OutcomeView::Failed(ErrorView::BackupNotFound { backup_name }),
            )
        }),
{
    let empty = crate::config::ConfigView { backups: Seq::empty() };
    empty.names().index_of_first_ensures(backup_name);
}

} // verus!
