use smartsync_core::clock::Timestamp;
use smartsync_core::config::initialize_config;
use smartsync_core::config::load_config;
use smartsync_core::config::save_config;
use smartsync_core::config::Backup;
use smartsync_core::config::Config;
use smartsync_core::config::Destination;
use smartsync_core::error::BackupError;
use smartsync_core::error::PathType;
use smartsync_core::protocol::Document;
use smartsync_core::protocol::Event;
use smartsync_core::protocol::Outcome;
use smartsync_core::protocol::PathKind;
use smartsync_core::protocol::Request;
use smartsync_core::protocol::Store;
use smartsync_core::registry::initialize_registry;
use smartsync_core::registry::load_registry;
use smartsync_core::registry::save_registry;
use smartsync_core::registry::Registry;
use smartsync_core::runner::copy_files;
use smartsync_core::runner::run_backup;
use smartsync_core::task::Task;
use std::collections::BTreeMap;
use std::path::Path;
use std::path::PathBuf;

#[derive(Clone, Debug, PartialEq)]
enum Node {
    File(Vec<u8>),
    Dir,
}

struct World {
    nodes: BTreeMap<PathBuf, Node>,
    requests: Vec<String>,
    notices: Vec<String>,
    copies: Vec<(PathBuf, PathBuf)>,
    created: Vec<PathBuf>,
    written: Vec<PathBuf>,
    clock: Timestamp,
    clock_reads: usize,
    refuse_copy_to: Option<PathBuf>,
    refuse_list_of: Option<PathBuf>,
    cut_list_of: Option<(PathBuf, usize)>,
    refuse_write: bool,
    refuse_encode: bool,
}

fn world() -> World {
    let mut nodes = BTreeMap::new();
    nodes.insert(PathBuf::from("/"), Node::Dir);
    nodes.insert(PathBuf::from("/home"), Node::Dir);
    World {
        nodes,
        requests: Vec::new(),
        notices: Vec::new(),
        copies: Vec::new(),
        created: Vec::new(),
        written: Vec::new(),
        clock: Timestamp::new(1_700_000_000, 42).expect("a valid instant"),
        clock_reads: 0,
        refuse_copy_to: None,
        refuse_list_of: None,
        cut_list_of: None,
        refuse_write: false,
        refuse_encode: false,
    }
}

fn dir(w: &mut World, path: &str) {
    w.nodes.insert(PathBuf::from(path), Node::Dir);
}

fn file(w: &mut World, path: &str, bytes: &str) {
    w.nodes.insert(PathBuf::from(path), Node::File(bytes.as_bytes().to_vec()));
}

fn kind(w: &World, path: &Path) -> PathKind {
    match w.nodes.get(path) {
        None => PathKind::Missing,
        Some(Node::Dir) => PathKind::Directory,
        Some(Node::File(_)) => PathKind::File,
    }
}

fn refusal(what: &str) -> std::io::Error {
    std::io::Error::new(std::io::ErrorKind::Other, what.to_string())
}

fn encode(document: &Document) -> String {
    let mut out = String::new();
    match document {
        Document::Config(config) => {
            out.push_str("config\n");
            for b in &config.backups {
                out.push_str(&format!("backup\t{}\n", b.name));
                for s in &b.source_paths {
                    out.push_str(&format!("source\t{}\n", s.display()));
                }
                for d in &b.destinations {
                    out.push_str(&format!("dest\t{}\t{}\n", d.device_name, d.path.display()));
                }
                if let Some(t) = &b.last_run {
                    out.push_str(&format!("last\t{}\t{}\n", t.secs(), t.nanos()));
                }
            }
        }
        Document::Registry(registry) => {
            out.push_str("registry\n");
            for p in &registry.backups {
                out.push_str(&format!("location\t{}\n", p.display()));
            }
        }
    }
    out
}

fn decode(store: Store, text: &str) -> Option<Document> {
    let mut lines = text.lines();
    let head = lines.next()?;
    match store {
        Store::Config => {
            if head != "config" {
                return None;
            }
            let mut config = Config::default();
            for line in lines {
                let parts: Vec<&str> = line.split('\t').collect();
                match parts[0] {
                    "backup" => {
                        let mut b = Backup::default();
                        b.name = parts[1].to_string();
                        config.add_backup(b);
                    }
                    "source" => config.backups.last_mut()?.source_paths.push(PathBuf::from(parts[1])),
                    "dest" => config.backups.last_mut()?.destinations.push(Destination {
                        device_name: parts[1].to_string(),
                        path: PathBuf::from(parts[2]),
                    }),
                    "last" => {
                        config.backups.last_mut()?.last_run =
                            Timestamp::new(parts[1].parse().ok()?, parts[2].parse().ok()?)
                    }
                    _ => return None,
                }
            }
            Some(Document::Config(config))
        }
        Store::Registry => {
            if head != "registry" {
                return None;
            }
            let mut registry = Registry::default();
            for line in lines {
                let parts: Vec<&str> = line.split('\t').collect();
                if parts[0] != "location" {
                    return None;
                }
                registry.add_backup(PathBuf::from(parts[1]));
            }
            Some(Document::Registry(registry))
        }
    }
}

fn answer(w: &mut World, task: &Task, request: Request) -> Result<Event, Outcome> {
    Ok(match request {
        Request::Finish(outcome) => return Err(outcome),
        Request::Probe(p) => {
            w.requests.push(format!("probe {}", p.display()));
            Event::Kind(kind(w, &p))
        }
        Request::ReadText(p) => {
            w.requests.push(format!("read {}", p.display()));
            match w.nodes.get(&p) {
                Some(Node::File(bytes)) => Event::Text(String::from_utf8(bytes.clone()).expect("text")),
                _ => Event::Failed(refusal("cannot read")),
            }
        }
        Request::Decode(store, text) => {
            w.requests.push("decode".to_string());
            match decode(store, &text) {
                Some(document) => Event::Decoded(document),
                None => Event::Undecodable(toml::from_str::<toml::Table>("= broken").unwrap_err()),
            }
        }
        Request::Encode => {
            w.requests.push("encode".to_string());
            if w.refuse_encode {
                Event::Unencodable(toml::to_string(&1u8).unwrap_err())
            } else {
                Event::Encoded(encode(task.document().as_ref().expect("a document to encode")))
            }
        }
        Request::WriteText(p, text) => {
            w.requests.push(format!("write {}", p.display()));
            if w.refuse_write {
                Event::Failed(refusal("cannot write"))
            } else {
                w.nodes.insert(p.clone(), Node::File(text.into_bytes()));
                w.written.push(p);
                Event::Done
            }
        }
        Request::List(p) => {
            w.requests.push(format!("list {}", p.display()));
            if w.refuse_list_of.as_deref() == Some(p.as_path()) {
                Event::Failed(refusal("cannot list"))
            } else if kind(w, &p) != PathKind::Directory {
                Event::Failed(refusal("not a directory"))
            } else {
                let mut names: Vec<PathBuf> = w
                    .nodes
                    .keys()
                    .filter(|k| k.parent() == Some(p.as_path()))
                    .map(|k| PathBuf::from(k.file_name().expect("a name")))
                    .collect();
                match &w.cut_list_of {
                    Some((at, keep)) if at == &p => {
                        names.truncate(*keep);
                        Event::Listing(names, Some(refusal("entry unreadable")))
                    }
                    _ => Event::Listing(names, None),
                }
            }
        }
        Request::CreateDir(p) => {
            w.requests.push(format!("mkdir {}", p.display()));
            let parent_is_dir = p.parent().map(|q| kind(w, q) == PathKind::Directory).unwrap_or(false);
            if !parent_is_dir || kind(w, &p) != PathKind::Missing {
                Event::Failed(refusal("cannot create"))
            } else {
                w.nodes.insert(p.clone(), Node::Dir);
                w.created.push(p);
                Event::Done
            }
        }
        Request::CopyFile { from, to } => {
            w.requests.push(format!("copy {} {}", from.display(), to.display()));
            let bytes = match w.nodes.get(&from) {
                Some(Node::File(bytes)) => Some(bytes.clone()),
                _ => None,
            };
            match bytes {
                Some(bytes) if w.refuse_copy_to.as_deref() != Some(to.as_path()) => {
                    w.nodes.insert(to.clone(), Node::File(bytes));
                    w.copies.push((from, to));
                    Event::Done
                }
                _ => Event::Failed(refusal("cannot copy")),
            }
        }
        Request::Notice(text) => {
            w.requests.push("notice".to_string());
            w.notices.push(text);
            Event::Done
        }
        Request::Clock => {
            w.requests.push("clock".to_string());
            w.clock_reads += 1;
            Event::Time(w.clock)
        }
    })
}

fn drive(w: &mut World, start: (Task, Request)) -> Outcome {
    let (mut task, mut request) = start;
    loop {
        let event = match answer(w, &task, request) {
            Ok(event) => event,
            Err(outcome) => {
                assert!(task.is_finished());
                return outcome;
            }
        };
        assert!(!task.is_finished());
        assert!(task.accepts(&event));
        let (next_task, next_request) = task.step(event);
        task = next_task;
        request = next_request;
    }
}

fn nightly() -> Config {
    let mut config = Config::default();
    config.add_backup(Backup {
        name: "nightly".to_string(),
        source_paths: vec![PathBuf::from("/data/docs")],
        destinations: vec![Destination {
            device_name: "nas".to_string(),
            path: PathBuf::from("/mnt/nas/backup"),
        }],
        last_run: None,
    });
    config
}

fn install(w: &mut World, config: Config) {
    let text = encode(&Document::Config(config));
    file(w, "/home/.smartsync.toml", &text);
}

fn installed(w: &World) -> Config {
    let bytes = match w.nodes.get(Path::new("/home/.smartsync.toml")) {
        Some(Node::File(bytes)) => bytes.clone(),
        _ => panic!("no configuration on disk"),
    };
    match decode(Store::Config, &String::from_utf8(bytes).expect("text")) {
        Some(Document::Config(config)) => config,
        _ => panic!("no configuration on disk"),
    }
}

fn sample_tree(w: &mut World) {
    dir(w, "/data");
    dir(w, "/data/docs");
    file(w, "/data/docs/a.txt", "alpha");
    dir(w, "/data/docs/sub");
    file(w, "/data/docs/sub/b.txt", "beta");
    dir(w, "/data/docs/sub/deep");
    file(w, "/data/docs/sub/deep/c.txt", "gamma");
    dir(w, "/data/docs/empty");
    dir(w, "/mnt");
    dir(w, "/mnt/nas");
}

fn home() -> PathBuf {
    PathBuf::from("/home")
}

#[test]
fn destination_is_found_by_backup_and_device() {
    let config = nightly();
    match config.destination("nightly", "nas") {
        Ok(path) => assert_eq!(path, PathBuf::from("/mnt/nas/backup")),
        Err(_) => panic!("the destination is configured"),
    }
    match config.destination("nightly", "laptop") {
        Err(BackupError::DeviceNotFound { device_name, backup_name }) => {
            assert_eq!(device_name, "laptop");
            assert_eq!(backup_name, "nightly");
        }
        _ => panic!("the device is unknown"),
    }
    match config.destination("weekly", "nas") {
        Err(BackupError::BackupNotFound { backup_name }) => assert_eq!(backup_name, "weekly"),
        _ => panic!("the backup is unknown"),
    }
}

#[test]
fn first_match_wins_among_equal_names() {
    let mut config = nightly();
    config.add_backup(Backup {
        name: "nightly".to_string(),
        source_paths: Vec::new(),
        destinations: vec![Destination { device_name: "nas".to_string(), path: PathBuf::from("/second") }],
        last_run: None,
    });
    config.backups[0].destinations.push(Destination {
        device_name: "nas".to_string(),
        path: PathBuf::from("/other"),
    });
    assert_eq!(config.find_backup("nightly"), Some(0));
    assert_eq!(config.find_backup("weekly"), None);
    assert_eq!(config.backups[0].find_destination("nas"), Some(0));
    assert_eq!(config.backups[0].find_destination("usb"), None);
    assert_eq!(config.destination("nightly", "nas").ok(), Some(PathBuf::from("/mnt/nas/backup")));
}

#[test]
fn names_are_compared_exactly() {
    let config = nightly();
    assert_eq!(config.find_backup("Nightly"), None);
    assert_eq!(config.find_backup("nightly "), None);
    assert_eq!(config.find_backup(""), None);
    assert_eq!(config.backups[0].find_destination("NAS"), None);
}

#[test]
fn stamp_sets_the_first_backup_of_the_name_only() {
    let mut config = nightly();
    config.add_backup(Backup { name: "weekly".to_string(), ..Backup::default() });
    config.add_backup(Backup { name: "nightly".to_string(), ..Backup::default() });
    let now = Timestamp::new(1_600_000_000, 5).expect("a valid instant");
    config.stamp_last_run("nightly", now);
    assert_eq!(config.backups[0].last_run.map(|t| (t.secs(), t.nanos())), Some((1_600_000_000, 5)));
    assert!(config.backups[1].last_run.is_none());
    assert!(config.backups[2].last_run.is_none());
    config.stamp_last_run("monthly", now);
    assert_eq!(config.backups.len(), 3);
    assert!(config.backups[1].last_run.is_none());
    let later = Timestamp::new(1_600_000_100, 0).expect("a valid instant");
    config.stamp_last_run("nightly", later);
    assert_eq!(config.backups[0].last_run.map(|t| t.secs()), Some(1_600_000_100));
}

#[test]
fn run_resolves_to_the_configured_destination() {
    let mut w = world();
    sample_tree(&mut w);
    install(&mut w, nightly());
    let outcome = drive(&mut w, run_backup(&home(), "nightly", "nas", false));
    assert!(matches!(outcome, Outcome::Completed));
    assert_eq!(w.requests[0], "probe /home/.smartsync.toml");
    assert!(w.requests.contains(&"probe /mnt/nas/backup".to_string()));
    assert_eq!(w.created[0], PathBuf::from("/mnt/nas/backup"));
}

#[test]
fn run_fails_on_an_unknown_device() {
    let mut w = world();
    sample_tree(&mut w);
    install(&mut w, nightly());
    let before = w.nodes.clone();
    match drive(&mut w, run_backup(&home(), "nightly", "laptop", false)) {
        Outcome::Failed(BackupError::DeviceNotFound { device_name, backup_name }) => {
            assert_eq!(device_name, "laptop");
            assert_eq!(backup_name, "nightly");
        }
        _ => panic!("the device is unknown"),
    }
    assert_eq!(w.nodes, before);
}

#[test]
fn run_fails_on_an_unknown_backup() {
    let mut w = world();
    sample_tree(&mut w);
    install(&mut w, nightly());
    let before = w.nodes.clone();
    match drive(&mut w, run_backup(&home(), "weekly", "nas", false)) {
        Outcome::Failed(BackupError::BackupNotFound { backup_name }) => assert_eq!(backup_name, "weekly"),
        _ => panic!("the backup is unknown"),
    }
    assert_eq!(w.nodes, before);
}

#[test]
fn run_without_a_configuration_file_knows_no_backup() {
    let mut w = world();
    match drive(&mut w, run_backup(&home(), "nightly", "nas", false)) {
        Outcome::Failed(BackupError::BackupNotFound { backup_name }) => assert_eq!(backup_name, "nightly"),
        _ => panic!("an empty configuration has no backup"),
    }
    assert_eq!(w.requests, vec!["probe /home/.smartsync.toml".to_string()]);
}

#[test]
fn run_mirrors_the_tree() {
    let mut w = world();
    sample_tree(&mut w);
    install(&mut w, nightly());
    let outcome = drive(&mut w, run_backup(&home(), "nightly", "nas", false));
    assert!(matches!(outcome, Outcome::Completed));
    assert_eq!(w.nodes.get(Path::new("/mnt/nas/backup")), Some(&Node::Dir));
    assert_eq!(w.nodes.get(Path::new("/mnt/nas/backup/a.txt")), Some(&Node::File(b"alpha".to_vec())));
    assert_eq!(w.nodes.get(Path::new("/mnt/nas/backup/sub")), Some(&Node::Dir));
    assert_eq!(w.nodes.get(Path::new("/mnt/nas/backup/sub/b.txt")), Some(&Node::File(b"beta".to_vec())));
    assert_eq!(w.nodes.get(Path::new("/mnt/nas/backup/sub/deep")), Some(&Node::Dir));
    assert_eq!(
        w.nodes.get(Path::new("/mnt/nas/backup/sub/deep/c.txt")),
        Some(&Node::File(b"gamma".to_vec()))
    );
    assert_eq!(w.nodes.get(Path::new("/mnt/nas/backup/empty")), Some(&Node::Dir));
    assert_eq!(w.copies.len(), 3);
    assert_eq!(w.created.len(), 4);
    assert_eq!(
        w.notices,
        vec![
            "copying /data/docs/a.txt to /mnt/nas/backup/a.txt".to_string(),
            "copying /data/docs/sub/b.txt to /mnt/nas/backup/sub/b.txt".to_string(),
            "copying /data/docs/sub/deep/c.txt to /mnt/nas/backup/sub/deep/c.txt".to_string(),
        ]
    );
}

#[test]
fn run_records_its_time_and_saves() {
    let mut w = world();
    sample_tree(&mut w);
    install(&mut w, nightly());
    let outcome = drive(&mut w, run_backup(&home(), "nightly", "nas", false));
    assert!(matches!(outcome, Outcome::Completed));
    assert_eq!(w.clock_reads, 1);
    assert_eq!(w.written, vec![PathBuf::from("/home/.smartsync.toml")]);
    let saved = installed(&w);
    assert_eq!(saved.backups.len(), 1);
    assert_eq!(saved.backups[0].name, "nightly");
    assert_eq!(saved.backups[0].source_paths, vec![PathBuf::from("/data/docs")]);
    assert_eq!(saved.backups[0].last_run.map(|t| (t.secs(), t.nanos())), Some((1_700_000_000, 42)));
    let last = w.requests.len();
    assert_eq!(w.requests[last - 3..], ["clock".to_string(), "encode".to_string(), "write /home/.smartsync.toml".to_string()]);
}

#[test]
fn second_run_copies_nothing() {
    let mut w = world();
    sample_tree(&mut w);
    install(&mut w, nightly());
    assert!(matches!(drive(&mut w, run_backup(&home(), "nightly", "nas", false)), Outcome::Completed));
    let once = w.nodes.clone();
    w.copies.clear();
    w.created.clear();
    w.notices.clear();
    w.clock = Timestamp::new(1_700_000_900, 0).expect("a valid instant");
    assert!(matches!(drive(&mut w, run_backup(&home(), "nightly", "nas", false)), Outcome::Completed));
    assert!(w.copies.is_empty());
    assert!(w.created.is_empty());
    assert!(w.notices.is_empty());
    let mut twice = w.nodes.clone();
    let mut first = once.clone();
    twice.remove(Path::new("/home/.smartsync.toml"));
    first.remove(Path::new("/home/.smartsync.toml"));
    assert_eq!(twice, first);
    assert_eq!(installed(&w).backups[0].last_run.map(|t| t.secs()), Some(1_700_000_900));
}

#[test]
fn dry_run_changes_nothing() {
    let mut w = world();
    sample_tree(&mut w);
    install(&mut w, nightly());
    let before = w.nodes.clone();
    let outcome = drive(&mut w, run_backup(&home(), "nightly", "nas", true));
    assert!(matches!(outcome, Outcome::Completed));
    assert_eq!(w.nodes, before);
    assert!(w.copies.is_empty());
    assert!(w.created.is_empty());
    assert!(w.written.is_empty());
    assert_eq!(w.clock_reads, 0);
    assert!(installed(&w).backups[0].last_run.is_none());
    assert!(!w.requests.iter().any(|r| r == "encode" || r.starts_with("write") || r.starts_with("mkdir")
        || r.starts_with("copy")));
}

#[test]
fn dry_run_shows_what_a_real_run_copies() {
    let mut dry = world();
    sample_tree(&mut dry);
    install(&mut dry, nightly());
    assert!(matches!(drive(&mut dry, run_backup(&home(), "nightly", "nas", true)), Outcome::Completed));
    let mut wet = world();
    sample_tree(&mut wet);
    install(&mut wet, nightly());
    assert!(matches!(drive(&mut wet, run_backup(&home(), "nightly", "nas", false)), Outcome::Completed));
    assert_eq!(
        dry.notices,
        vec![
            "would copy /data/docs/a.txt to /mnt/nas/backup/a.txt".to_string(),
            "would copy /data/docs/sub/b.txt to /mnt/nas/backup/sub/b.txt".to_string(),
            "would copy /data/docs/sub/deep/c.txt to /mnt/nas/backup/sub/deep/c.txt".to_string(),
        ]
    );
    let shown: Vec<String> = dry.notices.iter().map(|n| n.replacen("would copy", "copying", 1)).collect();
    assert_eq!(shown, wet.notices);
    let copied: Vec<String> =
        wet.copies.iter().map(|(a, b)| format!("copying {} to {}", a.display(), b.display())).collect();
    assert_eq!(copied, wet.notices);
}

#[test]
fn dry_run_goes_into_directories_that_it_did_not_create() {
    let mut w = world();
    sample_tree(&mut w);
    install(&mut w, nightly());
    drive(&mut w, run_backup(&home(), "nightly", "nas", true));
    assert!(w.requests.contains(&"list /data/docs/sub/deep".to_string()));
    assert!(w.requests.contains(&"probe /mnt/nas/backup/sub/deep/c.txt".to_string()));
}

#[test]
fn file_in_place_is_never_written_over() {
    let mut w = world();
    sample_tree(&mut w);
    dir(&mut w, "/mnt/nas/backup");
    file(&mut w, "/mnt/nas/backup/a.txt", "something else entirely");
    install(&mut w, nightly());
    assert!(matches!(drive(&mut w, run_backup(&home(), "nightly", "nas", false)), Outcome::Completed));
    assert_eq!(
        w.nodes.get(Path::new("/mnt/nas/backup/a.txt")),
        Some(&Node::File(b"something else entirely".to_vec()))
    );
    assert!(!w.copies.iter().any(|(_, to)| to == Path::new("/mnt/nas/backup/a.txt")));
    assert_eq!(w.copies.len(), 2);
    assert!(matches!(drive(&mut w, run_backup(&home(), "nightly", "nas", false)), Outcome::Completed));
    assert_eq!(
        w.nodes.get(Path::new("/mnt/nas/backup/a.txt")),
        Some(&Node::File(b"something else entirely".to_vec()))
    );
}

#[test]
fn file_whose_place_holds_a_directory_is_passed_over() {
    let mut w = world();
    sample_tree(&mut w);
    dir(&mut w, "/mnt/nas/backup");
    dir(&mut w, "/mnt/nas/backup/a.txt");
    install(&mut w, nightly());
    assert!(matches!(drive(&mut w, run_backup(&home(), "nightly", "nas", false)), Outcome::Completed));
    assert_eq!(w.nodes.get(Path::new("/mnt/nas/backup/a.txt")), Some(&Node::Dir));
    assert_eq!(w.copies.len(), 2);
}

#[test]
fn destination_root_that_is_a_file_stops_the_run() {
    let mut w = world();
    sample_tree(&mut w);
    file(&mut w, "/mnt/nas/backup", "not a directory");
    install(&mut w, nightly());
    match drive(&mut w, run_backup(&home(), "nightly", "nas", false)) {
        Outcome::Failed(BackupError::NotADirectory { path, path_type }) => {
            assert_eq!(path, PathBuf::from("/mnt/nas/backup"));
            assert_eq!(path_type, PathType::Dest);
        }
        _ => panic!("the destination is a file"),
    }
    assert!(w.copies.is_empty());
    assert!(w.written.is_empty());
}

#[test]
fn destination_root_is_created_one_level_deep_only() {
    let mut w = world();
    dir(&mut w, "/data");
    dir(&mut w, "/data/docs");
    install(&mut w, nightly());
    match drive(&mut w, run_backup(&home(), "nightly", "nas", false)) {
        Outcome::Failed(BackupError::IO(_)) => {}
        _ => panic!("the parent of the destination is missing"),
    }
    assert!(w.created.is_empty());
    assert_eq!(w.requests.last(), Some(&"mkdir /mnt/nas/backup".to_string()));
}

#[test]
fn missing_source_stops_the_run() {
    let mut w = world();
    dir(&mut w, "/mnt");
    dir(&mut w, "/mnt/nas");
    install(&mut w, nightly());
    match drive(&mut w, run_backup(&home(), "nightly", "nas", false)) {
        Outcome::Failed(BackupError::DirectoryNotFound { path, path_type }) => {
            assert_eq!(path, PathBuf::from("/data/docs"));
            assert_eq!(path_type, PathType::Source);
        }
        _ => panic!("the source is missing"),
    }
    assert!(w.written.is_empty());
    assert!(installed(&w).backups[0].last_run.is_none());
}

#[test]
fn source_that_is_a_file_stops_the_run() {
    let mut w = world();
    dir(&mut w, "/data");
    file(&mut w, "/data/docs", "flat");
    dir(&mut w, "/mnt");
    dir(&mut w, "/mnt/nas");
    install(&mut w, nightly());
    match drive(&mut w, run_backup(&home(), "nightly", "nas", true)) {
        Outcome::Failed(BackupError::NotADirectory { path, path_type }) => {
            assert_eq!(path, PathBuf::from("/data/docs"));
            assert_eq!(path_type, PathType::Source);
        }
        _ => panic!("the source is a file"),
    }
}

#[test]
fn run_stops_at_the_first_source_that_fails() {
    let mut w = world();
    sample_tree(&mut w);
    let mut config = nightly();
    config.backups[0].source_paths.push(PathBuf::from("/data/gone"));
    config.backups[0].source_paths.push(PathBuf::from("/data/docs/sub"));
    install(&mut w, config);
    match drive(&mut w, run_backup(&home(), "nightly", "nas", false)) {
        Outcome::Failed(BackupError::DirectoryNotFound { path, .. }) => {
            assert_eq!(path, PathBuf::from("/data/gone"))
        }
        _ => panic!("the second source is missing"),
    }
    assert_eq!(w.copies.len(), 3);
    assert!(w.nodes.contains_key(Path::new("/mnt/nas/backup/a.txt")));
    assert!(!w.nodes.contains_key(Path::new("/mnt/nas/backup/b.txt")));
    assert!(w.written.is_empty());
    assert_eq!(w.clock_reads, 0);
    assert!(installed(&w).backups[0].last_run.is_none());
}

#[test]
fn sources_are_mirrored_in_their_order() {
    let mut w = world();
    dir(&mut w, "/one");
    file(&mut w, "/one/x", "from one");
    file(&mut w, "/one/only1", "1");
    dir(&mut w, "/two");
    file(&mut w, "/two/x", "from two");
    file(&mut w, "/two/only2", "2");
    dir(&mut w, "/dst");
    let mut config = Config::default();
    config.add_backup(Backup {
        name: "both".to_string(),
        source_paths: vec![PathBuf::from("/one"), PathBuf::from("/two")],
        destinations: vec![Destination { device_name: "d".to_string(), path: PathBuf::from("/dst") }],
        last_run: None,
    });
    install(&mut w, config);
    assert!(matches!(drive(&mut w, run_backup(&home(), "both", "d", false)), Outcome::Completed));
    assert_eq!(w.nodes.get(Path::new("/dst/x")), Some(&Node::File(b"from one".to_vec())));
    assert_eq!(w.nodes.get(Path::new("/dst/only1")), Some(&Node::File(b"1".to_vec())));
    assert_eq!(w.nodes.get(Path::new("/dst/only2")), Some(&Node::File(b"2".to_vec())));
    assert_eq!(w.copies.len(), 3);
}

#[test]
fn backup_without_sources_only_records_its_time() {
    let mut w = world();
    dir(&mut w, "/dst");
    let mut config = Config::default();
    config.add_backup(Backup {
        name: "idle".to_string(),
        source_paths: Vec::new(),
        destinations: vec![Destination { device_name: "d".to_string(), path: PathBuf::from("/dst") }],
        last_run: None,
    });
    install(&mut w, config);
    assert!(matches!(drive(&mut w, run_backup(&home(), "idle", "d", false)), Outcome::Completed));
    assert!(w.copies.is_empty());
    assert_eq!(installed(&w).backups[0].last_run.map(|t| t.secs()), Some(1_700_000_000));
}

#[test]
fn directory_whose_place_holds_a_file_stops_the_run() {
    let mut w = world();
    sample_tree(&mut w);
    dir(&mut w, "/mnt/nas/backup");
    file(&mut w, "/mnt/nas/backup/sub", "in the way");
    install(&mut w, nightly());
    match drive(&mut w, run_backup(&home(), "nightly", "nas", false)) {
        Outcome::Failed(BackupError::NotADirectory { path, path_type }) => {
            assert_eq!(path, PathBuf::from("/mnt/nas/backup/sub"));
            assert_eq!(path_type, PathType::Dest);
        }
        _ => panic!("a file is in the way"),
    }
    assert!(w.nodes.contains_key(Path::new("/mnt/nas/backup/a.txt")));
    assert!(w.written.is_empty());
}

#[test]
fn refused_copy_stops_the_run_and_keeps_what_was_copied() {
    let mut w = world();
    sample_tree(&mut w);
    install(&mut w, nightly());
    w.refuse_copy_to = Some(PathBuf::from("/mnt/nas/backup/sub/b.txt"));
    match drive(&mut w, run_backup(&home(), "nightly", "nas", false)) {
        Outcome::Failed(BackupError::IO(e)) => assert_eq!(e.to_string(), "cannot copy"),
        _ => panic!("the copy is refused"),
    }
    assert!(w.nodes.contains_key(Path::new("/mnt/nas/backup/a.txt")));
    assert!(!w.nodes.contains_key(Path::new("/mnt/nas/backup/sub/b.txt")));
    assert!(w.written.is_empty());
    assert!(installed(&w).backups[0].last_run.is_none());
}

#[test]
fn refused_listing_stops_the_run() {
    let mut w = world();
    sample_tree(&mut w);
    install(&mut w, nightly());
    w.refuse_list_of = Some(PathBuf::from("/data/docs/sub"));
    match drive(&mut w, run_backup(&home(), "nightly", "nas", false)) {
        Outcome::Failed(BackupError::IO(e)) => assert_eq!(e.to_string(), "cannot list"),
        _ => panic!("the listing is refused"),
    }
    assert!(w.nodes.contains_key(Path::new("/mnt/nas/backup/a.txt")));
    assert!(w.nodes.contains_key(Path::new("/mnt/nas/backup/sub")));
    assert!(w.written.is_empty());
}

#[test]
fn entry_that_cannot_be_read_stops_the_run_after_those_before_it() {
    let mut w = world();
    sample_tree(&mut w);
    install(&mut w, nightly());
    w.cut_list_of = Some((PathBuf::from("/data/docs"), 1));
    match drive(&mut w, run_backup(&home(), "nightly", "nas", false)) {
        Outcome::Failed(BackupError::IO(e)) => assert_eq!(e.to_string(), "entry unreadable"),
        _ => panic!("an entry cannot be read"),
    }
    assert_eq!(w.copies, vec![(PathBuf::from("/data/docs/a.txt"), PathBuf::from("/mnt/nas/backup/a.txt"))]);
    assert!(w.written.is_empty());
}

#[test]
fn refused_save_fails_the_run() {
    let mut w = world();
    sample_tree(&mut w);
    install(&mut w, nightly());
    w.refuse_write = true;
    match drive(&mut w, run_backup(&home(), "nightly", "nas", false)) {
        Outcome::Failed(BackupError::IO(e)) => assert_eq!(e.to_string(), "cannot write"),
        _ => panic!("the write is refused"),
    }
    assert_eq!(w.copies.len(), 3);
    assert!(installed(&w).backups[0].last_run.is_none());
}

#[test]
fn configuration_without_encoding_fails_the_run() {
    let mut w = world();
    sample_tree(&mut w);
    install(&mut w, nightly());
    w.refuse_encode = true;
    assert!(matches!(
        drive(&mut w, run_backup(&home(), "nightly", "nas", false)),
        Outcome::Failed(BackupError::SerToml(_))
    ));
    assert!(w.written.is_empty());
}

#[test]
fn mirror_of_one_directory() {
    let mut w = world();
    sample_tree(&mut w);
    dir(&mut w, "/mnt/nas/copy");
    let outcome =
        drive(&mut w, copy_files(&PathBuf::from("/data/docs/sub"), &PathBuf::from("/mnt/nas/copy"), false));
    assert!(matches!(outcome, Outcome::Completed));
    assert_eq!(w.requests[0], "list /data/docs/sub");
    assert_eq!(w.nodes.get(Path::new("/mnt/nas/copy/b.txt")), Some(&Node::File(b"beta".to_vec())));
    assert_eq!(w.nodes.get(Path::new("/mnt/nas/copy/deep/c.txt")), Some(&Node::File(b"gamma".to_vec())));
    assert_eq!(w.clock_reads, 0);
    assert!(w.written.is_empty());
    let before = w.nodes.clone();
    w.copies.clear();
    let again =
        drive(&mut w, copy_files(&PathBuf::from("/data/docs/sub"), &PathBuf::from("/mnt/nas/copy"), false));
    assert!(matches!(again, Outcome::Completed));
    assert!(w.copies.is_empty());
    assert_eq!(w.nodes, before);
}

#[test]
fn dry_mirror_of_one_directory() {
    let mut w = world();
    sample_tree(&mut w);
    let before = w.nodes.clone();
    let outcome =
        drive(&mut w, copy_files(&PathBuf::from("/data/docs/sub"), &PathBuf::from("/mnt/nas/copy"), true));
    assert!(matches!(outcome, Outcome::Completed));
    assert_eq!(w.nodes, before);
    assert_eq!(
        w.notices,
        vec![
            "would copy /data/docs/sub/b.txt to /mnt/nas/copy/b.txt".to_string(),
            "would copy /data/docs/sub/deep/c.txt to /mnt/nas/copy/deep/c.txt".to_string(),
        ]
    );
}

#[test]
fn mirror_of_an_empty_directory_is_over_at_once() {
    let mut w = world();
    sample_tree(&mut w);
    let outcome =
        drive(&mut w, copy_files(&PathBuf::from("/data/docs/empty"), &PathBuf::from("/mnt/nas"), false));
    assert!(matches!(outcome, Outcome::Completed));
    assert_eq!(w.requests, vec!["list /data/docs/empty".to_string()]);
}

#[test]
fn load_without_a_file_gives_the_empty_configuration() {
    let mut w = world();
    match drive(&mut w, load_config(&home())) {
        Outcome::Loaded(Document::Config(config)) => assert!(config.backups.is_empty()),
        _ => panic!("an empty configuration is expected"),
    }
    assert_eq!(w.requests, vec!["probe /home/.smartsync.toml".to_string()]);
    assert!(w.written.is_empty());
}

#[test]
fn load_reads_and_decodes_the_file() {
    let mut w = world();
    install(&mut w, nightly());
    match drive(&mut w, load_config(&home())) {
        Outcome::Loaded(Document::Config(config)) => {
            assert_eq!(config.backups.len(), 1);
            assert_eq!(config.backups[0].name, "nightly");
            assert_eq!(config.backups[0].destinations[0].device_name, "nas");
            assert_eq!(config.backups[0].destinations[0].path, PathBuf::from("/mnt/nas/backup"));
        }
        _ => panic!("the configuration is on disk"),
    }
    assert_eq!(
        w.requests,
        vec!["probe /home/.smartsync.toml".to_string(), "read /home/.smartsync.toml".to_string(), "decode".to_string()]
    );
}

#[test]
fn load_fails_on_a_file_that_does_not_decode() {
    let mut w = world();
    file(&mut w, "/home/.smartsync.toml", "this is no configuration");
    assert!(matches!(drive(&mut w, load_config(&home())), Outcome::Failed(BackupError::DeToml(_))));
}

#[test]
fn load_fails_on_a_file_that_cannot_be_read() {
    let mut w = world();
    dir(&mut w, "/home/.smartsync.toml");
    match drive(&mut w, load_config(&home())) {
        Outcome::Failed(BackupError::IO(e)) => assert_eq!(e.to_string(), "cannot read"),
        _ => panic!("a directory cannot be read as text"),
    }
}

#[test]
fn save_encodes_and_writes() {
    let mut w = world();
    assert!(matches!(drive(&mut w, save_config(nightly(), &home())), Outcome::Completed));
    assert_eq!(w.requests, vec!["encode".to_string(), "write /home/.smartsync.toml".to_string()]);
    assert_eq!(installed(&w).backups[0].name, "nightly");
}

#[test]
fn save_fails_where_the_write_is_refused() {
    let mut w = world();
    w.refuse_write = true;
    assert!(matches!(drive(&mut w, save_config(nightly(), &home())), Outcome::Failed(BackupError::IO(_))));
    w.refuse_write = false;
    w.refuse_encode = true;
    assert!(matches!(
        drive(&mut w, save_config(nightly(), &home())),
        Outcome::Failed(BackupError::SerToml(_))
    ));
    assert!(w.written.is_empty());
}

#[test]
fn save_twice_writes_the_same_bytes() {
    let mut w = world();
    install(&mut w, nightly());
    let loaded = match drive(&mut w, load_config(&home())) {
        Outcome::Loaded(Document::Config(config)) => config,
        _ => panic!("the configuration is on disk"),
    };
    assert!(matches!(drive(&mut w, save_config(loaded, &home())), Outcome::Completed));
    let once = w.nodes.get(Path::new("/home/.smartsync.toml")).cloned();
    let loaded = match drive(&mut w, load_config(&home())) {
        Outcome::Loaded(Document::Config(config)) => config,
        _ => panic!("the configuration is on disk"),
    };
    assert!(matches!(drive(&mut w, save_config(loaded, &home())), Outcome::Completed));
    assert_eq!(w.nodes.get(Path::new("/home/.smartsync.toml")).cloned(), once);
}

#[test]
fn initialize_creates_the_file_and_shows_it() {
    let mut w = world();
    assert!(matches!(drive(&mut w, initialize_config(&home())), Outcome::Completed));
    assert_eq!(w.written, vec![PathBuf::from("/home/.smartsync.toml")]);
    assert!(installed(&w).backups.is_empty());
    assert_eq!(
        w.notices,
        vec![
            format!("config initialized at {:?}", PathBuf::from("/home/.smartsync.toml")),
            "config\n".to_string(),
        ]
    );
    assert_eq!(
        w.requests,
        vec![
            "probe /home/.smartsync.toml".to_string(),
            "encode".to_string(),
            "write /home/.smartsync.toml".to_string(),
            "encode".to_string(),
            "notice".to_string(),
            "notice".to_string(),
        ]
    );
}

#[test]
fn initialize_keeps_what_is_there() {
    let mut w = world();
    install(&mut w, nightly());
    let before = w.nodes.get(Path::new("/home/.smartsync.toml")).cloned();
    assert!(matches!(drive(&mut w, initialize_config(&home())), Outcome::Completed));
    assert_eq!(w.nodes.get(Path::new("/home/.smartsync.toml")).cloned(), before);
    assert_eq!(w.notices[1], encode(&Document::Config(nightly())));
}

#[test]
fn registry_has_a_file_of_its_own() {
    let mut w = world();
    let mut registry = Registry::default();
    registry.add_backup(PathBuf::from("/media/usb"));
    assert!(matches!(drive(&mut w, save_registry(registry, &home())), Outcome::Completed));
    assert_eq!(w.written, vec![PathBuf::from("/home/.smartsync-registry.toml")]);
    match drive(&mut w, load_registry(&home())) {
        Outcome::Loaded(Document::Registry(registry)) => {
            assert_eq!(registry.backups, vec![PathBuf::from("/media/usb")])
        }
        _ => panic!("the registry is on disk"),
    }
    match drive(&mut w, load_config(&home())) {
        Outcome::Loaded(Document::Config(config)) => assert!(config.backups.is_empty()),
        _ => panic!("no configuration was saved"),
    }
}

#[test]
fn registry_loads_empty_and_initializes() {
    let mut w = world();
    match drive(&mut w, load_registry(&home())) {
        Outcome::Loaded(Document::Registry(registry)) => assert!(registry.backups.is_empty()),
        _ => panic!("an empty registry is expected"),
    }
    assert!(matches!(drive(&mut w, initialize_registry(&home())), Outcome::Completed));
    assert_eq!(
        w.notices,
        vec![
            format!("registry initialized at {:?}", PathBuf::from("/home/.smartsync-registry.toml")),
            "registry\n".to_string(),
        ]
    );
}

#[test]
fn task_accepts_only_the_answer_to_its_request() {
    let (task, request) = load_config(&home());
    assert!(matches!(request, Request::Probe(ref p) if p == Path::new("/home/.smartsync.toml")));
    assert!(!task.is_finished());
    assert!(task.document().is_none());
    assert!(task.accepts(&Event::Kind(PathKind::Missing)));
    assert!(task.accepts(&Event::Kind(PathKind::File)));
    assert!(!task.accepts(&Event::Done));
    assert!(!task.accepts(&Event::Text("x".to_string())));
    assert!(!task.accepts(&Event::Time(Timestamp::new(0, 0).expect("a valid instant"))));
    let (task, request) = task.step(Event::Kind(PathKind::File));
    assert!(matches!(request, Request::ReadText(ref p) if p == Path::new("/home/.smartsync.toml")));
    assert!(task.accepts(&Event::Text(String::new())));
    assert!(task.accepts(&Event::Failed(refusal("x"))));
    assert!(!task.accepts(&Event::Kind(PathKind::File)));
    let (task, request) = task.step(Event::Text("config\n".to_string()));
    assert!(matches!(request, Request::Decode(Store::Config, ref t) if t == "config\n"));
    assert!(task.accepts(&Event::Decoded(Document::Config(Config::default()))));
    assert!(!task.accepts(&Event::Decoded(Document::Registry(Registry::default()))));
    let (task, request) = task.step(Event::Decoded(Document::Config(nightly())));
    assert!(matches!(request, Request::Finish(Outcome::Loaded(Document::Config(_)))));
    assert!(task.is_finished());
    assert!(!task.accepts(&Event::Done));
    assert!(!task.accepts(&Event::Kind(PathKind::Missing)));
}

#[test]
fn task_hands_back_what_it_cannot_take() {
    let (task, _) = save_config(nightly(), &home());
    let (task, event) = match task.try_step(Event::Kind(PathKind::File)) {
        Err(back) => back,
        Ok(_) => panic!("a save waits for the encoding"),
    };
    assert!(matches!(event, Event::Kind(PathKind::File)));
    assert!(!task.is_finished());
    assert!(matches!(task.document(), Some(Document::Config(c)) if c.backups[0].name == "nightly"));
    let (task, request) = match task.try_step(Event::Encoded("text".to_string())) {
        Ok(next) => next,
        Err(_) => panic!("the encoding answers the request"),
    };
    assert!(matches!(request, Request::WriteText(ref p, ref t)
        if p == Path::new("/home/.smartsync.toml") && t == "text"));
    let (task, request) = match task.try_step(Event::Done) {
        Ok(next) => next,
        Err(_) => panic!("the write is done"),
    };
    assert!(matches!(request, Request::Finish(Outcome::Completed)));
    assert!(task.try_step(Event::Done).is_err());
}

#[test]
fn documents_know_their_store() {
    assert_eq!(Document::Config(Config::default()).store(), Store::Config);
    assert_eq!(Document::Registry(Registry::default()).store(), Store::Registry);
    assert!(matches!(Document::empty(Store::Config), Document::Config(c) if c.backups.is_empty()));
    assert!(matches!(Document::empty(Store::Registry), Document::Registry(r) if r.backups.is_empty()));
}

#[test]
fn defaults_are_empty() {
    let d = Destination::default();
    assert_eq!(d.device_name, "");
    assert_eq!(d.path, PathBuf::new());
    let b = Backup::default();
    assert_eq!(b.name, "");
    assert!(b.source_paths.is_empty());
    assert!(b.destinations.is_empty());
    assert!(b.last_run.is_none());
    assert!(Config::default().backups.is_empty());
}
