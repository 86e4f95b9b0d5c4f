use crate::util::path_units;
use crate::util::pathbuf_to_str;
use crate::util::text_of;
use std::path::PathBuf;
use vstd::prelude::*;
use vstd::string::StringExecFns;

verus! {

/// `std::io::Error`, carried through as it came.
#[verifier::external_type_specification]
#[verifier::external_body]
pub struct ExIoError(std::io::Error);

/// `toml::de::Error`, carried through as it came.
#[verifier::external_type_specification]
#[verifier::external_body]
pub struct ExDeError(toml::de::Error);

/// `toml::ser::Error`, carried through as it came.
#[verifier::external_type_specification]
#[verifier::external_body]
pub struct ExSerError(toml::ser::Error);

/// Which side of a backup a path belongs to.
#[derive(Clone, Copy, Debug, PartialEq, Eq, Structural)]
pub enum PathType {
    Source,
    Dest,
}

impl PathType {
    /// The word that stands for this side in messages.
    pub open spec fn label(self) -> Seq<char> {
        match self {
            PathType::Source => "source"@,
            PathType::Dest => "dest"@,
        }
    }

    /// The side as a word: `source` or `dest`.
    pub fn render(&self) -> (r: String)
        ensures
            r@ == self.label(),
    {
        match self {
            PathType::Source => String::from_str("source"),
            PathType::Dest => String::from_str("dest"),
        }
    }
}

/// Why a backup operation stopped.
pub enum BackupError {
    /// A path that has to be a directory is something else.
    NotADirectory { path: PathBuf, path_type: PathType },
    /// A directory that has to exist does not.
    DirectoryNotFound { path: PathBuf, path_type: PathType },
    /// The configuration holds no backup of this name.
    BackupNotFound { backup_name: String },
    /// The backup has no destination on this device.
    DeviceNotFound { device_name: String, backup_name: String },
    /// The filesystem refused an operation.
    IO(std::io::Error),
    /// A document could not be decoded.
    DeToml(toml::de::Error),
    /// A document could not be encoded.
    SerToml(toml::ser::Error),
}

/// An error as a value: names as text, paths by their encoding, and a
/// wrapped failure as it came.
pub enum ErrorView {
    NotADirectory { path: Seq<u8>, path_type: PathType },
    DirectoryNotFound { path: Seq<u8>, path_type: PathType },
    BackupNotFound { backup_name: Seq<char> },
    DeviceNotFound { device_name: Seq<char>, backup_name: Seq<char> },
    IO(std::io::Error),
    DeToml(toml::de::Error),
    SerToml(toml::ser::Error),
}

impl View for BackupError {
    type V = ErrorView;

    open spec fn view(&self) -> ErrorView {
        match self {
            BackupError::NotADirectory { path, path_type } => ErrorView::NotADirectory {
                path: path_units(*path),
                path_type: *path_type,
            },
            BackupError::DirectoryNotFound { path, path_type } => ErrorView::DirectoryNotFound {
                path: path_units(*path),
                path_type: *path_type,
            },
            BackupError::BackupNotFound { backup_name } => ErrorView::BackupNotFound {
                backup_name: backup_name@,
            },
            BackupError::DeviceNotFound { device_name, backup_name } => ErrorView::DeviceNotFound {
                device_name: device_name@,
                backup_name: backup_name@,
            },
            BackupError::IO(e) => ErrorView::IO(*e),
            BackupError::DeToml(e) => ErrorView::DeToml(*e),
            BackupError::SerToml(e) => ErrorView::SerToml(*e),
        }
    }
}

impl ErrorView {
    /// The diagnostic line of an error that this library raises itself;
    /// `None` for one that wraps a failure from outside.
    pub open spec fn message(self) -> Option<Seq<char>> {
        match self {
            ErrorView::NotADirectory { path, path_type } => Some(
                path_type.label() + " "@ + text_of(path) + " is not a directory"@,
            ),
            ErrorView::DirectoryNotFound { path, path_type } => Some(
                path_type.label() + " "@ + text_of(path) + " not found"@,
            ),
            ErrorView::BackupNotFound { backup_name } => Some(
                "backup '"@ + backup_name + "' not found"@,
            ),
            ErrorView::DeviceNotFound { device_name, backup_name } => Some(
                "device '"@ + device_name + "' not found in backup '"@ + backup_name + "'"@,
            ),
            _ => None,
        }
    }
}

/// `Debug` formatting of an I/O error. Nothing is claimed of the text.
#[verifier::external_body]
fn io_error_debug(e: &std::io::Error) -> String {
    format!("{:?}", e)
}

/// `Debug` formatting of a decoding error. Nothing is claimed of the text.
#[verifier::external_body]
fn de_error_debug(e: &toml::de::Error) -> String {
    format!("{:?}", e)
}

/// `Debug` formatting of an encoding error. Nothing is claimed of the text.
#[verifier::external_body]
fn ser_error_debug(e: &toml::ser::Error) -> String {
    format!("{:?}", e)
}

impl BackupError {
    /// The error as a single diagnostic line. For a wrapped failure the line
    /// is what the failure prints of itself.
    pub fn render(&self) -> (r: String)
        ensures
            self@.message() is Some ==> r@ == self@.message()->0,
    {
        match self {
            BackupError::NotADirectory { path, path_type } => {
                let text = pathbuf_to_str(path);
                path_type.render().concat(" ").concat(text.as_str()).concat(" is not a directory")
            },
            BackupError::DirectoryNotFound { path, path_type } => {
                let text = pathbuf_to_str(path);
                path_type.render().concat(" ").concat(text.as_str()).concat(" not found")
            },
            BackupError::BackupNotFound { backup_name } => {
                String::from_str("backup '").concat(backup_name.as_str()).concat("' not found")
            },
            BackupError::DeviceNotFound { device_name, backup_name } => {
                String::from_str("device '").concat(device_name.as_str()).concat(
                    "' not found in backup '",
                ).concat(backup_name.as_str()).concat("'")
            },
            BackupError::IO(e) => io_error_debug(e),
            BackupError::DeToml(e) => de_error_debug(e),
            BackupError::SerToml(e) => ser_error_debug(e),
        }
    }
}

impl From<std::io::Error> for Box<BackupError> {
    fn from(value: std::io::Error) -> (r: Box<BackupError>) {
        Box::new(BackupError::IO(value))
    }
}

impl vstd::std_specs::convert::FromSpecImpl<std::io::Error> for Box<BackupError> {
    open spec fn obeys_from_spec() -> bool {
        true
    }

    open spec fn from_spec(value: std::io::Error) -> Box<BackupError> {
        Box::new(BackupError::IO(value))
    }
}

impl From<toml::de::Error> for Box<BackupError> {
    fn from(value: toml::de::Error) -> (r: Box<BackupError>) {
        Box::new(BackupError::DeToml(value))
    }
}

impl vstd::std_specs::convert::FromSpecImpl<toml::de::Error> for Box<BackupError> {
    open spec fn obeys_from_spec() -> bool {
        true
    }

    open spec fn from_spec(value: toml::de::Error) -> Box<BackupError> {
        Box::new(BackupError::DeToml(value))
    }
}

impl From<toml::ser::Error> for Box<BackupError> {
    fn from(value: toml::ser::Error) -> (r: Box<BackupError>) {
        Box::new(BackupError::SerToml(value))
    }
}

impl vstd::std_specs::convert::FromSpecImpl<toml::ser::Error> for Box<BackupError> {
    open spec fn obeys_from_spec() -> bool {
        true
    }

    open spec fn from_spec(value: toml::ser::Error) -> Box<BackupError> {
        Box::new(BackupError::SerToml(value))
    }
}

} // verus!
