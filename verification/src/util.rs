use std::path::PathBuf;
use vstd::prelude::*;
use vstd::utf8::decode_utf8;
use vstd::utf8::encode_utf8;
use vstd::utf8::valid_utf8;

verus! {

/// `std::path::PathBuf`, taken as it is: nothing is known of a path but
/// what the items below state.
#[verifier::external_type_specification]
#[verifier::external_body]
pub struct ExPathBuf(PathBuf);

/// The platform encoding of a path: the bytes that
/// `as_os_str().as_encoded_bytes()` yields for it. Contracts speak of a path
/// through these bytes.
pub uninterp spec fn path_units(p: PathBuf) -> Seq<u8>;

/// What `Debug` prints for a path whose platform encoding is `units`.
pub uninterp spec fn debug_text(units: Seq<u8>) -> Seq<char>;

/// The platform encoding of what `Path::join` makes, on the platform that
/// the library is built for, of a path encoded as `dir` and one encoded as
/// `tail`.
pub uninterp spec fn joined_units(dir: Seq<u8>, tail: Seq<u8>) -> Seq<u8>;

/// The printable form of a path encoded as `units`: its text where the
/// encoding is valid UTF-8, and the escaped `Debug` form otherwise.
pub open spec fn text_of(units: Seq<u8>) -> Seq<char> {
    if valid_utf8(units) {
        decode_utf8(units)
    } else {
        debug_text(units)
    }
}

/// The printable form of `p`.
pub open spec fn path_text(p: PathBuf) -> Seq<char> {
    text_of(path_units(p))
}

/// The encoding of each path of `paths`, in order.
pub open spec fn units_of(paths: Seq<PathBuf>) -> Seq<Seq<u8>> {
    Seq::new(paths.len(), |i: int| path_units(paths[i]))
}

/// `PathBuf::clone`: the copy is the same path.
pub assume_specification[ <PathBuf as Clone>::clone ](p: &PathBuf) -> (r: PathBuf)
    ensures
        r == *p,
;

/// `PathBuf::new`: the empty path.
pub assume_specification[ PathBuf::new ]() -> (r: PathBuf)
    ensures
        path_units(r) == Seq::<u8>::empty(),
;

/// `Path::to_str`: the path as text exactly when its encoding is valid
/// UTF-8, and then the text that the encoding decodes to.
#[verifier::external_body]
fn path_as_text(p: &PathBuf) -> (r: Option<String>)
    ensures
        r is Some <==> valid_utf8(path_units(*p)),
        r is Some ==> r->0@ == decode_utf8(path_units(*p)),
{
    match p.to_str() {
        Some(s) => Some(s.to_string()),
        None => None,
    }
}

/// `Debug` formatting of a path: the escaped form that `debug_text` names.
#[verifier::external_body]
pub(crate) fn path_debug(p: &PathBuf) -> (r: String)
    ensures
        r@ == debug_text(path_units(*p)),
{
    format!("{:?}", p)
}

/// `Path::join`: `tail` adjoined to `dir`, as `joined_units` names it.
#[verifier::external_body]
pub(crate) fn join_path(dir: &PathBuf, tail: &PathBuf) -> (r: PathBuf)
    ensures
        path_units(r) == joined_units(path_units(*dir), path_units(*tail)),
{
    dir.join(tail)
}

/// `PathBuf::from` on a string slice: the path whose encoding is the
/// UTF-8 encoding of `text`.
#[verifier::external_body]
pub(crate) fn path_of(text: &str) -> (r: PathBuf)
    ensures
        path_units(r) == encode_utf8(text@),
{
    PathBuf::from(text)
}

/// A path as printable text, also where it is not valid text.
pub fn pathbuf_to_str(p: &PathBuf) -> (r: String)
    ensures
        r@ == path_text(*p),
{
    match path_as_text(p) {
        Some(s) => s,
        None => path_debug(p),
    }
}

} // verus!
