//! The calls this library makes into the platform and into other crates.
//! Every function here is trusted: its contract is stated, not proved.

use vstd::prelude::*;
use rand::Rng;

verus! {

/// An owned filesystem path, carried through as an opaque value.
#[verifier::external_type_specification]
#[verifier::external_body]
pub struct ExPathBuf(std::path::PathBuf);

/// The text a path holds: what `Path::to_string_lossy` reads from it.
pub uninterp spec fn path_text(path: std::path::PathBuf) -> Seq<char>;

/// Whether `name` is one ordinary path component on every platform: not
/// empty, without a separator or a drive colon, and neither `.` nor `..`.
pub open spec fn is_file_name(name: Seq<char>) -> bool {
    &&& name.len() > 0
    &&& forall|i: int| 0 <= i < name.len() ==> name[i] != '/' && name[i] != '\\' && name[i] != ':'
    &&& name != seq!['.']
    &&& name != seq!['.', '.']
}

/// Whether a path's text begins like a path that `PathBuf::push` extends
/// as it stands: it is not empty and does not begin with a backslash, as
/// the verbatim paths of Windows do, which a push normalises.
pub open spec fn starts_plainly(text: Seq<char>) -> bool {
    text.len() > 0 && text[0] != '\\'
}

/// Whether `extended` is `base` with the component `name` after it: it
/// begins with `base`, ends with `name`, and the two do not overlap.
pub open spec fn extends_with(base: Seq<char>, name: Seq<char>, extended: Seq<char>) -> bool {
    &&& base.is_prefix_of(extended)
    &&& name.is_suffix_of(extended)
    &&& base.len() + name.len() <= extended.len()
}

/// The text `String::from_utf8_lossy` decodes from a byte sequence.
pub uninterp spec fn utf8_lossy_text(bytes: Seq<u8>) -> Seq<char>;

/// Calls `dirs::data_local_dir`, the user's local data directory. The
/// answer depends on the environment and the operating system, so nothing
/// is claimed of it.
#[verifier::external_body]
pub(crate) fn data_local_dir() -> (dir: Option<std::path::PathBuf>) {
    dirs::data_local_dir()
}

/// Calls `dirs::config_dir`, the user's configuration directory. The answer
/// depends on the environment and the operating system, so nothing is
/// claimed of it.
#[verifier::external_body]
pub(crate) fn config_dir() -> (dir: Option<std::path::PathBuf>) {
    dirs::config_dir()
}

/// Calls `platform_dirs::AppDirs::new` for the application `name`, with
/// `use_xdg_on_macos` handed on as it is, and hands out the configuration
/// directory it resolved. Whether there is one depends on the environment.
/// Where there is, `name` was pushed onto it last, so for an ordinary
/// component the directory's text ends with it; nothing else is claimed.
#[verifier::external_body]
pub(crate) fn app_config_dir(name: &str, use_xdg_on_macos: bool) -> (dir: Option<
    std::path::PathBuf,
>)
    ensures
        dir is Some && is_file_name(name@) ==> name@.is_suffix_of(path_text(dir->Some_0)),
{
    platform_dirs::AppDirs::new(Some(name), use_xdg_on_macos).map(|dirs| dirs.config_dir)
}

/// Calls `PathBuf::push`, which extends the path with `component`. How the
/// two are joined is the platform's matter. Claimed of an ordinary
/// component: the text of the extended path ends with it; and where the
/// path began plainly, the extended path's text begins with the text
/// before the push and the component stands after it.
#[verifier::external_body]
pub(crate) fn path_push(path: &mut std::path::PathBuf, component: &str)
    ensures
        is_file_name(component@) ==> component@.is_suffix_of(path_text(*final(path))),
        is_file_name(component@) && starts_plainly(path_text(*old(path))) ==> extends_with(
            path_text(*old(path)),
            component@,
            path_text(*final(path)),
        ),
{
    path.push(component)
}

/// Calls `Path::to_str`, which yields the path as text only where it is
/// valid Unicode. Whether it is depends on the path; where it is, the text
/// is the path's text, with nothing replaced.
#[verifier::external_body]
pub(crate) fn path_to_str(path: &std::path::PathBuf) -> (s: Option<String>)
    ensures
        s is Some ==> s->Some_0@ == path_text(*path),
{
    path.to_str().map(|s| s.to_owned())
}

/// Calls `Path::to_string_lossy`, which yields the path as text and puts a
/// replacement character where it is not valid Unicode: the path's text.
#[verifier::external_body]
pub(crate) fn path_to_string_lossy(path: &std::path::PathBuf) -> (s: String)
    ensures
        s@ == path_text(*path),
{
    path.to_string_lossy().into_owned()
}

/// Draws a `u128` from `rand::thread_rng()` with `Rng::gen`. Any value may
/// come back, so nothing is claimed of it. The generator seeds itself from
/// the operating system on first use in a thread, and panics there if the
/// system gives it no seed.
#[verifier::external_body]
pub(crate) fn random_u128() -> (n: u128) {
    rand::thread_rng().gen::<u128>()
}

/// Calls `String::from_utf8_lossy`: the bytes decoded as UTF-8, with a
/// replacement character for each invalid sequence. The result is a
/// function of the bytes alone.
#[verifier::external_body]
pub(crate) fn utf8_lossy(bytes: &[u8]) -> (s: String)
    ensures
        s@ == utf8_lossy_text(bytes@),
{
    String::from_utf8_lossy(bytes).into_owned()
}

/// Calls `String::push`, which appends one character.
#[verifier::external_body]
pub(crate) fn push_char(s: &mut String, c: char)
    ensures
        final(s)@ == old(s)@.push(c),
{
    s.push(c)
}

} // verus!
