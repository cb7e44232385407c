//! Where the settings, the statistics and the speech model are kept on disk.
use vstd::prelude::*;

verus! {

/// `std::path::PathBuf`, an owned path. Nothing is known of what is inside
/// one but what the functions below say.
#[verifier::external_type_specification]
#[verifier::external_body]
pub struct ExPathBuf(std::path::PathBuf);

/// What a path holds: its text.
pub uninterp spec fn path_text(p: std::path::PathBuf) -> Seq<char>;

/// What `std::path::PathBuf::push` makes of a path that reads `base` when
/// `part` is pushed onto it, by the rules of the platform that the crate
/// is built for.
pub uninterp spec fn path_pushed(base: Seq<char>, part: Seq<char>) -> Seq<char>;

/// `std::path::PathBuf::from` of a string slice: a path that holds the text.
#[verifier::external_body]
pub(crate) fn path_from(text: &str) -> (p: std::path::PathBuf)
    ensures
        path_text(p) == text@,
{
    std::path::PathBuf::from(text)
}

/// `std::path::PathBuf::push`: extends the path by `part`. What the
/// extended path reads depends on both texts alone.
#[verifier::external_body]
pub(crate) fn path_push(p: &mut std::path::PathBuf, part: &str)
    ensures
        path_text(*final(p)) == path_pushed(path_text(*old(p)), part@),
{
    p.push(part)
}

/// `std::path::Path::exists`: whether the path points at something on disk
/// now. Nothing is known of the answer.
#[verifier::external_body]
pub(crate) fn path_exists(p: &std::path::PathBuf) -> (found: bool) {
    p.exists()
}

/// `dirs::config_dir`: the user's configuration directory, if the
/// environment names one. Nothing is known of the answer.
#[verifier::external_body]
pub(crate) fn user_config_dir() -> (dir: Option<std::path::PathBuf>) {
    dirs::config_dir()
}

/// `dirs::data_dir`: the user's data directory, if the environment names
/// one. Nothing is known of the answer.
#[verifier::external_body]
pub(crate) fn user_data_dir() -> (dir: Option<std::path::PathBuf>) {
    dirs::data_dir()
}

/// The directory of this application below a base directory; without a base
/// directory, below the working directory.
pub open spec fn app_dir_text(base: Option<Seq<char>>) -> Seq<char> {
    match base {
        Some(b) => path_pushed(b, "voice-prompt"@),
        None => path_pushed("."@, "voice-prompt"@),
    }
}

/// The text of an optional path.
pub open spec fn opt_path_text(base: Option<std::path::PathBuf>) -> Option<Seq<char>> {
    match base {
        Some(p) => Some(path_text(p)),
        None => None,
    }
}

/// The application's directory below `base`, or below `.` without one.
pub fn app_dir_under(base: Option<std::path::PathBuf>) -> (dir: std::path::PathBuf)
    ensures
        path_text(dir) == app_dir_text(opt_path_text(base)),
{
    let mut p = match base {
        Some(b) => b,
        None => path_from("."),
    };
    path_push(&mut p, "voice-prompt");
    p
}

} // verus!
