//! The few calls that leave the verified code: the host's per-user configuration
//! directory, path joining and the white-space test of the standard library.

use vstd::prelude::*;

verus! {

/// Whether the standard library counts `c` as white space (`char::is_whitespace`).
pub uninterp spec fn white_space(c: char) -> bool;

/// The path that `std::path::Path::join` builds from `base` and `name` on the
/// platform the library is built for.
pub uninterp spec fn joined_path(base: Seq<char>, name: Seq<char>) -> Seq<char>;

/// Calls `dirs::config_dir`. The answer depends on the host and its environment,
/// so nothing is claimed of it: it may be `None`, and two calls may differ. A
/// directory whose name is not valid Unicode is reported as absent.
#[verifier::external_body]
pub(crate) fn host_config_dir() -> (dir: Option<String>) {
    match dirs::config_dir() {
        Some(path) => path.into_os_string().into_string().ok(),
        None => None,
    }
}

/// Calls `std::path::Path::join` on `base` with `name`. The claim is only that the
/// result is a function of the two texts, named `joined_path`.
#[verifier::external_body]
pub(crate) fn join_path(base: &str, name: &str) -> (joined: String)
    ensures
        joined@ == joined_path(base@, name@),
{
    std::path::Path::new(base).join(name).to_string_lossy().into_owned()
}

/// Calls `char::is_whitespace`. The claim is only that the answer is a function
/// of the character, named `white_space`.
#[verifier::external_body]
pub(crate) fn is_white_space(c: char) -> (b: bool)
    ensures
        b == white_space(c),
{
    c.is_whitespace()
}

} // verus!
