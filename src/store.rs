//! The persisted IP record: what a read means, and where its file lives.

use vstd::prelude::*;

use crate::text::{opt_chars, trim, trimmed};

verus! {

/// The file that holds the IP when none is configured.
pub const DEFAULT_IP_PATH: &'static str = "/config/ip.conf";

/// The IP that a file holding `content` records.
pub open spec fn recorded_ip(content: Seq<char>) -> Seq<char> {
    trimmed(content)
}

/// Whether a client at `client` must replace a record holding `content`.
pub open spec fn ip_changed(content: Seq<char>, client: Seq<char>) -> bool {
    recorded_ip(content) != client
}

/// The IP recorded by a file holding `content`.
pub fn stored_ip(content: &str) -> (r: String)
    ensures
        r@ == recorded_ip(content@),
{
    trim(content)
}

/// What `std::path::Path::parent` gives for a path written as `path`.
pub uninterp spec fn parent_of(path: Seq<char>) -> Option<Seq<char>>;

/// Relies on `std::path::Path::parent`: the path without its last component,
/// `None` for a root or an empty path. A path made from a `str` converts back
/// to the same text, so `to_string_lossy` loses nothing.
#[verifier::external_body]
fn parent_path(path: &str) -> (r: Option<String>)
    ensures
        opt_chars(r) == parent_of(path@),
{
    std::path::Path::new(path).parent().map(|p| p.to_string_lossy().into_owned())
}

/// The directory named by a path's parent: none when there is no parent or
/// it is blank.
pub open spec fn dir_for_parent(parent: Option<Seq<char>>) -> Option<Seq<char>> {
    match parent {
        Some(d) => if trimmed(d).len() > 0 {
            Some(d)
        } else {
            None
        },
        None => None,
    }
}

/// The directory named by a path's parent.
pub fn dir_from_parent(parent: Option<String>) -> (r: Option<String>)
    ensures
        opt_chars(r) == dir_for_parent(opt_chars(parent)),
{
    match parent {
        Some(d) => {
            let t = trim(d.as_str());
            if t.as_str().unicode_len() > 0 {
                Some(d)
            } else {
                None
            }
        },
        None => None,
    }
}

/// The directory that holds the file at `path`, when it is named: the one to
/// create (with its ancestors) before the IP file, or the one to run a
/// command in.
pub fn containing_dir(path: &str) -> (r: Option<String>)
    ensures
        opt_chars(r) == dir_for_parent(parent_of(path@)),
{
    dir_from_parent(parent_path(path))
}

} // verus!
