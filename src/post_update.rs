//! The local-command strategy of propagating a new IP.

use vstd::prelude::*;

use crate::store::{containing_dir, dir_for_parent, parent_of};
use crate::text::opt_chars;

verus! {

/// How to run the post-update command: the program, its one argument, and
/// the directory to run it in (the program's own, when its path names one).
pub struct CommandPlan {
    pub program: String,
    pub argument: String,
    pub dir: Option<String>,
}

/// The run of `program` for the new IP `ip`.
pub fn command_plan(program: &str, ip: &str) -> (r: CommandPlan)
    ensures
        r.program@ == program@,
        r.argument@ == ip@,
        opt_chars(r.dir) == dir_for_parent(parent_of(program@)),
{
    CommandPlan {
        program: String::from_str(program),
        argument: String::from_str(ip),
        dir: containing_dir(program),
    }
}

} // verus!
