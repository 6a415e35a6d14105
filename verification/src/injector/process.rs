//! Finding the game's process to inject the mod into.
use vstd::prelude::*;

use crate::text::str_equals;

verus! {

/// An entry of the system's process list.
pub struct ProcessEntry {
    pub pid: u32,
    /// The name of the process's executable; `None` when it is no valid text.
    pub exe_name: Option<String>,
}

/// Whether `entry` is the process named `name`.
pub open spec fn is_named(entry: ProcessEntry, name: Seq<char>) -> bool {
    entry.exe_name matches Some(n) && n@ == name
}

/// The id of the first process named `process_name` in the process list `entries`.
///
/// The walk of the list starts by reading its first entry and only compares the entries
/// after it, so the first entry is never found.
pub fn find_process(entries: &Vec<ProcessEntry>, process_name: &str) -> (r: Option<u32>)
    ensures
        match r {
            Some(pid) => exists|i: int|
                1 <= i < entries@.len() && #[trigger] is_named(entries@[i], process_name@) && entries@[i].pid
                    == pid && forall|j: int| 1 <= j < i ==> !is_named(#[trigger] entries@[j], process_name@),
            None => forall|j: int| 1 <= j < entries@.len() ==> !is_named(#[trigger] entries@[j], process_name@),
        },
{
    if entries.len() == 0 {
        return None;
    }
    let mut i: usize = 1;
    while i < entries.len()
        invariant
            1 <= i <= entries@.len(),
            forall|j: int| 1 <= j < i ==> !is_named(#[trigger] entries@[j], process_name@),
        decreases entries@.len() - i,
    {
        let found = match &entries[i].exe_name {
            Some(name) => str_equals(name.as_str(), process_name),
            None => false,
        };
        if found {
            proof {
                assert(is_named(entries@[i as int], process_name@));
            }
            return Some(entries[i].pid);
        }
        i = i + 1;
    }
    None
}

/// Whether a handle to the game's process may be used to inject the mod: when the
/// configuration requires administrator rights, only a handle to an elevated process.
pub fn handle_usable(require_admin: bool, elevated: bool) -> (r: bool)
    ensures
        r == (!require_admin || elevated),
{
    !require_admin || elevated
}

} // verus!
