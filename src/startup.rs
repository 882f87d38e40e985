//! Run-at-login entries: how this program's entry is written and how entries
//! that launch it are recognised.

use vstd::prelude::*;
use vstd::string::*;
use crate::text::{
    ascii_lower_seq, contains, contains_ignore_ascii_case, eq_ignore_ascii_case, eq_ignore_case,
    trim, trimmed,
};

verus! {

/// Name of this program's own run-at-login entry.
pub const RUN_VALUE_WINLUX: &'static str = "WinLux";

/// The command-line flag that marks a launch at login.
pub const STARTUP_FLAG: &'static str = "--startup";

/// An entry's command launches this program at login when, ignoring ASCII case,
/// it names the executable and carries the startup flag.
pub open spec fn targets_exe(command: Seq<char>, exe_path: Seq<char>) -> bool {
    let c = ascii_lower_seq(trimmed(command));
    contains(c, ascii_lower_seq(exe_path)) && contains(c, ascii_lower_seq(STARTUP_FLAG@))
}

pub fn startup_entry_targets_current_exe(command: &str, exe_path: &str) -> (r: bool)
    ensures
        r == targets_exe(command@, exe_path@),
{
    let c = trim(command);
    contains_ignore_ascii_case(c, exe_path) && contains_ignore_ascii_case(c, STARTUP_FLAG)
}

/// The command of this program's entry: the quoted executable path and the startup flag.
pub fn startup_run_command(exe_text: &str) -> (r: String)
    ensures
        r@ == "\""@ + exe_text@ + "\" --startup"@,
{
    let s = String::from_str("\"");
    let s = s.concat(exe_text);
    s.concat("\" --startup")
}

/// Some entry's command launches this program.
pub open spec fn some_entry_targets(values: Seq<Option<String>>, exe_path: Seq<char>) -> bool {
    exists|i: int|
        0 <= i < values.len() && match #[trigger] values[i] {
            Some(v) => targets_exe(v@, exe_path),
            None => false,
        }
}

/// Whether launching at login is on: this program's own entry exists, or another
/// entry launches the executable. `values` holds each entry's command (none for
/// an entry that is not text); `exe_path` is none when the path is unknown.
pub fn startup_enabled(
    enabled_by_name: bool,
    exe_path: Option<&str>,
    values: &Vec<Option<String>>,
) -> (r: bool)
    ensures
        r == (enabled_by_name || (exe_path is Some && some_entry_targets(values@, exe_path->0@))),
{
    if enabled_by_name {
        return true;
    }
    let exe = match exe_path {
        Some(e) => e,
        None => {
            return false;
        },
    };
    let mut i: usize = 0;
    while i < values.len()
        invariant
            i <= values@.len(),
            exe_path == Some(exe),
            !enabled_by_name,
            forall|k: int|
                0 <= k < i ==> match #[trigger] values@[k] {
                    Some(v) => !targets_exe(v@, exe@),
                    None => true,
                },
        decreases values@.len() - i,
    {
        if let Some(text) = &values[i] {
            if startup_entry_targets_current_exe(text.as_str(), exe) {
                assert(values@[i as int] == Some(*text));
                return true;
            }
        }
        i = i + 1;
    }
    false
}

/// An entry other than this program's own that launches the executable.
pub open spec fn entry_to_remove(entry: (String, Option<String>), exe_path: Seq<char>) -> bool {
    !eq_ignore_case(entry.0@, RUN_VALUE_WINLUX@) && entry.1 is Some && targets_exe(
        entry.1->0@,
        exe_path,
    )
}

/// Names of the entries to remove, in order.
pub open spec fn entries_to_remove(entries: Seq<(String, Option<String>)>, exe_path: Seq<char>) -> Seq<
    Seq<char>,
>
    decreases entries.len(),
{
    if entries.len() == 0 {
        Seq::empty()
    } else {
        let before = entries_to_remove(entries.drop_last(), exe_path);
        if entry_to_remove(entries.last(), exe_path) {
            before.push(entries.last().0@)
        } else {
            before
        }
    }
}

/// When launching at login is switched off, the other entries that launch the
/// executable are removed too: their names, from (name, command) pairs.
pub fn startup_values_to_remove(exe_path: &str, entries: &Vec<(String, Option<String>)>) -> (r: Vec<
    String,
>)
    ensures
        r@.map_values(|s: String| s@) == entries_to_remove(entries@, exe_path@),
{
    let mut out: Vec<String> = Vec::new();
    let mut i: usize = 0;
    while i < entries.len()
        invariant
            i <= entries@.len(),
            out@.map_values(|s: String| s@) == entries_to_remove(
                entries@.subrange(0, i as int),
                exe_path@,
            ),
        decreases entries@.len() - i,
    {
        let ghost prefix = entries@.subrange(0, i as int);
        let (name, value) = &entries[i];
        assert(entries@.subrange(0, i + 1).drop_last() =~= prefix);
        let mut remove = false;
        if !eq_ignore_ascii_case(name.as_str(), RUN_VALUE_WINLUX) {
            if let Some(text) = value {
                remove = startup_entry_targets_current_exe(text.as_str(), exe_path);
            }
        }
        if remove {
            out.push(name.clone());
        }
        assert(out@.map_values(|s: String| s@) =~= entries_to_remove(
            entries@.subrange(0, i + 1),
            exe_path@,
        ));
        i = i + 1;
    }
    assert(entries@.subrange(0, entries@.len() as int) =~= entries@);
    out
}

} // verus!
