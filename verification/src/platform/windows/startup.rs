//! The run-at-startup entry: the command it should hold and how a stored
//! entry is judged against it. Reading and writing the registry is left to
//! the application.
use vstd::prelude::*;

use crate::text::same_text;

verus! {

/// Name of the value under the run key.
pub const APP_NAME: &'static str = "LoL-Accept";

/// Registry key (under the current user) whose values run at log-in.
pub const RUN_REGISTRY_PATH: &'static str = "Software\\Microsoft\\Windows\\CurrentVersion\\Run";

/// The command that starts the executable at `exe_path`: the path in double
/// quotes.
pub open spec fn startup_command_spec(exe_path: Seq<char>) -> Seq<char> {
    seq!['"'] + exe_path + seq!['"']
}

/// The characters of an optional text.
pub open spec fn opt_str_view(o: Option<&str>) -> Option<Seq<char>> {
    match o {
        Some(s) => Some(s@),
        None => None,
    }
}

/// A stored entry is current when there is one and it is the current command.
pub open spec fn is_current_spec(stored: Option<Seq<char>>, current: Seq<char>) -> bool {
    stored == Some(current)
}

/// A stored entry is stale when there is one and it is another command.
pub open spec fn is_stale_spec(stored: Option<Seq<char>>, current: Seq<char>) -> bool {
    stored is Some && stored != Some(current)
}

/// The command to store for the executable at `exe_path`.
pub fn startup_command(exe_path: &str) -> (r: String)
    ensures
        r@ == startup_command_spec(exe_path@),
{
    let mut r = String::new();
    crate::text::push_char(&mut r, '"');
    r.append(exe_path);
    crate::text::push_char(&mut r, '"');
    proof {
        assert(r@ =~= startup_command_spec(exe_path@));
    }
    r
}

/// Whether the stored entry starts the current executable.
pub fn entry_is_current(stored: Option<&str>, current: &str) -> (r: bool)
    ensures
        r == is_current_spec(opt_str_view(stored), current@),
{
    match stored {
        Some(s) => same_text(s, current),
        None => false,
    }
}

/// Whether the stored entry starts some other executable and must be removed.
pub fn entry_is_stale(stored: Option<&str>, current: &str) -> (r: bool)
    ensures
        r == is_stale_spec(opt_str_view(stored), current@),
{
    match stored {
        Some(s) => !same_text(s, current),
        None => false,
    }
}

/// What the startup check concludes.
#[derive(Debug, Clone, Copy, PartialEq, Eq, Structural)]
pub struct StartupReport {
    /// Whether startup is reported as enabled.
    pub enabled: bool,
    /// Whether the entry is to be written again for the current executable.
    pub rewrite_entry: bool,
}

/// The startup check's conclusion: a stale entry that was removed is written
/// again for the current executable, and startup counts as enabled when the
/// entry was current or has been rewritten.
pub open spec fn startup_report_spec(entry_was_current: bool, removed_stale: bool) -> StartupReport {
    StartupReport { enabled: entry_was_current || removed_stale, rewrite_entry: removed_stale }
}

/// Concludes the startup check from whether the stored entry was current and
/// whether a stale entry was removed.
pub fn judge_startup(entry_was_current: bool, removed_stale: bool) -> (r: StartupReport)
    ensures
        r == startup_report_spec(entry_was_current, removed_stale),
{
    StartupReport { enabled: entry_was_current || removed_stale, rewrite_entry: removed_stale }
}

/// For one stored entry, the startup check reports startup as enabled exactly
/// when an entry exists, current or stale, and rewrites it exactly when it was
/// stale; an entry that is rewritten is always reported as enabled.
pub proof fn law_startup_reported_iff_entry(stored: Option<Seq<char>>, current: Seq<char>)
    ensures
        ({
            let r = startup_report_spec(
                is_current_spec(stored, current),
                is_stale_spec(stored, current),
            );
            &&& r.enabled == (stored is Some)
            &&& r.rewrite_entry == is_stale_spec(stored, current)
            &&& r.rewrite_entry ==> r.enabled
        }),
        !(is_current_spec(stored, current) && is_stale_spec(stored, current)),
{
}

/// The stored entry after a clean-up: a stale entry is deleted, anything
/// else is left as it was.
pub open spec fn after_cleanup(stored: Option<Seq<char>>, current: Seq<char>) -> Option<Seq<char>> {
    if is_stale_spec(stored, current) {
        None
    } else {
        stored
    }
}

/// Cleaning up twice finds nothing to remove the second time and leaves the
/// entry as the first clean-up did; a clean-up never removes a current entry.
pub proof fn law_cleanup_idempotent(stored: Option<Seq<char>>, current: Seq<char>)
    ensures
        !is_stale_spec(after_cleanup(stored, current), current),
        after_cleanup(after_cleanup(stored, current), current) == after_cleanup(stored, current),
        is_current_spec(after_cleanup(stored, current), current) == is_current_spec(stored, current),
{
}

/// The startup command is the executable's path, unchanged, between one
/// double quote at each end.
pub proof fn law_startup_command_quotes(exe_path: Seq<char>)
    ensures
        startup_command_spec(exe_path).len() == exe_path.len() + 2,
        startup_command_spec(exe_path)[0] == '"',
        startup_command_spec(exe_path).last() == '"',
        startup_command_spec(exe_path).subrange(1, exe_path.len() + 1 as int) == exe_path,
{
    assert(startup_command_spec(exe_path).subrange(1, exe_path.len() + 1 as int) =~= exe_path);
}

/// A stored entry is current exactly when it is character for character the
/// current command, and stale exactly when it is any other command; no entry
/// is neither.
pub proof fn law_entry_judged_by_whole_command(stored: Option<&str>, current: &str)
    ensures
        is_current_spec(opt_str_view(stored), current@) == (stored matches Some(s) && s@ == current@),
        is_stale_spec(opt_str_view(stored), current@) == (stored matches Some(s) && s@ != current@),
        stored is None ==> !is_current_spec(opt_str_view(stored), current@) && !is_stale_spec(
            opt_str_view(stored),
            current@,
        ),
{
}

/// The entry written for an executable is current for it and never stale.
pub proof fn law_written_entry_is_current(exe_path: Seq<char>)
    ensures
        is_current_spec(Some(startup_command_spec(exe_path)), startup_command_spec(exe_path)),
        !is_stale_spec(Some(startup_command_spec(exe_path)), startup_command_spec(exe_path)),
{
}

} // verus!
