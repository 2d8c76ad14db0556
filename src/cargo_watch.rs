//! The primary watcher's command.
use vstd::prelude::*;

verus! {

/// The command that runs a project: through the watcher when it is
/// installed, plainly otherwise.
pub fn get_run_command(watch_installed: bool) -> (r: String)
    ensures
        r@ == (if watch_installed {
            "cargo watch -x run"@
        } else {
            "cargo run"@
        }),
{
    if watch_installed {
        "cargo watch -x run".to_string()
    } else {
        "cargo run".to_string()
    }
}

} // verus!
