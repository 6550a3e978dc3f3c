//! The configuration commands. Reads hand out deep copies; writes follow
//! write-then-commit: the document reaches memory only after the caller
//! reports that persisting it succeeded.

use vstd::prelude::*;

use crate::config::AppConfig;
use crate::state::AppState;
use crate::supervisor::ControlError;

verus! {

/// The read command: the current document as a deep copy.
pub fn get_config(state: &AppState) -> (r: AppConfig)
    ensures
        r.deep_view() == state.config.deep_view(),
{
    crate::state::get_config(state)
}

/// The write command, around its one outside step. The caller first
/// renders the document (`render_config`) and tries to write that text to
/// the canonical location; `write_error` reports how that went. Only a
/// successful write commits the document to memory — a failed save leaves
/// the prior in-memory state intact and surfaces `Persistence`.
pub fn save_config(state: &mut AppState, config: AppConfig, write_error: Option<String>) -> (r:
    Result<(), ControlError>)
    ensures
        write_error is None ==> final(state).config == config && r is Ok,
        write_error matches Some(m) ==> *final(state) == *old(state) && r == Err::<
            (),
            ControlError,
        >(ControlError::Persistence(m)),
        final(state).registry == old(state).registry,
        final(state).primary == old(state).primary,
        final(state).secondary == old(state).secondary,
{
    match write_error {
        None => {
            crate::state::commit_config(state, config);
            Ok(())
        },
        Some(m) => Err(ControlError::Persistence(m)),
    }
}

} // verus!
