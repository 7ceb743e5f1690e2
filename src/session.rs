//! The life of a raw-mode terminal session, as decisions on the status codes
//! of the terminal calls: query the current attributes, switch to raw mode,
//! run the prompt, restore the attributes. The calls themselves are made by
//! the caller, who hands each status back.
use vstd::prelude::*;

verus! {

/// Where a session stands.
#[derive(Clone, Copy, Debug, PartialEq, Eq, Structural)]
pub enum SessionPhase {
    /// Nothing has been done to the terminal yet.
    Idle,
    /// The current attributes have been read and kept.
    Captured,
    /// The terminal is in raw mode: the prompt may run, and the kept
    /// attributes are owed back.
    Raw,
    /// The kept attributes have been put back.
    Restored,
}

/// Why a session failed.
#[derive(Clone, Copy, Debug, PartialEq, Eq, Structural)]
pub enum TerminalError {
    /// The current attributes could not be read.
    QueryFailure,
    /// Raw mode could not be applied.
    ModeSwitchFailure,
    /// The kept attributes could not be put back.
    RestoreFailure,
}

/// The phase that follows a terminal call made in phase `p` and the status
/// it returned (zero for success): the query in `Idle`, the switch to raw
/// mode in `Captured`, the restoration in `Raw`.
pub open spec fn session_next(p: SessionPhase, status: i32) -> Result<SessionPhase, TerminalError> {
    match p {
        SessionPhase::Idle => if status == 0 {
            Ok(SessionPhase::Captured)
        } else {
            Err(TerminalError::QueryFailure)
        },
        SessionPhase::Captured => if status == 0 {
            Ok(SessionPhase::Raw)
        } else {
            Err(TerminalError::ModeSwitchFailure)
        },
        _ => if status == 0 {
            Ok(SessionPhase::Restored)
        } else {
            Err(TerminalError::RestoreFailure)
        },
    }
}

/// Advances a session by the status of the terminal call its phase calls for.
pub fn advance_session(p: SessionPhase, status: i32) -> (r: Result<SessionPhase, TerminalError>)
    requires
        p != SessionPhase::Restored,
    ensures
        r == session_next(p, status),
{
    match p {
        SessionPhase::Idle => if status == 0 {
            Ok(SessionPhase::Captured)
        } else {
            Err(TerminalError::QueryFailure)
        },
        SessionPhase::Captured => if status == 0 {
            Ok(SessionPhase::Raw)
        } else {
            Err(TerminalError::ModeSwitchFailure)
        },
        _ => if status == 0 {
            Ok(SessionPhase::Restored)
        } else {
            Err(TerminalError::RestoreFailure)
        },
    }
}

/// Whether the kept attributes are owed back in phase `p`: only once raw
/// mode has been applied and until it has been undone.
pub fn restore_owed(p: SessionPhase) -> (r: bool)
    ensures
        r == (p == SessionPhase::Raw),
{
    p == SessionPhase::Raw
}

/// A failed query ends the session at once: no phase follows, so the prompt
/// never runs and nothing is restored.
pub proof fn lemma_query_failure_stops_session(status: i32)
    requires
        status != 0,
    ensures
        session_next(SessionPhase::Idle, status) == Err::<SessionPhase, TerminalError>(
            TerminalError::QueryFailure,
        ),
{
}

/// The terminal reaches raw mode, the one phase in which the prompt runs and
/// restoration is owed, exactly when both the query and the switch succeed.
pub proof fn lemma_interaction_needs_raw_mode(query: i32, apply: i32)
    ensures
        ({
            let first = session_next(SessionPhase::Idle, query);
            first is Ok && session_next(first->Ok_0, apply) == Ok::<SessionPhase, TerminalError>(
                SessionPhase::Raw,
            )
        }) <==> (query == 0 && apply == 0),
{
}

} // verus!
