//! The refresh loop as a state machine.
//!
//! The loop itself lives with the terminal: it carries out an [`Action`] and
//! reports what came of it as an [`Event`]. What to do next is decided here,
//! by [`step`]. The program begins with [`launch`].
//!
//! ```text
//! Init --Configured--> Running --Polled(q)------> Shutdown
//!                      Running --SampleFailed---> Shutdown
//!                      Running --Polled(other)--> Running   (sleep)
//!                      Running --Woke-----------> Running   (refresh)
//! ```
//!
//! There is no way back to `Init` and no way out of `Shutdown`, and
//! `Shutdown` is only ever entered with the order to restore the terminal.

use vstd::prelude::*;

verus! {

/// The code of the lowercase letter `q`, the one key that ends the program.
pub const QUIT_KEY: i32 = 113;

/// The seconds between two refreshes.
pub const TICK_SECONDS: u64 = 1;

/// The exit status after a quit.
pub const EXIT_SUCCESS: i32 = 0;

/// The exit status after a failure: that of a program that panicked.
pub const EXIT_FAILURE: i32 = 101;

/// Where the program stands.
#[derive(Clone, Copy, Debug, PartialEq, Eq, Structural)]
pub enum Phase {
    /// The terminal is not configured yet.
    Init,
    /// The terminal is configured and the loop is turning.
    Running,
    /// The loop has ended.
    Shutdown,
}

/// What came of the last action.
#[derive(Clone, Copy, Debug, PartialEq, Eq, Structural)]
pub enum Event {
    /// The terminal is configured and the screen is clear.
    Configured,
    /// A sample was taken, drawn and flushed to the screen, and the keyboard
    /// was polled without waiting: `key` is the code that was read, or the
    /// backend's code for no key.
    Polled { key: i32 },
    /// No sample could be taken.
    SampleFailed,
    /// The sleep is over.
    Woke,
}

/// What the loop is to do next.
#[derive(Clone, Copy, Debug, PartialEq, Eq, Structural)]
pub enum Action {
    /// Configure the terminal: raw input without echo or waiting, no
    /// cursor, colours, a clear screen.
    Configure,
    /// Take a sample, draw it, flush the screen, poll the keyboard.
    Refresh,
    /// Do nothing for so many seconds.
    Sleep { seconds: u64 },
    /// Restore the terminal, then end the process with this status.
    Restore { exit_code: i32 },
}

/// A phase and the action to carry out in it.
#[derive(Clone, Copy, Debug, PartialEq, Eq, Structural)]
pub struct Step {
    pub phase: Phase,
    pub action: Action,
}

/// The transitions of the machine; `None` where there is none.
pub open spec fn transition(phase: Phase, event: Event) -> Option<Step> {
    match (phase, event) {
        (Phase::Init, Event::Configured) => Some(
            Step { phase: Phase::Running, action: Action::Refresh },
        ),
        (Phase::Running, Event::Polled { key }) => if key == QUIT_KEY {
            Some(Step { phase: Phase::Shutdown, action: Action::Restore { exit_code: EXIT_SUCCESS } })
        } else {
            Some(Step { phase: Phase::Running, action: Action::Sleep { seconds: TICK_SECONDS } })
        },
        (Phase::Running, Event::SampleFailed) => Some(
            Step { phase: Phase::Shutdown, action: Action::Restore { exit_code: EXIT_FAILURE } },
        ),
        (Phase::Running, Event::Woke) => Some(
            Step { phase: Phase::Running, action: Action::Refresh },
        ),
        _ => None,
    }
}

/// How the program begins: in `Init`, with the order to configure the
/// terminal.
pub fn launch() -> (first: Step)
    ensures
        first == (Step { phase: Phase::Init, action: Action::Configure }),
{
    Step { phase: Phase::Init, action: Action::Configure }
}

/// Decides what follows `event` in `phase`; `None` where the machine has no
/// such transition.
pub fn step(phase: Phase, event: Event) -> (next: Option<Step>)
    ensures
        next == transition(phase, event),
{
    match phase {
        Phase::Init => match event {
            Event::Configured => Some(Step { phase: Phase::Running, action: Action::Refresh }),
            _ => None,
        },
        Phase::Running => match event {
            Event::Configured => None,
            Event::Polled { key } => {
                if key == QUIT_KEY {
                    Some(
                        Step {
                            phase: Phase::Shutdown,
                            action: Action::Restore { exit_code: EXIT_SUCCESS },
                        },
                    )
                } else {
                    Some(
                        Step {
                            phase: Phase::Running,
                            action: Action::Sleep { seconds: TICK_SECONDS },
                        },
                    )
                }
            },
            Event::SampleFailed => Some(
                Step { phase: Phase::Shutdown, action: Action::Restore { exit_code: EXIT_FAILURE } },
            ),
            Event::Woke => Some(Step { phase: Phase::Running, action: Action::Refresh }),
        },
        Phase::Shutdown => None,
    }
}

/// The quit key is the letter `q`, by its character code.
pub proof fn lemma_quit_key_is_q()
    ensures
        QUIT_KEY == 'q' as u32,
{
}

/// In `Running`, the quit key leads to `Shutdown` at once, with the order to
/// restore the terminal and to exit with success; any other key leads to a
/// sleep of one tick.
pub proof fn lemma_quit(key: i32)
    ensures
        key == QUIT_KEY ==> transition(Phase::Running, Event::Polled { key }) == Some(
            Step { phase: Phase::Shutdown, action: Action::Restore { exit_code: 0 } },
        ),
        key != QUIT_KEY ==> transition(Phase::Running, Event::Polled { key }) == Some(
            Step { phase: Phase::Running, action: Action::Sleep { seconds: 1 } },
        ),
{
}

/// `Init` is never entered again, nothing follows `Shutdown`, and
/// `Shutdown` is entered only with the order to restore the terminal: the
/// terminal is configured once and restored on every way out, with status
/// zero only after a quit.
pub proof fn lemma_lifecycle(phase: Phase, event: Event)
    ensures
        transition(Phase::Shutdown, event) is None,
        transition(phase, event) matches Some(next) ==> {
            &&& next.phase != Phase::Init
            &&& next.action != Action::Configure
            &&& (next.phase == Phase::Shutdown <==> next.action is Restore)
            &&& (next.action == Action::Restore { exit_code: EXIT_SUCCESS } <==> event
                == Event::Polled { key: QUIT_KEY })
        },
{
}

} // verus!
