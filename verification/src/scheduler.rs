//! When passes are run: one at once, then either the end or a fixed delay
//! before the next, for ever.

use vstd::prelude::*;
use crate::config::{AppConfig, ConfigError, DEFAULT_UPDATE_INTERVAL};
use crate::reconcile::PassOutcome;

verus! {

/// What follows a pass.
#[derive(Debug, Clone, Copy, PartialEq, Eq, Structural)]
pub enum AfterPass {
    /// The program ends.
    Exit,
    /// The program sleeps for `secs` seconds, counted from the end of the
    /// pass, and runs another pass.
    SleepThenRepeat { secs: u64 },
}

/// What follows a pass: in one-shot mode the end, else the delay that the
/// configuration names or the default one. How the pass ended plays no part.
pub open spec fn schedule(once: bool, interval: Option<u64>) -> AfterPass {
    if once {
        AfterPass::Exit
    } else {
        AfterPass::SleepThenRepeat {
            secs: match interval {
                Some(secs) => secs,
                None => DEFAULT_UPDATE_INTERVAL,
            },
        }
    }
}

/// Decides what follows a pass that ended with `outcome`.
pub fn after_pass(config: &AppConfig, once: bool, outcome: PassOutcome) -> (r: AfterPass)
    ensures
        r == schedule(once, config.update_interval),
        once <==> r == AfterPass::Exit,
{
    if once {
        AfterPass::Exit
    } else {
        AfterPass::SleepThenRepeat { secs: config.interval_secs() }
    }
}

/// The exit status of the program: 1 where the configuration was refused,
/// else 0. No pass, however it ended, changes it.
pub fn exit_code(startup: &Result<(), ConfigError>) -> (r: i32)
    ensures
        r == if startup is Ok {
            0i32
        } else {
            1i32
        },
{
    match startup {
        Ok(_) => 0,
        Err(_) => 1,
    }
}

} // verus!
