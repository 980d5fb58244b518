//! Whether the vault accepts work.

use vstd::prelude::*;
use vstd::string::StringExecFns;

verus! {

/// The vault's running state. A paused vault answers reads and refuses
/// everything else.
#[derive(Clone, Copy, PartialEq, Eq, Debug, Structural)]
pub enum RunningState {
    Running,
    Paused,
}

impl RunningState {
    /// The state's name as text: `Running` or `Paused`.
    pub fn to_string(&self) -> (text: String)
        ensures
            text@ == (match *self {
                RunningState::Running => "Running"@,
                RunningState::Paused => "Paused"@,
            }),
    {
        match self {
            RunningState::Running => String::from_str("Running"),
            RunningState::Paused => String::from_str("Paused"),
        }
    }

    /// Whether the vault accepts work in this state.
    pub fn is_running(&self) -> (running: bool)
        ensures
            running == (*self == RunningState::Running),
    {
        match self {
            RunningState::Running => true,
            RunningState::Paused => false,
        }
    }
}

} // verus!
