use vstd::prelude::*;
use crate::irc::command_system::Command;
use crate::roles::UserRole;

verus! {

/// `!ping`: answers `Pong!`.
pub struct PingCommand;

impl Command for PingCommand {
    fn name(&self) -> (r: &'static str)
        ensures
            r@ == "!ping"@,
    {
        "!ping"
    }

    fn description(&self) -> (r: &'static str)
        ensures
            r@ == "Responds with Pong!"@,
    {
        "Responds with Pong!"
    }

    fn required_role(&self) -> (r: UserRole)
        ensures
            r == UserRole::Viewer,
    {
        UserRole::Viewer
    }
}

impl PingCommand {
    /// The answer to `!ping`.
    pub fn reply(&self) -> (r: &'static str)
        ensures
            r@ == "Pong!"@,
    {
        "Pong!"
    }
}

} // verus!
