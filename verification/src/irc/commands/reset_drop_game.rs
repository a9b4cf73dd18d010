use vstd::prelude::*;
use crate::irc::command_system::Command;
use crate::roles::UserRole;

verus! {

/// The browser source that runs the Parachute Drop game, and the OBS instance that shows it.
pub fn drop_game_source() -> (r: (&'static str, &'static str))
    ensures
        r.0@ == "ParachuteDrop"@,
        r.1@ == "Instance2"@,
{
    ("ParachuteDrop", "Instance2")
}

/// `!resetdrop`: refreshes the Parachute Drop browser source.
pub struct ResetDropGameCommand;

impl Command for ResetDropGameCommand {
    fn name(&self) -> (r: &'static str)
        ensures
            r@ == "!resetdrop"@,
    {
        "!resetdrop"
    }

    fn description(&self) -> (r: &'static str)
        ensures
            r@ == "Resets the Parachute Drop game browser source"@,
    {
        "Resets the Parachute Drop game browser source"
    }

    fn required_role(&self) -> (r: UserRole)
        ensures
            r == UserRole::Moderator,
    {
        UserRole::Moderator
    }
}

impl ResetDropGameCommand {
    /// The answer once the refresh was asked for, or failed with `error`.
    pub fn reply(&self, sender: &str, refreshed: Result<(), String>) -> (r: String)
        ensures
            refreshed is Ok ==> r@ == "@"@ + sender@
                + ", sending refresh command to browser source. If the game doesn't reset, please let us know!"@,
            refreshed matches Err(e) ==> r@ == "@"@ + sender@ + ", failed to reset the game: "@ + e@,
    {
        let mut r = String::from_str("@");
        r.append(sender);
        match refreshed {
            Ok(_) => {
                r.append(", sending refresh command to browser source. If the game doesn't reset, please let us know!");
            },
            Err(e) => {
                r.append(", failed to reset the game: ");
                r.append(e.as_str());
            },
        }
        r
    }
}

} // verus!
