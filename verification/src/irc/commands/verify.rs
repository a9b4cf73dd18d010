use vstd::prelude::*;
use crate::irc::command_system::Command;
use crate::roles::UserRole;
use crate::text::{chars_of, parse_u32, parse_u32_spec, string_views};

verus! {

/// `!verify <code>`: links the chatter's Twitch account to a Discord account.
pub struct VerifyCommand;

impl Command for VerifyCommand {
    fn name(&self) -> (r: &'static str)
        ensures
            r@ == "!verify"@,
    {
        "!verify"
    }

    fn description(&self) -> (r: &'static str)
        ensures
            r@ == "Verifies and links your Twitch account to your Discord account"@,
    {
        "Verifies and links your Twitch account to your Discord account"
    }

    fn required_role(&self) -> (r: UserRole)
        ensures
            r == UserRole::Viewer,
    {
        UserRole::Viewer
    }
}

/// What `!verify` does with its arguments.
pub enum VerifyPlan {
    /// Answer with the usage line.
    Usage(String),
    /// Stop with this error.
    Fail(String),
    /// Link the account with this code.
    Link(u32),
}

impl VerifyCommand {
    /// Reads the arguments: exactly one, a `u32` code.
    pub fn plan(&self, args: &Vec<String>) -> (r: VerifyPlan)
        ensures
            args@.len() != 1 ==> (r matches VerifyPlan::Usage(m) && m@ == "Usage: !verify <code>"@),
            args@.len() == 1 ==> match parse_u32_spec(args@[0]@) {
                None => r matches VerifyPlan::Fail(m) && m@ == "Invalid verification code"@,
                Some(c) => r == VerifyPlan::Link(c),
            },
    {
        if args.len() != 1 {
            return VerifyPlan::Usage(String::from_str("Usage: !verify <code>"));
        }
        let cs = chars_of(args[0].as_str());
        match parse_u32(cs.as_slice()) {
            None => VerifyPlan::Fail(String::from_str("Invalid verification code")),
            Some(c) => VerifyPlan::Link(c),
        }
    }

    /// The answer once linking succeeded, or failed with `error`.
    pub fn reply(&self, username: &str, linked: Result<(), String>) -> (r: String)
        ensures
            linked is Ok ==> r@ == "@"@ + username@
                + ", your Twitch account has been successfully verified and linked to your Discord account!"@,
            linked matches Err(e) ==> r@ == "@"@ + username@ + ", verification failed: "@ + e@
                + ". Please use the /linktwitch command in Discord to get a new verification code."@,
    {
        let mut r = String::from_str("@");
        r.append(username);
        match linked {
            Ok(_) => {
                r.append(", your Twitch account has been successfully verified and linked to your Discord account!");
            },
            Err(e) => {
                r.append(", verification failed: ");
                r.append(e.as_str());
                r.append(". Please use the /linktwitch command in Discord to get a new verification code.");
            },
        }
        r
    }
}

} // verus!
