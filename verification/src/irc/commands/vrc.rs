use vstd::prelude::*;
use crate::irc::command_system::Command;
use crate::roles::UserRole;
use crate::text::{concat3, replace_all, replaced, trim, trim_string};

verus! {

/// `!vrc`: announces the VRChat community group.
pub struct VRCCommand;

impl Command for VRCCommand {
    fn name(&self) -> (r: &'static str)
        ensures
            r@ == "!vrc"@,
    {
        "!vrc"
    }

    fn description(&self) -> (r: &'static str)
        ensures
            r@ == "Provides a link to join our VRChat community group and sends an announcement"@,
    {
        "Provides a link to join our VRChat community group and sends an announcement"
    }

    fn required_role(&self) -> (r: UserRole)
        ensures
            r == UserRole::Viewer,
    {
        UserRole::Viewer
    }
}

/// The announcement used when no AI text is available.
pub fn default_vrc_message(vrc_link: &str) -> (r: String)
    ensures
        r@ == "Join our VRChat community group! "@ + vrc_link@ + " "@,
{
    concat3("Join our VRChat community group! ", vrc_link, " ")
}

/// What the AI is asked to write.
pub fn vrc_prompt(vrc_link: &str) -> (r: String)
    ensures
        r@ == "Generate a friendly and inviting message to encourage Twitch viewers to join our VRChat community group. Feel free to mention: VR, technology, cute & funny anime, catgirls, foxgirls, catboys, foxboys, 3D art or living in the matrix. Don't use the word viewers.  If anything, say chatters or everyone. Good vibes. Good vibes. The message should be brief (1-2 sentences) and include the following VRChat group link: "@
            + vrc_link@ + ". Make sure the tone is casual and welcoming."@,
{
    concat3(
        "Generate a friendly and inviting message to encourage Twitch viewers to join our VRChat community group. Feel free to mention: VR, technology, cute & funny anime, catgirls, foxgirls, catboys, foxboys, 3D art or living in the matrix. Don't use the word viewers.  If anything, say chatters or everyone. Good vibes. Good vibes. The message should be brief (1-2 sentences) and include the following VRChat group link: ",
        vrc_link,
        ". Make sure the tone is casual and welcoming.",
    )
}

/// An AI reply with the link set apart by spaces, then trimmed.
pub fn tidy_link_reply(response: &str, link: &str) -> (r: String)
    ensures
        r@ == trim(replaced(response@, link@, " "@ + link@ + " "@)),
{
    let spaced = concat3(" ", link, " ");
    let replaced_text = replace_all(response, link, spaced.as_str());
    trim_string(replaced_text.as_str())
}

/// The announcement: the tidied AI reply, or the default where the AI failed or is absent.
pub fn vrc_message(reply: Option<Result<String, String>>, vrc_link: &str) -> (r: String)
    ensures
        reply matches Some(Ok(m)) ==> r@ == trim(replaced(m@, vrc_link@, " "@ + vrc_link@ + " "@)),
        !(reply matches Some(Ok(_))) ==> r@ == "Join our VRChat community group! "@ + vrc_link@ + " "@,
{
    match reply {
        Some(Ok(m)) => tidy_link_reply(m.as_str(), vrc_link),
        _ => default_vrc_message(vrc_link),
    }
}

} // verus!
