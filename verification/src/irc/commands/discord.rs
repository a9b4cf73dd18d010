use vstd::prelude::*;
use crate::irc::commands::vrc::tidy_link_reply;
use crate::text::{concat3, replaced, trim};

verus! {

/// The announcement used when no AI text is available.
pub fn default_discord_message(discord_link: &str) -> (r: String)
    ensures
        r@ == "Join our Discord community! "@ + discord_link@ + " "@,
{
    concat3("Join our Discord community! ", discord_link, " ")
}

/// What the AI is asked to write.
pub fn discord_prompt(discord_link: &str) -> (r: String)
    ensures
        r@ == "Generate a friendly and inviting message to encourage Twitch viewers to join our Discord community. Feel free to mention: VR, technology, cute & funny anime, catgirls, foxgirls, catboys, foxboys, 3D art or living in the matrix. Don't use the word viewers.  If anything, say chatters or everyone. Good vibes. Good vibes. The message should be brief (1-2 sentences) and include the following Discord link: "@
            + discord_link@ + ". Make sure the tone is casual and welcoming."@,
{
    concat3(
        "Generate a friendly and inviting message to encourage Twitch viewers to join our Discord community. Feel free to mention: VR, technology, cute & funny anime, catgirls, foxgirls, catboys, foxboys, 3D art or living in the matrix. Don't use the word viewers.  If anything, say chatters or everyone. Good vibes. Good vibes. The message should be brief (1-2 sentences) and include the following Discord link: ",
        discord_link,
        ". Make sure the tone is casual and welcoming.",
    )
}

/// The announcement: the tidied AI reply, or the default where the AI failed or is absent.
pub fn discord_message(reply: Option<Result<String, String>>, discord_link: &str) -> (r: String)
    ensures
        reply matches Some(Ok(m)) ==> r@ == trim(replaced(m@, discord_link@, " "@ + discord_link@ + " "@)),
        !(reply matches Some(Ok(_))) ==> r@ == "Join our Discord community! "@ + discord_link@ + " "@,
{
    match reply {
        Some(Ok(m)) => tidy_link_reply(m.as_str(), discord_link),
        _ => default_discord_message(discord_link),
    }
}

} // verus!
