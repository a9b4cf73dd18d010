use vstd::prelude::*;

verus! {

/// A Twitch API token. `expires_at` is milliseconds of a monotonic clock,
/// where known.
pub struct TwitchToken {
    pub access_token: String,
    pub refresh_token: String,
    pub expires_in: u64,
    pub expires_at: Option<u64>,
}

impl TwitchToken {
    /// The token kept from the configuration: its expiry is `now`, so that
    /// the first request refreshes it.
    pub fn from_config(access_token: String, refresh_token: String, now: u64) -> (r: TwitchToken)
        ensures
            r.access_token == access_token,
            r.refresh_token == refresh_token,
            r.expires_in == 0,
            r.expires_at == Some(now),
    {
        TwitchToken { access_token, refresh_token, expires_in: 0, expires_at: Some(now) }
    }

    /// A fresh token from the token endpoint, received at `now`: it expires
    /// `expires_in` seconds later.
    pub fn received_at(access_token: String, refresh_token: String, expires_in: u64, now: u64) -> (r: TwitchToken)
        requires
            now + expires_in * 1000 <= u64::MAX,
        ensures
            r.access_token == access_token,
            r.refresh_token == refresh_token,
            r.expires_in == expires_in,
            r.expires_at == Some((now + expires_in * 1000) as u64),
    {
        let expires_at = now + expires_in * 1000;
        TwitchToken { access_token, refresh_token, expires_in, expires_at: Some(expires_at) }
    }

    /// The access token while it is still valid at `now` (its expiry lies
    /// after `now`); `None` when it must be refreshed.
    pub fn usable_at(&self, now: u64) -> (r: Option<String>)
        ensures
            match self.expires_at {
                Some(t) if t > now => r is Some && r->0@ == self.access_token@,
                _ => r is None,
            },
    {
        match self.expires_at {
            Some(t) => if t > now {
                Some(self.access_token.clone())
            } else {
                None
            },
            None => None,
        }
    }
}

/// Whether the configuration holds both tokens, so that no authorization is needed.
pub fn has_stored_tokens(access_token: Option<&str>, refresh_token: Option<&str>) -> (r: bool)
    ensures
        r == (access_token is Some && refresh_token is Some),
{
    access_token.is_some() && refresh_token.is_some()
}

/// The page where the streamer authorizes the bot.
pub fn authorization_url(client_id: &str) -> (r: String)
    ensures
        r@ == "https://id.twitch.tv/oauth2/authorize?client_id="@ + client_id@
            + "&redirect_uri=http://localhost:3000/callback&response_type=code&scope=chat:read chat:edit channel:read:subscriptions moderator:read:followers moderator:manage:shoutouts channel:read:subscriptions channel:manage:redemptions channel:manage:vips moderation:read moderator:manage:announcements"@,
{
    let mut r = String::from_str("https://id.twitch.tv/oauth2/authorize?client_id=");
    r.append(client_id);
    r.append(
        "&redirect_uri=http://localhost:3000/callback&response_type=code&scope=chat:read chat:edit channel:read:subscriptions moderator:read:followers moderator:manage:shoutouts channel:read:subscriptions channel:manage:redemptions channel:manage:vips moderation:read moderator:manage:announcements",
    );
    r
}

/// What the local callback page does with its `code` and `error` query
/// values: it keeps the code, if any, and answers the browser.
pub fn auth_callback(code: Option<&str>, error: Option<&str>) -> (r: (Option<String>, String))
    ensures
        match code {
            Some(c) => r.0 is Some && r.0->0@ == c@ && r.1@ == "Authorization successful! You can close this window now."@,
            None => r.0 is None && match error {
                Some(e) => r.1@ == "Authorization failed: "@ + e@ + ". Please try again."@,
                None => r.1@ == "Authorization failed. Please try again."@,
            },
        },
{
    match code {
        Some(c) => (Some(String::from_str(c)), String::from_str("Authorization successful! You can close this window now.")),
        None => match error {
            Some(e) => {
                let mut m = String::from_str("Authorization failed: ");
                m.append(e);
                m.append(". Please try again.");
                (None, m)
            },
            None => (None, String::from_str("Authorization failed. Please try again.")),
        },
    }
}

/// A user lookup by login: it fails where the answer lists no user.
pub fn check_user_found(user_login: &str, user_count: usize) -> (r: Result<(), String>)
    ensures
        user_count == 0 ==> r is Err && r->Err_0@ == "User not found: "@ + user_login@,
        user_count > 0 ==> r is Ok,
{
    if user_count == 0 {
        let mut e = String::from_str("User not found: ");
        e.append(user_login);
        Err(e)
    } else {
        Ok(())
    }
}

} // verus!
