use vstd::prelude::*;

verus! {

/// Why a shoutout through the API failed.
#[derive(Debug)]
pub enum ShoutoutError {
    /// The API answered with an error (its text).
    APIError(String),
    /// A broadcaster id was unusable.
    InvalidBroadcasterId(String),
}

impl ShoutoutError {
    /// The error as it prints.
    pub fn to_text(&self) -> (r: String)
        ensures
            match self {
                ShoutoutError::APIError(e) => r@ == "Failed to send shoutout: "@ + e@,
                ShoutoutError::InvalidBroadcasterId(e) => r@ == "Invalid broadcaster ID: "@ + e@,
            },
    {
        match self {
            ShoutoutError::APIError(e) => {
                let mut r = String::from_str("Failed to send shoutout: ");
                r.append(e.as_str());
                r
            },
            ShoutoutError::InvalidBroadcasterId(e) => {
                let mut r = String::from_str("Invalid broadcaster ID: ");
                r.append(e.as_str());
                r
            },
        }
    }
}

/// Checks the ids of a shoutout before it is sent: neither the sending nor
/// the receiving broadcaster's id may be empty.
pub fn check_shoutout_ids(broadcaster_id: &str, to_broadcaster_id: &str) -> (r: Result<(), ShoutoutError>)
    ensures
        broadcaster_id@.len() == 0 || to_broadcaster_id@.len() == 0 ==> (r matches Err(
            ShoutoutError::InvalidBroadcasterId(m),
        ) && m@ == "Broadcaster ID cannot be empty"@),
        broadcaster_id@.len() > 0 && to_broadcaster_id@.len() > 0 ==> r is Ok,
{
    if broadcaster_id.unicode_len() == 0 || to_broadcaster_id.unicode_len() == 0 {
        Err(ShoutoutError::InvalidBroadcasterId(String::from_str("Broadcaster ID cannot be empty")))
    } else {
        Ok(())
    }
}

/// The outcome of a shoutout once the API answered: its error becomes an
/// `APIError`.
pub fn shoutout_outcome(api: Result<(), String>) -> (r: Result<(), ShoutoutError>)
    ensures
        match api {
            Ok(()) => r is Ok,
            Err(e) => r matches Err(ShoutoutError::APIError(m)) && m == e,
        },
{
    match api {
        Ok(()) => Ok(()),
        Err(e) => Err(ShoutoutError::APIError(e)),
    }
}

} // verus!
