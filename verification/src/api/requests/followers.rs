use vstd::prelude::*;
use crate::clock::chrono_millis_in_range;

verus! {

/// A follower of the channel. `followed_at_ms` is milliseconds since the Unix epoch.
pub struct FollowerInfo {
    pub user_id: String,
    pub user_login: String,
    pub user_name: String,
    pub followed_at_ms: i64,
}

/// chrono's `DateTime::parse_from_rfc3339` of a text, read in UTC as
/// milliseconds since the Unix epoch (`timestamp_millis`), or `None` where
/// the text is not an RFC 3339 time.
pub uninterp spec fn rfc3339_millis(text: Seq<char>) -> Option<i64>;

/// Reads an RFC 3339 time with chrono, as milliseconds since the Unix epoch.
/// A parsed time lies in chrono's range.
#[verifier::external_body]
fn parse_rfc3339_millis(text: &str) -> (r: Option<i64>)
    ensures
        r == rfc3339_millis(text@),
        r matches Some(ms) ==> chrono_millis_in_range(ms as int),
{
    match chrono::DateTime::parse_from_rfc3339(text) {
        Ok(t) => Some(t.with_timezone(&chrono::Utc).timestamp_millis()),
        Err(_) => None,
    }
}

/// A follower from the fields of an API answer; an entry that lacks a field,
/// or whose follow time does not read as RFC 3339, is left out (`None`).
pub fn follower_from_fields(
    user_id: Option<&str>,
    user_login: Option<&str>,
    user_name: Option<&str>,
    followed_at: Option<&str>,
) -> (r: Option<FollowerInfo>)
    ensures
        match (user_id, user_login, user_name, followed_at) {
            (Some(id), Some(login), Some(name), Some(at)) => match rfc3339_millis(at@) {
                Some(ms) => r is Some && r->0.user_id@ == id@ && r->0.user_login@ == login@ && r->0.user_name@
                    == name@ && r->0.followed_at_ms == ms,
                None => r is None,
            },
            _ => r is None,
        },
        r matches Some(f) ==> chrono_millis_in_range(f.followed_at_ms as int),
{
    match (user_id, user_login, user_name, followed_at) {
        (Some(id), Some(login), Some(name), Some(at)) => match parse_rfc3339_millis(at) {
            Some(ms) => Some(
                FollowerInfo {
                    user_id: String::from_str(id),
                    user_login: String::from_str(login),
                    user_name: String::from_str(name),
                    followed_at_ms: ms,
                },
            ),
            None => None,
        },
        _ => None,
    }
}

/// The follower total of an API answer: its `total` cut to 32 bits (as `as u32`
/// does), 0 where it is missing.
pub fn follower_total(total: Option<u64>) -> (r: u32)
    ensures
        r == match total {
            Some(t) => t as u32,
            None => 0u32,
        },
{
    match total {
        Some(t) => t as u32,
        None => 0,
    }
}

} // verus!
