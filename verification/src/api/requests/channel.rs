use vstd::prelude::*;

verus! {

/// Why a channel request failed.
#[derive(Debug)]
pub enum ChannelError {
    /// The API answered with an error (its text).
    APIError(String),
    /// The answer could not be read.
    ParseError,
    /// Anything else (its text).
    Other(String),
}

impl ChannelError {
    /// The error as it prints.
    pub fn to_text(&self) -> (r: String)
        ensures
            match self {
                ChannelError::APIError(e) => r@ == "API error: "@ + e@,
                ChannelError::ParseError => r@ == "Failed to parse channel information"@,
                ChannelError::Other(e) => r@ == "Other error: "@ + e@,
            },
    {
        match self {
            ChannelError::APIError(e) => {
                let mut r = String::from_str("API error: ");
                r.append(e.as_str());
                r
            },
            ChannelError::ParseError => String::from_str("Failed to parse channel information"),
            ChannelError::Other(e) => {
                let mut r = String::from_str("Other error: ");
                r.append(e.as_str());
                r
            },
        }
    }
}

/// A clip of a channel.
#[derive(Debug, Clone)]
pub struct Clip {
    pub title: String,
    pub url: String,
}

impl Clip {
    /// A clip from the `title` and `url` texts of an API answer; either one
    /// missing is a parse error.
    pub fn try_from_fields(title: Option<&str>, url: Option<&str>) -> (r: Result<Clip, ChannelError>)
        ensures
            match (title, url) {
                (Some(t), Some(u)) => r is Ok && r->Ok_0.title@ == t@ && r->Ok_0.url@ == u@,
                _ => r matches Err(ChannelError::ParseError),
            },
    {
        match (title, url) {
            (Some(t), Some(u)) => Ok(Clip { title: String::from_str(t), url: String::from_str(u) }),
            _ => Err(ChannelError::ParseError),
        }
    }
}

} // verus!
