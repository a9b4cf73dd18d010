use vstd::prelude::*;
use crate::text::{chars_of, lowercase, split_whitespace, str_equal, to_lowercase, trim, trim_string, views, words};

verus! {

/// The commands that the simple message loop answers.
#[derive(Debug, Clone, Copy, PartialEq, Eq, Structural)]
pub enum Route {
    Uptime,
    World,
    Hello,
    Ignore,
}

/// Which command a chat line asks the simple loop for: its first word,
/// once the line is trimmed and lowercased.
pub open spec fn route_of(text: Seq<char>) -> Route {
    let ws = words(lowercase(trim(text)));
    if ws.len() == 0 {
        Route::Ignore
    } else if ws[0] == "!uptime"@ {
        Route::Uptime
    } else if ws[0] == "!world"@ {
        Route::World
    } else if ws[0] == "!hello"@ {
        Route::Hello
    } else {
        Route::Ignore
    }
}

/// Which command a chat line asks the simple loop for.
pub fn route_message(text: &str) -> (r: Route)
    ensures
        r == route_of(text@),
{
    let trimmed = trim_string(text);
    let lower = to_lowercase(trimmed.as_str());
    let cs = chars_of(lower.as_str());
    let ws = split_whitespace(cs.as_slice());
    if ws.len() == 0 {
        return Route::Ignore;
    }
    let first = crate::text::string_from_chars(ws[0].as_slice());
    assert(first@ == views(ws@)[0]);
    if str_equal(first.as_str(), "!uptime") {
        Route::Uptime
    } else if str_equal(first.as_str(), "!world") {
        Route::World
    } else if str_equal(first.as_str(), "!hello") {
        Route::Hello
    } else {
        Route::Ignore
    }
}

/// The greeting for `!hello`.
pub fn hello_reply(user_name: &str) -> (r: String)
    ensures
        r@ == "Hello, "@ + user_name@ + "! Welcome to the stream!"@,
{
    let mut r = String::from_str("Hello, ");
    r.append(user_name);
    r.append("! Welcome to the stream!");
    r
}

} // verus!
