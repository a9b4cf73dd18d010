use vstd::prelude::*;
use crate::irc::command_system::Command;
use crate::roles::UserRole;
use crate::text::{i64_div, i64_rem, i64_to_decimal, signed_decimal, trunc_div, trunc_rem};

verus! {

/// `!uptime`: how long the stream has been live.
pub struct UptimeCommand;

impl Command for UptimeCommand {
    fn name(&self) -> (r: &'static str)
        ensures
            r@ == "!uptime"@,
    {
        "!uptime"
    }

    fn description(&self) -> (r: &'static str)
        ensures
            r@ == "Shows how long the stream has been live"@,
    {
        "Shows how long the stream has been live"
    }

    fn required_role(&self) -> (r: UserRole)
        ensures
            r == UserRole::Viewer,
    {
        UserRole::Viewer
    }
}

/// The answer for a stream live for `secs` seconds: whole hours, then the
/// minutes and seconds left over.
pub open spec fn live_for_text(secs: int) -> Seq<char> {
    "Stream has been live for "@ + signed_decimal(trunc_div(secs, 3600)) + " hours, "@
        + signed_decimal(trunc_rem(trunc_div(secs, 60), 60)) + " minutes, and "@
        + signed_decimal(trunc_rem(secs, 60)) + " seconds"@
}

impl UptimeCommand {
    /// The answer, given the live time in seconds (`Ok(None)` when offline),
    /// or the failure to read it.
    pub fn reply(&self, uptime: Result<Option<i64>, String>) -> (r: String)
        ensures
            uptime matches Ok(Some(s)) ==> r@ == live_for_text(s as int),
            uptime matches Ok(None) ==> r@ == "Stream is currently offline."@,
            uptime is Err ==> r@ == "Sorry, I couldn't retrieve the stream uptime. Please try again later."@,
    {
        match uptime {
            Ok(Some(secs)) => {
                let hours = i64_div(secs, 3600);
                let minutes = i64_rem(i64_div(secs, 60), 60);
                let seconds = i64_rem(secs, 60);
                let mut r = String::from_str("Stream has been live for ");
                r.append(i64_to_decimal(hours).as_str());
                r.append(" hours, ");
                r.append(i64_to_decimal(minutes).as_str());
                r.append(" minutes, and ");
                r.append(i64_to_decimal(seconds).as_str());
                r.append(" seconds");
                r
            },
            Ok(None) => String::from_str("Stream is currently offline."),
            Err(_) => String::from_str("Sorry, I couldn't retrieve the stream uptime. Please try again later."),
        }
    }
}

/// A stream live for `h` hours, `m` minutes and `s` seconds (`m` and `s`
/// below 60) is announced with exactly those three numbers.
pub proof fn law_live_for_parts(h: int, m: int, s: int)
    requires
        h >= 0,
        0 <= m < 60,
        0 <= s < 60,
    ensures
        live_for_text(h * 3600 + m * 60 + s) == "Stream has been live for "@ + signed_decimal(h) + " hours, "@
            + signed_decimal(m) + " minutes, and "@ + signed_decimal(s) + " seconds"@,
{
    let t = h * 3600 + m * 60 + s;
    assert(t >= 0) by (nonlinear_arith)
        requires
            h >= 0,
            0 <= m,
            0 <= s,
            t == h * 3600 + m * 60 + s,
    ;
    assert(t / 3600 == h) by (nonlinear_arith)
        requires
            h >= 0,
            0 <= m < 60,
            0 <= s < 60,
            t == h * 3600 + m * 60 + s,
    ;
    assert(t / 60 == h * 60 + m) by (nonlinear_arith)
        requires
            h >= 0,
            0 <= m < 60,
            0 <= s < 60,
            t == h * 3600 + m * 60 + s,
    ;
    assert((h * 60 + m) % 60 == m) by (nonlinear_arith)
        requires
            h >= 0,
            0 <= m < 60,
    ;
    assert(t % 60 == s) by (nonlinear_arith)
        requires
            h >= 0,
            0 <= m < 60,
            0 <= s < 60,
            t == h * 3600 + m * 60 + s,
    ;
    assert(h * 60 + m >= 0) by (nonlinear_arith)
        requires
            h >= 0,
            m >= 0,
    ;
}

} // verus!
