use vstd::prelude::*;
use crate::clock::chrono_millis_in_range;
use crate::text::{
    chars_of, i64_div, i64_rem, i64_to_decimal, join, join_strings, signed_decimal, string_from_chars,
    string_views, trim_start_char, trim_start_matches_char, trunc_div, trunc_rem,
};

verus! {

/// One part of a follow age: `<n> <unit>`, with an `s` when `plural`.
pub open spec fn age_part(n: int, unit: Seq<char>, plural: bool) -> Seq<char> {
    signed_decimal(n) + " "@ + unit + (if plural { "s"@ } else { Seq::<char>::empty() })
}

/// `parts` with `part` added where `keep` holds.
pub open spec fn push_if(parts: Seq<Seq<char>>, keep: bool, part: Seq<char>) -> Seq<Seq<char>> {
    if keep { parts.push(part) } else { parts }
}

/// The parts of a follow age of `d` milliseconds: whole years of 365 days,
/// months of 30 days within the year, days within a 30-day count, then hours,
/// minutes and seconds, each only where it is positive, and the seconds also
/// where nothing came before.
pub open spec fn age_parts(d: int) -> Seq<Seq<char>> {
    let days = trunc_div(d, 86400000);
    let years = trunc_div(days, 365);
    let months = trunc_div(trunc_rem(days, 365), 30);
    let dd = trunc_rem(days, 30);
    let hours = trunc_rem(trunc_div(d, 3600000), 24);
    let minutes = trunc_rem(trunc_div(d, 60000), 60);
    let seconds = trunc_rem(trunc_div(d, 1000), 60);
    let p1 = push_if(Seq::empty(), years > 0, age_part(years, "year"@, years > 1));
    let p2 = push_if(p1, months > 0, age_part(months, "month"@, months > 1));
    let p3 = push_if(p2, dd > 0, age_part(dd, "day"@, dd > 1));
    let p4 = push_if(p3, hours > 0, age_part(hours, "hour"@, hours > 1));
    let p5 = push_if(p4, minutes > 0, age_part(minutes, "minute"@, minutes > 1));
    push_if(p5, seconds > 0 || p5.len() == 0, age_part(seconds, "second"@, seconds != 1))
}

/// Parts joined as English lists them: `a`, `a and b`, `a, b, and c`.
pub open spec fn english_list(parts: Seq<Seq<char>>) -> Seq<char> {
    if parts.len() == 0 {
        "0 seconds"@
    } else if parts.len() == 1 {
        parts[0]
    } else if parts.len() == 2 {
        parts[0] + " and "@ + parts[1]
    } else {
        join(parts.drop_last(), ", "@) + ", and "@ + parts.last()
    }
}

/// A follow age names between one and six parts, and at most five (no
/// years) below 365 days; under a second it reads `0 seconds`.
pub proof fn law_follow_age_parts(d: int)
    requires
        d >= 0,
    ensures
        1 <= age_parts(d).len() <= 6,
        d < 365 * 86400000 ==> age_parts(d).len() <= 5,
        d < 1000 ==> english_list(age_parts(d)) == age_part(0, "second"@, true),
{
    let days = trunc_div(d, 86400000);
    assert(days == d / 86400000);
    if d < 365 * 86400000 {
        assert(days < 365);
        assert(trunc_div(days, 365) == 0);
    }
    if d < 1000 {
        assert(days == 0);
        assert(trunc_div(d, 3600000) == 0);
        assert(trunc_div(d, 60000) == 0);
        assert(trunc_div(d, 1000) == 0);
    }
}

fn push_part(parts: &mut Vec<String>, n: i64, unit: &str, plural: bool)
    ensures
        string_views(final(parts)@) == string_views(old(parts)@).push(age_part(n as int, unit@, plural)),
{
    let mut p = i64_to_decimal(n);
    p.append(" ");
    p.append(unit);
    if plural {
        p.append("s");
    }
    let ghost before = parts@;
    parts.push(p);
    assert(string_views(parts@) =~= string_views(before).push(age_part(n as int, unit@, plural)));
}

/// How long someone has followed: the time from `start_ms` to `end_ms`
/// (milliseconds since the Unix epoch), in words.
pub fn format_duration(start_ms: i64, end_ms: i64) -> (r: String)
    requires
        chrono_millis_in_range(start_ms as int),
        chrono_millis_in_range(end_ms as int),
    ensures
        r@ == english_list(age_parts(end_ms - start_ms)),
{
    let d = end_ms - start_ms;
    let days = i64_div(d, 86400000);
    let years = i64_div(days, 365);
    let months = i64_div(i64_rem(days, 365), 30);
    let dd = i64_rem(days, 30);
    let hours = i64_rem(i64_div(d, 3600000), 24);
    let minutes = i64_rem(i64_div(d, 60000), 60);
    let seconds = i64_rem(i64_div(d, 1000), 60);
    let mut parts: Vec<String> = Vec::new();
    let ghost p0 = string_views(parts@);
    assert(p0 =~= Seq::<Seq<char>>::empty());
    if years > 0 {
        push_part(&mut parts, years, "year", years > 1);
    }
    let ghost p1 = string_views(parts@);
    if months > 0 {
        push_part(&mut parts, months, "month", months > 1);
    }
    let ghost p2 = string_views(parts@);
    if dd > 0 {
        push_part(&mut parts, dd, "day", dd > 1);
    }
    let ghost p3 = string_views(parts@);
    if hours > 0 {
        push_part(&mut parts, hours, "hour", hours > 1);
    }
    let ghost p4 = string_views(parts@);
    if minutes > 0 {
        push_part(&mut parts, minutes, "minute", minutes > 1);
    }
    let ghost p5 = string_views(parts@);
    if seconds > 0 || parts.len() == 0 {
        push_part(&mut parts, seconds, "second", seconds != 1);
    }
    let ghost all = string_views(parts@);
    assert(all == age_parts(d as int));
    let n = parts.len();
    if n == 0 {
        String::from_str("0 seconds")
    } else if n == 1 {
        parts[0].clone()
    } else if n == 2 {
        let mut r = parts[0].clone();
        r.append(" and ");
        r.append(parts[1].as_str());
        r
    } else {
        let last = parts.pop().unwrap();
        assert(string_views(parts@) =~= all.drop_last());
        let joined = join_strings(&parts, ", ");
        let mut r = string_from_chars(joined.as_slice());
        r.append(", and ");
        r.append(last.as_str());
        r
    }
}

/// The answer to the follower count: the count, or which lookup failed.
pub fn followers_reply(sender_name: &str, count: Result<Result<u32, String>, String>) -> (r: String)
    ensures
        match count {
            Ok(Ok(n)) => r@ == "@"@ + sender_name@ + ", the channel currently has "@ + crate::text::decimal(n as nat)
                + " followers!"@,
            Ok(Err(_)) => r@ == "Sorry, I couldn't retrieve the follower count at the moment."@,
            Err(_) => r@ == "Sorry, I couldn't retrieve the channel information at the moment."@,
        },
{
    match count {
        Ok(Ok(n)) => {
            let mut r = String::from_str("@");
            r.append(sender_name);
            r.append(", the channel currently has ");
            r.append(crate::text::u64_to_decimal(n as u64).as_str());
            r.append(" followers!");
            r
        },
        Ok(Err(_)) => String::from_str("Sorry, I couldn't retrieve the follower count at the moment."),
        Err(_) => String::from_str("Sorry, I couldn't retrieve the channel information at the moment."),
    }
}

/// Whose follow age is asked: the first argument without its leading `@`s,
/// or the chatter who asked.
pub fn followage_target(params: &Vec<String>, sender_name: &str) -> (r: String)
    ensures
        params@.len() > 0 ==> r@ == trim_start_char(params@[0]@, '@'),
        params@.len() == 0 ==> r@ == sender_name@,
{
    if params.len() > 0 {
        let cs = chars_of(params[0].as_str());
        let t = trim_start_matches_char(cs.as_slice(), '@');
        string_from_chars(t.as_slice())
    } else {
        String::from_str(sender_name)
    }
}

/// What the follow-age lookup found.
pub enum FollowAgeLookup {
    /// The user could not be looked up.
    UserUnknown,
    /// The follow information could not be fetched.
    InfoUnavailable,
    /// The user does not follow the channel.
    NotFollowing,
    /// The user follows since this time (milliseconds since the Unix epoch).
    FollowingSince(i64),
}

/// The answer to a follow-age question about `target`, asked at `now_ms`.
pub fn followage_reply(sender_name: &str, target: &str, lookup: FollowAgeLookup, now_ms: i64) -> (r: String)
    requires
        chrono_millis_in_range(now_ms as int),
        lookup matches FollowAgeLookup::FollowingSince(t) ==> chrono_millis_in_range(t as int),
    ensures
        match lookup {
            FollowAgeLookup::UserUnknown => r@ == "Sorry, I couldn't retrieve information for user "@ + target@ + "."@,
            FollowAgeLookup::InfoUnavailable => r@ == "Sorry, I couldn't retrieve follow information for "@ + target@
                + "."@,
            FollowAgeLookup::NotFollowing => r@ == "@"@ + sender_name@ + ", "@ + target@
                + " is not following this channel."@,
            FollowAgeLookup::FollowingSince(t) => r@ == "@"@ + sender_name@ + ", "@ + target@
                + " has been following the channel for "@ + english_list(age_parts(now_ms - t)) + "!"@,
        },
{
    match lookup {
        FollowAgeLookup::UserUnknown => {
            let mut r = String::from_str("Sorry, I couldn't retrieve information for user ");
            r.append(target);
            r.append(".");
            r
        },
        FollowAgeLookup::InfoUnavailable => {
            let mut r = String::from_str("Sorry, I couldn't retrieve follow information for ");
            r.append(target);
            r.append(".");
            r
        },
        FollowAgeLookup::NotFollowing => {
            let mut r = String::from_str("@");
            r.append(sender_name);
            r.append(", ");
            r.append(target);
            r.append(" is not following this channel.");
            r
        },
        FollowAgeLookup::FollowingSince(t) => {
            let mut r = String::from_str("@");
            r.append(sender_name);
            r.append(", ");
            r.append(target);
            r.append(" has been following the channel for ");
            r.append(format_duration(t, now_ms).as_str());
            r.append("!");
            r
        },
    }
}

} // verus!

