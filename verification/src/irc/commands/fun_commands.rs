use vstd::prelude::*;
use crate::clock::{ce_day_number, chrono_year_in_range, day_in_year, day_number, lemma_year_length, utc_today};
use crate::irc::command_system::Command;
use crate::roles::UserRole;
use crate::text::{i64_to_decimal, signed_decimal, trim, trim_string};

verus! {

/// `!isitfriday`.
pub struct IsItFridayCommand;

/// `!xmas`: the days left until Christmas.
pub struct XmasCommand;

impl Command for IsItFridayCommand {
    fn name(&self) -> (r: &'static str)
        ensures
            r@ == "!isitfriday"@,
    {
        "!isitfriday"
    }

    fn description(&self) -> (r: &'static str)
        ensures
            r@ == "Check if it's Friday and get a fun message"@,
    {
        "Check if it's Friday and get a fun message"
    }

    fn required_role(&self) -> (r: UserRole)
        ensures
            r == UserRole::Viewer,
    {
        UserRole::Viewer
    }
}

impl Command for XmasCommand {
    fn name(&self) -> (r: &'static str)
        ensures
            r@ == "!xmas"@,
    {
        "!xmas"
    }

    fn description(&self) -> (r: &'static str)
        ensures
            r@ == "Find out how many days until Christmas"@,
    {
        "Find out how many days until Christmas"
    }

    fn required_role(&self) -> (r: UserRole)
        ensures
            r == UserRole::Viewer,
    {
        UserRole::Viewer
    }
}

/// The short English name of a weekday counted from Monday as 0, as chrono prints `Weekday`.
pub open spec fn weekday_text(day: u32) -> Seq<char> {
    if day == 0 {
        "Mon"@
    } else if day == 1 {
        "Tue"@
    } else if day == 2 {
        "Wed"@
    } else if day == 3 {
        "Thu"@
    } else if day == 4 {
        "Fri"@
    } else if day == 5 {
        "Sat"@
    } else {
        "Sun"@
    }
}

pub fn weekday_name(day: u32) -> (r: &'static str)
    requires
        day < 7,
    ensures
        r@ == weekday_text(day),
{
    if day == 0 {
        "Mon"
    } else if day == 1 {
        "Tue"
    } else if day == 2 {
        "Wed"
    } else if day == 3 {
        "Thu"
    } else if day == 4 {
        "Fri"
    } else if day == 5 {
        "Sat"
    } else {
        "Sun"
    }
}

/// chrono's names of the weekdays, Monday first.
pub open spec fn chrono_weekday_names() -> Seq<Seq<char>> {
    seq!["Mon"@, "Tue"@, "Wed"@, "Thu"@, "Fri"@, "Sat"@, "Sun"@]
}

/// Day `d` of the week (Monday = 0) is named as chrono names it, the `d`-th
/// of Mon, Tue, Wed, Thu, Fri, Sat, Sun; no two days share a name, and only
/// day 4 is Friday.
pub proof fn law_weekday_names(d: u32, e: u32)
    requires
        d < 7,
        e < 7,
    ensures
        weekday_text(d) == chrono_weekday_names()[d as int],
        d != e ==> weekday_text(d) != weekday_text(e),
        (weekday_text(d) == "Fri"@) == (d == 4),
{
    reveal_strlit("Mon");
    reveal_strlit("Tue");
    reveal_strlit("Wed");
    reveal_strlit("Thu");
    reveal_strlit("Fri");
    reveal_strlit("Sat");
    reveal_strlit("Sun");
    assert("Mon"@[0] != "Tue"@[0]);
    assert("Mon"@[0] != "Wed"@[0]);
    assert("Mon"@[0] != "Thu"@[0]);
    assert("Mon"@[0] != "Fri"@[0]);
    assert("Mon"@[0] != "Sat"@[0]);
    assert("Mon"@[0] != "Sun"@[0]);
    assert("Tue"@[0] != "Wed"@[0]);
    assert("Tue"@[1] != "Thu"@[1]);
    assert("Tue"@[0] != "Fri"@[0]);
    assert("Tue"@[0] != "Sat"@[0]);
    assert("Tue"@[0] != "Sun"@[0]);
    assert("Wed"@[0] != "Thu"@[0]);
    assert("Wed"@[0] != "Fri"@[0]);
    assert("Wed"@[0] != "Sat"@[0]);
    assert("Wed"@[0] != "Sun"@[0]);
    assert("Thu"@[0] != "Fri"@[0]);
    assert("Thu"@[0] != "Sat"@[0]);
    assert("Thu"@[0] != "Sun"@[0]);
    assert("Fri"@[0] != "Sat"@[0]);
    assert("Fri"@[0] != "Sun"@[0]);
    assert("Sat"@[1] != "Sun"@[1]);
}

/// Whether a weekday counted from Monday as 0 is Friday.
pub fn is_friday(day: u32) -> (r: bool)
    ensures
        r == (day == 4),
{
    day == 4
}

/// The message used when no AI text is available.
pub fn default_friday_message(is_friday: bool, current_day: u32) -> (r: String)
    requires
        current_day < 7,
    ensures
        is_friday ==> r@ == "It's Friday! Time to celebrate! 🎉"@,
        !is_friday ==> r@ == "It's "@ + weekday_text(current_day) + "... Not Friday yet... 😔 But we're getting there!"@,
{
    if is_friday {
        String::from_str("It's Friday! Time to celebrate! 🎉")
    } else {
        let mut r = String::from_str("It's ");
        r.append(weekday_name(current_day));
        r.append("... Not Friday yet... 😔 But we're getting there!");
        r
    }
}

/// What the AI is asked to write.
pub fn friday_prompt(is_friday: bool, current_day: u32) -> (r: String)
    requires
        current_day < 7,
    ensures
        is_friday ==> r@ == "Generate a joyful, exuberant celebratory message about it being Friday today. Keep it short and fun!"@,
        !is_friday ==> r@ == "Generate a meek, slightly disappointed message about it being "@ + weekday_text(current_day)
            + " and not Friday yet. Keep it short and a bit humorous!"@,
{
    if is_friday {
        String::from_str("Generate a joyful, exuberant celebratory message about it being Friday today. Keep it short and fun!")
    } else {
        let mut r = String::from_str("Generate a meek, slightly disappointed message about it being ");
        r.append(weekday_name(current_day));
        r.append(" and not Friday yet. Keep it short and a bit humorous!");
        r
    }
}

/// The chat message made of an AI reply, or of the default where the AI failed.
pub fn message_from_ai(reply: Result<String, String>, default: String) -> (r: String)
    ensures
        reply matches Ok(m) ==> r@ == trim(m@),
        reply is Err ==> r == default,
{
    match reply {
        Ok(m) => trim_string(m.as_str()),
        Err(_) => default,
    }
}

/// The message used when no AI text is available.
pub fn default_xmas_message(days_until_christmas: i64) -> (r: String)
    ensures
        r@ == signed_decimal(days_until_christmas as int) + " days until Christmas! 🎄🎅"@,
{
    let mut r = i64_to_decimal(days_until_christmas);
    r.append(" days until Christmas! 🎄🎅");
    r
}

/// What the AI is asked to write.
pub fn xmas_prompt(days_until_christmas: i64) -> (r: String)
    ensures
        r@ == "Generate a very short, fun message about there being "@ + signed_decimal(days_until_christmas as int)
            + " days until Christmas. Keep it under 100 characters!"@,
{
    let mut r = String::from_str("Generate a very short, fun message about there being ");
    r.append(i64_to_decimal(days_until_christmas).as_str());
    r.append(" days until Christmas. Keep it under 100 characters!");
    r
}

/// The days from the day numbered `today` (in `year`) to the next Christmas:
/// this year's when it is today or still to come, next year's otherwise.
pub open spec fn days_until_christmas_spec(year: int, today: int) -> int {
    let this_year = ce_day_number(year, 12, 25).unwrap();
    if this_year - today >= 0 {
        this_year - today
    } else {
        ce_day_number(year + 1, 12, 25).unwrap() - today
    }
}

/// Whether the day numbered `today` lies after the Christmas of chrono's
/// last year, the last Christmas that chrono can name.
pub open spec fn past_last_christmas(today: int) -> bool {
    ce_day_number(262142, 12, 25) matches Some(c) && today > c
}

/// The days from the day numbered `today` of `year` to the next Christmas;
/// `None` where that Christmas lies past chrono's last year.
pub fn days_until_christmas_at(year: i32, today: i32) -> (r: Option<i64>)
    requires
        chrono_year_in_range(year as int),
    ensures
        match r {
            None => year == 262142 && past_last_christmas(today as int),
            Some(d) => !(year == 262142 && past_last_christmas(today as int)) && d
                == days_until_christmas_spec(year as int, today as int),
        },
        day_in_year(year as int, today as int) ==> (r matches Some(d) ==> 0 <= d <= 365),
{
    let this_year = match day_number(year, 12, 25) {
        Some(n) => n,
        None => {
            return None;
        },
    };
    let days = this_year as i64 - today as i64;
    proof {
        lemma_year_length(year as int);
    }
    if days < 0 {
        if year >= 262142 {
            return None;
        }
        proof {
            lemma_year_length(year + 1);
        }
        match day_number(year + 1, 12, 25) {
            Some(n) => Some(n as i64 - today as i64),
            None => None,
        }
    } else {
        Some(days)
    }
}

/// The days until the next Christmas, by today's UTC date, from 0 to 365;
/// `None` only in the last days of chrono's last year, past its Christmas,
/// when the next one lies beyond the dates chrono can name.
pub fn calculate_days_until_christmas() -> (r: Option<i64>)
    ensures
        r matches Some(d) ==> 0 <= d <= 365,
        r matches Some(d) ==> exists|year: int, today: int|
            chrono_year_in_range(year) && day_in_year(year, today) && d == #[trigger] days_until_christmas_spec(
                year,
                today,
            ),
        r is None ==> exists|today: int| day_in_year(262142, today) && #[trigger] past_last_christmas(today),
{
    let (year, _weekday, today) = utc_today();
    days_until_christmas_at(year, today)
}

} // verus!
