use vstd::prelude::*;
use crate::clock::{chrono_millis_in_range, utc_now_millis};
use crate::irc::command_system::Command;
use crate::keyed::KeyedList;
use crate::roles::UserRole;
use crate::text::{
    i64_div, i64_rem, i64_to_decimal, join, join_strings_from, parse_i64, parse_i64_spec,
    signed_decimal, string_from_chars, string_views, chars_of, trunc_div, trunc_rem,
};

verus! {

/// A scheduled chat ad: its text, how often it is posted, and when it stops.
pub struct AdInfo {
    pub text: String,
    pub interval_minutes: i64,
    /// Milliseconds since the Unix epoch.
    pub end_time_ms: i64,
}

/// The scheduled ads, by id.
pub struct AdManager {
    ads: KeyedList<AdInfo>,
}

/// The ads of `entries` that are still running at `now`, in order, with their ids.
pub open spec fn active_ads(entries: Seq<(String, AdInfo)>, now: int) -> Seq<(Seq<char>, AdInfo)>
    decreases entries.len(),
{
    if entries.len() == 0 {
        Seq::empty()
    } else {
        let rest = active_ads(entries.drop_last(), now);
        if entries.last().1.end_time_ms > now {
            rest.push((entries.last().0@, entries.last().1))
        } else {
            rest
        }
    }
}

/// The ids and ads of a list of active ads.
pub open spec fn ad_views(r: Seq<(String, &AdInfo)>) -> Seq<(Seq<char>, AdInfo)> {
    r.map_values(|e: (String, &AdInfo)| (e.0@, *e.1))
}

/// The end of an ad that starts at `now_ms` and runs `duration_minutes`.
pub open spec fn ad_end(now_ms: int, duration_minutes: int) -> int {
    now_ms + duration_minutes * 60000
}

impl AdManager {
    /// The ad stored under `id`.
    pub closed spec fn ad(self, id: Seq<char>) -> Option<AdInfo> {
        self.ads.get_spec(id)
    }

    /// The ads with their ids, in the order they were first added.
    pub closed spec fn entries(self) -> Seq<(String, AdInfo)> {
        self.ads.entries_view()
    }

    pub fn new() -> (r: Self)
        ensures
            forall|id: Seq<char>| r.ad(id) is None,
            r.entries().len() == 0,
    {
        AdManager { ads: KeyedList::new() }
    }

    /// Schedules an ad under `id` that started at `now_ms` and runs for
    /// `duration_minutes`; an ad of the same id is replaced.
    pub fn add_ad_at(
        &mut self,
        id: String,
        text: String,
        interval_minutes: i64,
        duration_minutes: i64,
        now_ms: i64,
    )
        requires
            chrono_millis_in_range(now_ms as int),
            chrono_millis_in_range(ad_end(now_ms as int, duration_minutes as int)),
        ensures
            final(self).ad(id@) == Some(
                AdInfo {
                    text,
                    interval_minutes,
                    end_time_ms: ad_end(now_ms as int, duration_minutes as int) as i64,
                },
            ),
            forall|k: Seq<char>| k != id@ ==> final(self).ad(k) == old(self).ad(k),
    {
        assert(-275747803200 <= duration_minutes <= 275747803200) by (nonlinear_arith)
            requires
                -16544868192000000 <= duration_minutes * 60000 <= 16544868192000000,
        ;
        let end_time_ms = now_ms + duration_minutes * 60000;
        self.ads.insert(id, AdInfo { text, interval_minutes, end_time_ms });
    }

    /// Schedules an ad under `id` that starts now and runs for
    /// `duration_minutes`. Where its end would lie outside the dates that
    /// chrono reaches, nothing is scheduled and the answer is `false`.
    pub fn add_ad(&mut self, id: String, text: String, interval_minutes: i64, duration_minutes: i64) -> (r: bool)
        ensures
            r ==> exists|now: int|
                chrono_millis_in_range(now) && chrono_millis_in_range(#[trigger] ad_end(now, duration_minutes as int))
                    && final(self).ad(id@) == Some(
                    AdInfo {
                        text,
                        interval_minutes,
                        end_time_ms: ad_end(now, duration_minutes as int) as i64,
                    },
                ),
            r ==> forall|k: Seq<char>| k != id@ ==> final(self).ad(k) == old(self).ad(k),
            !r ==> *final(self) == *old(self),
            !r ==> exists|now: int|
                chrono_millis_in_range(now) && !chrono_millis_in_range(#[trigger] ad_end(now, duration_minutes as int)),
    {
        let now_ms = utc_now_millis();
        let fits = if duration_minutes >= -275747803200 && duration_minutes <= 275747803200 {
            let end = now_ms + duration_minutes * 60000;
            -8334601228800000 <= end && end <= 8210266876799999
        } else {
            false
        };
        if fits {
            self.add_ad_at(id, text, interval_minutes, duration_minutes, now_ms);
            assert(chrono_millis_in_range(ad_end(now_ms as int, duration_minutes as int)));
            true
        } else {
            assert(!chrono_millis_in_range(ad_end(now_ms as int, duration_minutes as int))) by (nonlinear_arith)
                requires
                    !(-275747803200 <= duration_minutes <= 275747803200 && chrono_millis_in_range(
                        now_ms + duration_minutes * 60000,
                    )),
                    chrono_millis_in_range(now_ms as int),
                    ad_end(now_ms as int, duration_minutes as int) == now_ms + duration_minutes * 60000,
            ;
            false
        }
    }

    /// Removes the ad stored under `id`; whether there was one.
    pub fn remove_ad(&mut self, id: &str) -> (r: bool)
        ensures
            r == old(self).ad(id@) is Some,
            final(self).ad(id@) is None,
            forall|k: Seq<char>| k != id@ ==> final(self).ad(k) == old(self).ad(k),
    {
        self.ads.remove(id).is_some()
    }

    /// Removes every ad.
    pub fn clear_ads(&mut self)
        ensures
            forall|id: Seq<char>| final(self).ad(id) is None,
            final(self).entries().len() == 0,
    {
        self.ads.clear()
    }

    /// The ads still running at `now_ms` (their end lies after it), with their ids.
    pub fn get_active_ads_at(&self, now_ms: i64) -> (r: Vec<(String, &AdInfo)>)
        ensures
            ad_views(r@) == active_ads(self.entries(), now_ms as int),
    {
        let n = self.ads.len();
        let mut r: Vec<(String, &AdInfo)> = Vec::new();
        let mut i: usize = 0;
        let ghost all = self.entries();
        assert(all.take(0) =~= Seq::<(String, AdInfo)>::empty());
        while i < n
            invariant
                i <= n,
                n == all.len(),
                all == self.entries(),
                ad_views(r@) == active_ads(all.take(i as int), now_ms as int),
            decreases n - i,
        {
            let e = self.ads.entry(i);
            assert(all.take(i + 1).drop_last() =~= all.take(i as int));
            assert(all.take(i + 1).last() == *e);
            if e.1.end_time_ms > now_ms {
                let ghost before = r@;
                r.push((e.0.clone(), &e.1));
                assert(ad_views(r@) =~= ad_views(before).push((e.0@, e.1)));
            }
            i = i + 1;
        }
        assert(all.take(n as int) =~= all);
        r
    }

    /// The ads still running now, with their ids.
    pub fn get_active_ads(&self) -> (r: Vec<(String, &AdInfo)>)
        ensures
            exists|now: int| chrono_millis_in_range(now) && ad_views(r@) == #[trigger] active_ads(self.entries(), now),
    {
        let now_ms = utc_now_millis();
        self.get_active_ads_at(now_ms)
    }

    /// What the posting loop of ad `id` does at `now_ms`: post its text while
    /// the ad exists and has not ended; `None` ends the loop.
    pub fn due_message_at(&self, id: &str, now_ms: i64) -> (r: Option<String>)
        ensures
            match self.ad(id@) {
                Some(info) => if now_ms < info.end_time_ms {
                    r is Some && r->0@ == info.text@
                } else {
                    r is None
                },
                None => r is None,
            },
    {
        match self.ads.get(id) {
            Some(info) => if now_ms < info.end_time_ms {
                Some(info.text.clone())
            } else {
                None
            },
            None => None,
        }
    }
}

/// `!startad <interval_minutes> <duration_minutes> <ad_text>`: posts a text in
/// the chat at an interval, for a while.
pub struct StartAdCommand;

/// `!stopads`: stops every scheduled ad.
pub struct StopAdsCommand;

impl Command for StartAdCommand {
    fn name(&self) -> (r: &'static str)
        ensures
            r@ == "!startad"@,
    {
        "!startad"
    }

    fn description(&self) -> (r: &'static str)
        ensures
            r@ == "Starts a scheduled ad. Usage: !startad <interval_minutes> <duration_minutes> <ad_text>"@,
    {
        "Starts a scheduled ad. Usage: !startad <interval_minutes> <duration_minutes> <ad_text>"
    }

    fn required_role(&self) -> (r: UserRole)
        ensures
            r == UserRole::Moderator,
    {
        UserRole::Moderator
    }
}

impl Command for StopAdsCommand {
    fn name(&self) -> (r: &'static str)
        ensures
            r@ == "!stopads"@,
    {
        "!stopads"
    }

    fn description(&self) -> (r: &'static str)
        ensures
            r@ == "Stops all running ads"@,
    {
        "Stops all running ads"
    }

    fn required_role(&self) -> (r: UserRole)
        ensures
            r == UserRole::Moderator,
    {
        UserRole::Moderator
    }
}

/// What `!startad` does with its arguments.
pub enum StartAdPlan {
    /// Answer with the usage line.
    Usage(String),
    /// A count is not an `i64`: the command fails.
    InvalidNumber,
    /// Schedule `text` every `interval_minutes` for `duration_minutes`.
    Schedule { interval_minutes: i64, duration_minutes: i64, text: String },
}

/// An ad that `!startad` scheduled.
pub struct StartedAd {
    /// The id it is stored under.
    pub ad_id: String,
    /// The pause between two posts, in seconds.
    pub sleep_seconds: u64,
    /// The answer in the chat.
    pub reply: String,
}

/// The whole seconds since the Unix epoch of a time in milliseconds
/// (chrono's `timestamp`, rounded down).
fn unix_seconds(ms: i64) -> (r: i64)
    ensures
        r == (ms as int) / 1000,
{
    let q = i64_div(ms, 1000);
    let rem = i64_rem(ms, 1000);
    proof {
        let a = ms as int;
        if a >= 0 {
            assert(q == a / 1000);
        } else {
            let b = -a;
            assert(q == -(b / 1000));
            assert(rem == a + (b / 1000) * 1000);
            assert(b == (b / 1000) * 1000 + b % 1000) by (nonlinear_arith);
            if b % 1000 == 0 {
                assert(a == -(b / 1000) * 1000) by (nonlinear_arith)
                    requires b == (b / 1000) * 1000 + b % 1000, b % 1000 == 0, a == -b;
                assert(a / 1000 == -(b / 1000)) by (nonlinear_arith)
                    requires a == -(b / 1000) * 1000;
            } else {
                assert(a == (-(b / 1000) - 1) * 1000 + (1000 - b % 1000)) by (nonlinear_arith)
                    requires b == (b / 1000) * 1000 + b % 1000, a == -b;
                assert(a / 1000 == -(b / 1000) - 1) by (nonlinear_arith)
                    requires a == (-(b / 1000) - 1) * 1000 + (1000 - b % 1000), 0 < b % 1000 < 1000;
            }
        }
    }
    if rem < 0 {
        q - 1
    } else {
        q
    }
}

impl StartAdCommand {
    /// Reads the arguments: two counts of minutes, then the ad's text, the
    /// remaining arguments joined by spaces.
    pub fn plan(&self, args: &Vec<String>) -> (r: StartAdPlan)
        ensures
            args@.len() < 3 ==> r is Usage && r->Usage_0@
                == "Usage: !startad <interval_minutes> <duration_minutes> <ad_text>"@,
            args@.len() >= 3 ==> match (parse_i64_spec(args@[0]@), parse_i64_spec(args@[1]@)) {
                (Some(interval), Some(duration)) => r is Schedule && r->interval_minutes == interval
                    && r->duration_minutes == duration && r->text@ == join(
                    string_views(args@).skip(2),
                    " "@,
                ),
                _ => r is InvalidNumber,
            },
    {
        if args.len() < 3 {
            return StartAdPlan::Usage(
                String::from_str("Usage: !startad <interval_minutes> <duration_minutes> <ad_text>"),
            );
        }
        let first = chars_of(args[0].as_str());
        let interval_minutes = match parse_i64(first.as_slice()) {
            Some(v) => v,
            None => return StartAdPlan::InvalidNumber,
        };
        let second = chars_of(args[1].as_str());
        let duration_minutes = match parse_i64(second.as_slice()) {
            Some(v) => v,
            None => return StartAdPlan::InvalidNumber,
        };
        let joined = join_strings_from(args, 2, " ");
        StartAdPlan::Schedule { interval_minutes, duration_minutes, text: string_from_chars(joined.as_slice()) }
    }

    /// Schedules the ad at `now_ms` under the id `ad_<seconds since the epoch>`,
    /// and gives the pause between posts and the answer.
    pub fn schedule_at(
        &self,
        manager: &mut AdManager,
        interval_minutes: i64,
        duration_minutes: i64,
        text: String,
        now_ms: i64,
    ) -> (r: StartedAd)
        requires
            chrono_millis_in_range(now_ms as int),
            chrono_millis_in_range(ad_end(now_ms as int, duration_minutes as int)),
            i64::MIN <= interval_minutes * 60 <= i64::MAX,
        ensures
            r.ad_id@ == "ad_"@ + signed_decimal((now_ms as int) / 1000),
            final(manager).ad(r.ad_id@) == Some(
                AdInfo {
                    text,
                    interval_minutes,
                    end_time_ms: ad_end(now_ms as int, duration_minutes as int) as i64,
                },
            ),
            forall|k: Seq<char>| k != r.ad_id@ ==> final(manager).ad(k) == old(manager).ad(k),
            r.sleep_seconds == (interval_minutes * 60) as u64,
            r.reply@ == "Ad started: will run every "@ + signed_decimal(interval_minutes as int)
                + " minutes for "@ + signed_decimal(duration_minutes as int) + " minutes"@,
    {
        let mut ad_id = String::from_str("ad_");
        ad_id.append(i64_to_decimal(unix_seconds(now_ms)).as_str());
        let key = ad_id.clone();
        manager.add_ad_at(key, text, interval_minutes, duration_minutes, now_ms);
        let mut reply = String::from_str("Ad started: will run every ");
        reply.append(i64_to_decimal(interval_minutes).as_str());
        reply.append(" minutes for ");
        reply.append(i64_to_decimal(duration_minutes).as_str());
        reply.append(" minutes");
        let sleep_seconds = (interval_minutes * 60) as u64;
        StartedAd { ad_id, sleep_seconds, reply }
    }

    /// Schedules the ad now. Where the ad would end outside the dates that
    /// chrono reaches, or the interval in seconds overflows an `i64`, nothing
    /// is scheduled and the answer is `None`.
    pub fn schedule(
        &self,
        manager: &mut AdManager,
        interval_minutes: i64,
        duration_minutes: i64,
        text: String,
    ) -> (r: Option<StartedAd>)
        ensures
            match r {
                Some(started) => exists|now: int|
                    chrono_millis_in_range(now) && chrono_millis_in_range(#[trigger] ad_end(now, duration_minutes as int))
                        && started.ad_id@ == "ad_"@ + signed_decimal(now / 1000)
                        && final(manager).ad(started.ad_id@) == Some(
                        AdInfo {
                            text,
                            interval_minutes,
                            end_time_ms: ad_end(now, duration_minutes as int) as i64,
                        },
                    ) && (forall|k: Seq<char>| k != started.ad_id@ ==> final(manager).ad(k) == old(manager).ad(k))
                        && started.sleep_seconds == (interval_minutes * 60) as u64
                        && started.reply@ == "Ad started: will run every "@ + signed_decimal(
                        interval_minutes as int,
                    ) + " minutes for "@ + signed_decimal(duration_minutes as int) + " minutes"@,
                None => *final(manager) == *old(manager) && (!(i64::MIN <= interval_minutes * 60 <= i64::MAX)
                    || exists|now: int|
                    chrono_millis_in_range(now) && !chrono_millis_in_range(#[trigger] ad_end(now, duration_minutes as int))),
            },
    {
        let now_ms = utc_now_millis();
        let interval_fits = interval_minutes >= -153722867280912930 && interval_minutes <= 153722867280912930;
        let end_fits = if duration_minutes >= -275747803200 && duration_minutes <= 275747803200 {
            let end = now_ms + duration_minutes * 60000;
            -8334601228800000 <= end && end <= 8210266876799999
        } else {
            false
        };
        assert(!end_fits ==> !chrono_millis_in_range(ad_end(now_ms as int, duration_minutes as int))) by (nonlinear_arith)
            requires
                end_fits == (-275747803200 <= duration_minutes <= 275747803200 && chrono_millis_in_range(
                    ad_end(now_ms as int, duration_minutes as int),
                )),
                chrono_millis_in_range(now_ms as int),
        ;
        if interval_fits && end_fits {
            let started = self.schedule_at(manager, interval_minutes, duration_minutes, text, now_ms);
            assert(chrono_millis_in_range(ad_end(now_ms as int, duration_minutes as int)));
            Some(started)
        } else {
            None
        }
    }
}

impl StopAdsCommand {
    /// Stops every ad, and gives the answer.
    pub fn stop(&self, manager: &mut AdManager) -> (r: String)
        ensures
            forall|id: Seq<char>| final(manager).ad(id) is None,
            r@ == "All ads have been stopped."@,
    {
        manager.clear_ads();
        String::from_str("All ads have been stopped.")
    }
}

} // verus!

verus! {

/// An ad scheduled at `now_ms` for `duration_minutes` is posted by its loop
/// at every time before its end, and its loop stops at its end and after.
pub proof fn law_ad_runs_until_its_end(
    before: AdManager,
    after: AdManager,
    id: Seq<char>,
    text: String,
    interval_minutes: i64,
    duration_minutes: i64,
    now_ms: int,
    t: int,
)
    requires
        after.ad(id) == Some(
            AdInfo { text, interval_minutes, end_time_ms: ad_end(now_ms, duration_minutes as int) as i64 },
        ),
        chrono_millis_in_range(ad_end(now_ms, duration_minutes as int)),
    ensures
        t < ad_end(now_ms, duration_minutes as int) ==> (after.ad(id) matches Some(info) && t < info.end_time_ms
            && info.text == text),
        t >= ad_end(now_ms, duration_minutes as int) ==> (after.ad(id) matches Some(info) && !(t < info.end_time_ms)),
{
}

} // verus!
