use vstd::prelude::*;
use crate::eventsub::events::notifications::{tier_label, tier_name};
use crate::clock::utc_now_millis;
use crate::keyed::KeyedList;
use crate::text::{decimal, join, str_equal, u64_to_decimal};

verus! {

/// An ended subscription waiting to be announced.
pub struct SubEndInfo {
    pub tier: String,
    pub months: u64,
}

/// Ended subscriptions are announced together, at most once per this many milliseconds.
pub const BATCH_WINDOW_MS: i64 = 5000;

/// The ended subscriptions, grouped by tier in the order the tiers first
/// appear, each group listing its users in order.
pub open spec fn tier_groups(pending: Seq<(String, SubEndInfo)>) -> Seq<(Seq<char>, Seq<(Seq<char>, u64)>)>
    decreases pending.len(),
{
    if pending.len() == 0 {
        Seq::empty()
    } else {
        let groups = tier_groups(pending.drop_last());
        let (user, info) = pending.last();
        add_to_group(groups, info.tier@, (user@, info.months))
    }
}

/// `groups` with `entry` added to the group of `tier`, or a new group at the end.
pub open spec fn add_to_group(
    groups: Seq<(Seq<char>, Seq<(Seq<char>, u64)>)>,
    tier: Seq<char>,
    entry: (Seq<char>, u64),
) -> Seq<(Seq<char>, Seq<(Seq<char>, u64)>)>
    decreases groups.len(),
{
    if groups.len() == 0 {
        seq![(tier, seq![entry])]
    } else if groups[0].0 == tier {
        groups.update(0, (tier, groups[0].1.push(entry)))
    } else {
        seq![groups[0]] + add_to_group(groups.drop_first(), tier, entry)
    }
}

proof fn lemma_add_to_group_nonempty(
    groups: Seq<(Seq<char>, Seq<(Seq<char>, u64)>)>,
    tier: Seq<char>,
    entry: (Seq<char>, u64),
)
    requires
        forall|i: int| 0 <= i < groups.len() ==> (#[trigger] groups[i]).1.len() >= 1,
    ensures
        forall|i: int|
            0 <= i < add_to_group(groups, tier, entry).len() ==> (#[trigger] add_to_group(groups, tier, entry)[i]).1.len()
                >= 1,
    decreases groups.len(),
{
    if groups.len() > 0 && groups[0].0 != tier {
        let rest = groups.drop_first();
        assert forall|i: int| 0 <= i < rest.len() implies (#[trigger] rest[i]).1.len() >= 1 by {
            assert(rest[i] == groups[i + 1]);
        }
        lemma_add_to_group_nonempty(rest, tier, entry);
        let added = add_to_group(groups, tier, entry);
        assert forall|i: int| 0 <= i < added.len() implies (#[trigger] added[i]).1.len() >= 1 by {
            if i > 0 {
                assert(added[i] == add_to_group(rest, tier, entry)[i - 1]);
            }
        }
    }
}

proof fn lemma_tier_groups_nonempty(pending: Seq<(String, SubEndInfo)>)
    ensures
        forall|i: int| 0 <= i < tier_groups(pending).len() ==> (#[trigger] tier_groups(pending)[i]).1.len() >= 1,
    decreases pending.len(),
{
    if pending.len() > 0 {
        lemma_tier_groups_nonempty(pending.drop_last());
        let (user, info) = pending.last();
        lemma_add_to_group_nonempty(tier_groups(pending.drop_last()), info.tier@, (user@, info.months));
    }
}

/// The announcement for one tier's group.
pub open spec fn group_message(tier: Seq<char>, users: Seq<(Seq<char>, u64)>) -> Seq<char> {
    if users.len() == 1 {
        users[0].0 + "'s "@ + tier_name(tier) + " sub ended after "@ + decimal(users[0].1 as nat)
            + " months. Stay amazing and cute! luv"@
    } else {
        "Multiple "@ + tier_name(tier) + " subscriptions ended: "@ + join(
            users.map_values(|u: (Seq<char>, u64)| u.0),
            ", "@,
        ) + ". See you next time! HUGGIES"@
    }
}

/// Collects ended subscriptions and announces them in batches.
pub struct SubEndBatcher {
    pending: KeyedList<SubEndInfo>,
    last_send_ms: Option<i64>,
}

impl SubEndBatcher {
    /// The ended subscriptions not yet announced, by user, in order.
    pub closed spec fn pending(self) -> Seq<(String, SubEndInfo)> {
        self.pending.entries_view()
    }

    /// The ended subscription of `user` waiting to be announced.
    pub closed spec fn pending_of(self, user: Seq<char>) -> Option<SubEndInfo> {
        self.pending.get_spec(user)
    }

    /// When the last batch went out (or the batcher first saw an event).
    pub closed spec fn last_send(self) -> Option<i64> {
        self.last_send_ms
    }

    pub fn new() -> (r: Self)
        ensures
            r.pending().len() == 0,
            r.last_send() is None,
    {
        SubEndBatcher { pending: KeyedList::new(), last_send_ms: None }
    }

    /// Records that `user_name`'s subscription ended at `now_ms` (a second
    /// end of the same user replaces the first), and says whether a batch is
    /// due: five seconds or more since the last one. The first event starts
    /// the clock.
    pub fn record_at(&mut self, user_name: String, tier: String, months: u64, now_ms: i64) -> (due: bool)
        ensures
            final(self).pending_of(user_name@) == Some(SubEndInfo { tier, months }),
            forall|u: Seq<char>| u != user_name@ ==> final(self).pending_of(u) == old(self).pending_of(u),
            match old(self).last_send() {
                None => !due && final(self).last_send() == Some(now_ms),
                Some(t) => due == (now_ms - t >= 5000) && final(self).last_send() == Some(t),
            },
    {
        self.pending.insert(user_name, SubEndInfo { tier, months });
        match self.last_send_ms {
            None => {
                self.last_send_ms = Some(now_ms);
                false
            },
            Some(t) => now_ms as i128 - t as i128 >= BATCH_WINDOW_MS as i128,
        }
    }

    /// Records that `user_name`'s subscription ended now, and says whether a batch is due.
    pub fn record(&mut self, user_name: String, tier: String, months: u64) -> (due: bool)
        ensures
            final(self).pending_of(user_name@) == Some(SubEndInfo { tier, months }),
            forall|u: Seq<char>| u != user_name@ ==> final(self).pending_of(u) == old(self).pending_of(u),
            old(self).last_send() is None ==> !due,
    {
        let now = utc_now_millis();
        self.record_at(user_name, tier, months, now)
    }

    /// The announcements of the pending ended subscriptions, one per tier.
    pub fn batch_messages(&self) -> (r: Vec<String>)
        ensures
            r@.len() == tier_groups(self.pending()).len(),
            forall|i: int|
                0 <= i < r@.len() ==> #[trigger] r@[i]@ == group_message(
                    tier_groups(self.pending())[i].0,
                    tier_groups(self.pending())[i].1,
                ),
    {
        let groups = self.group_by_tier();
        proof {
            lemma_tier_groups_nonempty(self.pending());
        }
        let mut r: Vec<String> = Vec::new();
        let mut i: usize = 0;
        while i < groups.len()
            invariant
                i <= groups@.len(),
                groups_view(groups@) == tier_groups(self.pending()),
                forall|j: int|
                    0 <= j < tier_groups(self.pending()).len() ==> (#[trigger] tier_groups(self.pending())[j]).1.len()
                        >= 1,
                r@.len() == i,
                forall|j: int|
                    0 <= j < i ==> #[trigger] r@[j]@ == group_message(
                        tier_groups(self.pending())[j].0,
                        tier_groups(self.pending())[j].1,
                    ),
            decreases groups@.len() - i,
        {
            assert(groups_view(groups@)[i as int] == group_view(groups@[i as int]));
            let m = group_text(&groups[i].0, &groups[i].1);
            r.push(m);
            i = i + 1;
        }
        r
    }

    fn group_by_tier(&self) -> (r: Vec<(String, Vec<(String, u64)>)>)
        ensures
            groups_view(r@) == tier_groups(self.pending()),
    {
        let n = self.pending.len();
        let mut groups: Vec<(String, Vec<(String, u64)>)> = Vec::new();
        let mut i: usize = 0;
        let ghost all = self.pending();
        assert(all.take(0) =~= Seq::<(String, SubEndInfo)>::empty());
        while i < n
            invariant
                i <= n,
                n == all.len(),
                all == self.pending(),
                groups_view(groups@) == tier_groups(all.take(i as int)),
            decreases n - i,
        {
            let e = self.pending.entry(i);
            assert(all.take(i + 1).drop_last() =~= all.take(i as int));
            assert(all.take(i + 1).last() == *e);
            add_entry(&mut groups, &e.1.tier, e.0.clone(), e.1.months);
            i = i + 1;
        }
        assert(all.take(n as int) =~= all);
        groups
    }

    /// After the batch's messages were sent (`sent`, the first failure if
    /// any) at `now_ms`: when all went out nothing is pending any more; a
    /// failed send is returned as the error and the pending entries stay.
    pub fn finish_sending(&mut self, sent: Result<(), String>, now_ms: i64) -> (r: Result<(), String>)
        ensures
            r == sent,
            sent is Ok ==> final(self).pending().len() == 0 && final(self).last_send() == Some(now_ms),
            sent is Err ==> *final(self) == *old(self),
    {
        if sent.is_ok() {
            self.finish_batch(now_ms);
        }
        sent
    }

    /// The batch went out at `now_ms`: nothing is pending any more.
    pub fn finish_batch(&mut self, now_ms: i64)
        ensures
            final(self).pending().len() == 0,
            forall|u: Seq<char>| final(self).pending_of(u) is None,
            final(self).last_send() == Some(now_ms),
    {
        self.pending.clear();
        self.last_send_ms = Some(now_ms);
    }
}

/// A group as plain values.
pub open spec fn group_view(e: (String, Vec<(String, u64)>)) -> (Seq<char>, Seq<(Seq<char>, u64)>) {
    (e.0@, e.1@.map_values(|u: (String, u64)| (u.0@, u.1)))
}

/// Groups as plain values.
pub open spec fn groups_view(g: Seq<(String, Vec<(String, u64)>)>) -> Seq<(Seq<char>, Seq<(Seq<char>, u64)>)> {
    g.map_values(|e: (String, Vec<(String, u64)>)| group_view(e))
}

fn add_entry(groups: &mut Vec<(String, Vec<(String, u64)>)>, tier: &String, user: String, months: u64)
    ensures
        groups_view(final(groups)@) == add_to_group(groups_view(old(groups)@), tier@, (user@, months)),
{
    let ghost g0 = groups_view(groups@);
    let ghost u = (user@, months);
    let mut i: usize = 0;
    assert(g0.take(0) =~= Seq::<(Seq<char>, Seq<(Seq<char>, u64)>)>::empty());
    assert(g0.skip(0) =~= g0);
    while i < groups.len()
        invariant
            i <= groups@.len(),
            groups_view(groups@) == g0,
            g0 == groups_view(old(groups)@),
            u == (user@, months),
            forall|j: int| 0 <= j < i ==> groups@[j].0@ != tier@,
            add_to_group(g0, tier@, u) == g0.take(i as int) + add_to_group(g0.skip(i as int), tier@, u),
        decreases groups@.len() - i,
    {
        if str_equal(groups[i].0.as_str(), tier.as_str()) {
            let ghost before = groups@;
            let mut entry = groups.remove(i);
            let ghost old_users = entry.1@;
            entry.1.push((user, months));
            let ghost new_entry = entry;
            groups.insert(i, entry);
            proof {
                let rest = g0.skip(i as int);
                assert(rest[0] == g0[i as int]);
                assert(g0[i as int] == group_view(before[i as int]));
                assert(rest[0].0 == tier@);
                assert(add_to_group(rest, tier@, u) == rest.update(0, (tier@, rest[0].1.push(u))));
                assert(groups@ =~= before.update(i as int, new_entry));
                assert(new_entry.1@ == old_users.push((user, months)));
                assert(new_entry.1@.map_values(|x: (String, u64)| (x.0@, x.1)) =~= old_users.map_values(
                    |x: (String, u64)| (x.0@, x.1),
                ).push(u));
                assert(group_view(new_entry) == (tier@, rest[0].1.push(u)));
                assert(groups_view(groups@) =~= g0.update(i as int, (tier@, rest[0].1.push(u))));
                assert(g0.take(i as int) + rest.update(0, (tier@, rest[0].1.push(u))) =~= g0.update(
                    i as int,
                    (tier@, rest[0].1.push(u)),
                ));
            }
            return;
        }
        proof {
            let rest = g0.skip(i as int);
            assert(rest[0] == g0[i as int]);
            assert(g0[i as int] == group_view(groups@[i as int]));
            assert(rest.drop_first() =~= g0.skip(i + 1));
            assert(g0.take(i + 1) =~= g0.take(i as int).push(g0[i as int]));
            assert(g0.take(i as int) + (seq![rest[0]] + add_to_group(rest.drop_first(), tier@, u)) =~= g0.take(i + 1)
                + add_to_group(g0.skip(i + 1), tier@, u));
        }
        i = i + 1;
    }
    proof {
        assert(g0.skip(i as int) =~= Seq::<(Seq<char>, Seq<(Seq<char>, u64)>)>::empty());
        assert(g0.take(i as int) =~= g0);
    }
    let ghost before = groups@;
    let mut users: Vec<(String, u64)> = Vec::new();
    users.push((user, months));
    let new_group = (tier.clone(), users);
    proof {
        assert(new_group.1@.map_values(|x: (String, u64)| (x.0@, x.1)) =~= seq![u]);
        assert(group_view(new_group) == (tier@, seq![u]));
    }
    groups.push(new_group);
    proof {
        assert(groups_view(groups@) =~= groups_view(before).push((tier@, seq![u])));
        assert(g0 + seq![(tier@, seq![u])] =~= groups_view(before).push((tier@, seq![u])));
    }
}

fn group_text(tier: &String, users: &Vec<(String, u64)>) -> (r: String)
    requires
        users@.len() >= 1,
    ensures
        r@ == group_message(tier@, users@.map_values(|u: (String, u64)| (u.0@, u.1))),
{
    let ghost uv = users@.map_values(|u: (String, u64)| (u.0@, u.1));
    if users.len() == 1 {
        let mut m = users[0].0.clone();
        m.append("'s ");
        m.append(tier_label(tier.as_str()));
        m.append(" sub ended after ");
        m.append(u64_to_decimal(users[0].1).as_str());
        m.append(" months. Stay amazing and cute! luv");
        m
    } else {
        let mut names: Vec<String> = Vec::new();
        let mut i: usize = 0;
        while i < users.len()
            invariant
                i <= users@.len(),
                names@.len() == i,
                forall|j: int| 0 <= j < i ==> #[trigger] names@[j]@ == users@[j].0@,
            decreases users@.len() - i,
        {
            names.push(users[i].0.clone());
            i = i + 1;
        }
        assert(crate::text::string_views(names@) =~= uv.map_values(|u: (Seq<char>, u64)| u.0));
        let joined = crate::text::join_strings(&names, ", ");
        let mut m = String::from_str("Multiple ");
        m.append(tier_label(tier.as_str()));
        m.append(" subscriptions ended: ");
        m.append(crate::text::string_from_chars(joined.as_slice()).as_str());
        m.append(". See you next time! HUGGIES");
        m
    }
}

} // verus!
