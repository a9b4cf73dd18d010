use vstd::prelude::*;
use crate::api::models::ChannelPointReward;
use crate::keyed::KeyedList;
use crate::text::{chars_of, push_chars, str_equal};
use super::models::{
    ActionConfigView, ActionView, Redemption, RedemptionActionConfig, RedemptionActionType,
    RedemptionResult, RedemptionSettings, RedemptionStatus, SettingsView, StatusUpdate, status_update,
};

verus! {

/// The titles of the rewards that have a built-in action.
pub open spec fn is_special_title(t: Seq<char>) -> bool {
    t == "AI Response"@ || t == "OSC Message"@ || t == "Update Text"@
}

/// The built-in handling of a reward with title `t`.
pub open spec fn special_config_view(t: Seq<char>) -> ActionConfigView {
    if t == "AI Response"@ {
        ActionConfigView { action: ActionView::AIResponse, queued: true, announce_in_chat: true, requires_manual_completion: false }
    } else if t == "OSC Message"@ {
        ActionConfigView { action: ActionView::OSCMessage, queued: false, announce_in_chat: false, requires_manual_completion: false }
    } else if t == "Update Text"@ {
        ActionConfigView { action: ActionView::UpdateText, queued: false, announce_in_chat: true, requires_manual_completion: false }
    } else {
        ActionConfigView { action: ActionView::Custom(t), queued: false, announce_in_chat: false, requires_manual_completion: false }
    }
}

/// The settings that a reward unknown so far gets.
pub open spec fn new_settings_view(r: ChannelPointReward) -> SettingsView {
    SettingsView {
        reward_id: r.id@,
        title: r.title@,
        cost: r.cost,
        action_config: if is_special_title(r.title@) {
            special_config_view(r.title@)
        } else {
            ActionConfigView {
                action: ActionView::Custom(r.title@),
                queued: r.is_user_input_required,
                announce_in_chat: false,
                requires_manual_completion: false,
            }
        },
        active: true,
    }
}

/// Known settings brought up to date with Twitch's copy of the reward.
pub open spec fn refreshed_settings_view(s: SettingsView, r: ChannelPointReward) -> SettingsView {
    SettingsView {
        reward_id: s.reward_id,
        title: r.title@,
        cost: r.cost,
        action_config: if is_special_title(r.title@) {
            special_config_view(r.title@)
        } else {
            ActionConfigView {
                action: s.action_config.action,
                queued: r.is_user_input_required,
                announce_in_chat: s.action_config.announce_in_chat,
                requires_manual_completion: s.action_config.requires_manual_completion,
            }
        },
        active: s.active,
    }
}

/// The last reward in `rs` with id `k`.
pub open spec fn last_reward_for(rs: Seq<ChannelPointReward>, k: Seq<char>) -> Option<ChannelPointReward>
    decreases rs.len(),
{
    if rs.len() == 0 {
        None
    } else if rs.last().id@ == k {
        Some(rs.last())
    } else {
        last_reward_for(rs.drop_last(), k)
    }
}

pub open spec fn opt_view(s: Option<RedemptionSettings>) -> Option<SettingsView> {
    match s {
        Some(x) => Some(x@),
        None => None,
    }
}

/// The result of handling a redemption.
pub open spec fn result_is(r: RedemptionResult, success: bool, message: Seq<char>, queue_number: Option<usize>) -> bool {
    &&& r.success == success
    &&& r.message matches Some(m) && m@ == message
    &&& r.queue_number == queue_number
}

/// How `handle_redemption` goes on after its checks.
pub enum RedemptionStart {
    /// Finished with this result.
    Done(RedemptionResult),
    /// Run the reward's action on the (numbered) redemption; then, where
    /// `report_status` holds, report the redemption fulfilled or canceled.
    Run { redemption: Redemption, action: RedemptionActionType, report_status: bool },
}

/// Channel-point rewards and how each is handled, with the queue of redemptions.
pub struct RedemptionManager {
    handlers: KeyedList<RedemptionSettings>,
    queue: Vec<Redemption>,
    next_queue_number: usize,
    settings_file: String,
}

fn result(success: bool, message: &str, queue_number: Option<usize>) -> (r: RedemptionResult)
    ensures
        result_is(r, success, message@, queue_number),
{
    RedemptionResult { success, message: Some(String::from_str(message)), queue_number }
}

impl RedemptionManager {
    /// The settings of the reward with id `k`.
    pub closed spec fn settings_of(self, k: Seq<char>) -> Option<RedemptionSettings> {
        self.handlers.get_spec(k)
    }

    pub open spec fn settings_view_of(self, k: Seq<char>) -> Option<SettingsView> {
        opt_view(self.settings_of(k))
    }

    /// The reward ids, in the order they were first registered.
    pub closed spec fn reward_ids(self) -> Seq<Seq<char>> {
        self.handlers.keys()
    }

    /// The queued redemptions, oldest first.
    pub closed spec fn queued(self) -> Seq<Redemption> {
        self.queue@
    }

    /// The file that the settings are saved to.
    pub closed spec fn settings_path(self) -> Seq<char> {
        self.settings_file@
    }

    pub fn settings_file(&self) -> (r: &String)
        ensures
            r@ == self.settings_path(),
    {
        &self.settings_file
    }

    /// The number the next queued redemption gets.
    pub closed spec fn next_number(self) -> usize {
        self.next_queue_number
    }

    /// A manager with no rewards and an empty queue, numbering from 1.
    pub fn new() -> (m: Self)
        ensures
            forall|k: Seq<char>| m.settings_of(k) is None,
            m.queued() == Seq::<Redemption>::empty(),
            m.next_number() == 1,
            m.settings_path() == "redemption_settings.json"@,
    {
        RedemptionManager {
            handlers: KeyedList::new(),
            queue: Vec::new(),
            next_queue_number: 1,
            settings_file: String::from_str("redemption_settings.json"),
        }
    }

    pub fn next_queue_number(&self) -> (n: usize)
        ensures
            n == self.next_number(),
    {
        self.next_queue_number
    }

    /// Registers (or replaces) the settings of one reward.
    pub fn register_handler(&mut self, settings: RedemptionSettings)
        ensures
            final(self).settings_of(settings.reward_id@) == Some(settings),
            forall|k: Seq<char>| k != settings.reward_id@ ==> final(self).settings_of(k) == old(self).settings_of(k),
            final(self).queued() == old(self).queued(),
            final(self).next_number() == old(self).next_number(),
    {
        let key = settings.reward_id.clone();
        self.handlers.insert(key, settings);
    }

    /// The settings of the reward with id `reward_id`.
    pub fn get_settings(&self, reward_id: &str) -> (r: Option<&RedemptionSettings>)
        ensures
            match r {
                Some(s) => self.settings_of(reward_id@) == Some(*s),
                None => self.settings_of(reward_id@) is None,
            },
    {
        self.handlers.get(reward_id)
    }

    /// Copies of all settings, in registration order.
    pub fn settings_list(&self) -> (r: Vec<RedemptionSettings>)
        ensures
            r@.len() == self.reward_ids().len(),
            forall|i: int| 0 <= i < r@.len() ==> self.settings_of(#[trigger] self.reward_ids()[i]) == Some(r@[i]),
    {
        let mut r: Vec<RedemptionSettings> = Vec::new();
        let mut i: usize = 0;
        let n = self.handlers.len();
        while i < n
            invariant
                i <= n,
                n == self.reward_ids().len(),
                r@.len() == i,
                forall|j: int| 0 <= j < i ==> self.settings_of(#[trigger] self.reward_ids()[j]) == Some(r@[j]),
            decreases n - i,
        {
            let e = self.handlers.entry(i);
            r.push(e.1.duplicate());
            i = i + 1;
        }
        r
    }

    /// Whether `title` names a reward with a built-in action.
    pub fn is_special(title: &str) -> (r: bool)
        ensures
            r == is_special_title(title@),
    {
        str_equal(title, "AI Response") || str_equal(title, "OSC Message") || str_equal(title, "Update Text")
    }

    /// The titles of the rewards with a built-in action.
    pub fn get_special_redeems(&self) -> (r: Vec<String>)
        ensures
            r@.len() == 3,
            r@[0]@ == "AI Response"@,
            r@[1]@ == "OSC Message"@,
            r@[2]@ == "Update Text"@,
    {
        let mut r: Vec<String> = Vec::new();
        r.push(String::from_str("AI Response"));
        r.push(String::from_str("OSC Message"));
        r.push(String::from_str("Update Text"));
        r
    }

    /// The built-in handling of a reward titled `title`.
    pub fn get_special_redeem_config(&self, title: &str) -> (r: RedemptionActionConfig)
        ensures
            r@ == special_config_view(title@),
    {
        if str_equal(title, "AI Response") {
            RedemptionActionConfig { action: RedemptionActionType::AIResponse, queued: true, announce_in_chat: true, requires_manual_completion: false }
        } else if str_equal(title, "OSC Message") {
            RedemptionActionConfig { action: RedemptionActionType::OSCMessage, queued: false, announce_in_chat: false, requires_manual_completion: false }
        } else if str_equal(title, "Update Text") {
            RedemptionActionConfig { action: RedemptionActionType::UpdateText, queued: false, announce_in_chat: true, requires_manual_completion: false }
        } else {
            RedemptionActionConfig {
                action: RedemptionActionType::Custom(String::from_str(title)),
                queued: false,
                announce_in_chat: false,
                requires_manual_completion: false,
            }
        }
    }

    fn new_settings(&self, r: &ChannelPointReward) -> (s: RedemptionSettings)
        ensures
            s@ == new_settings_view(*r),
    {
        let action_config = if Self::is_special(r.title.as_str()) {
            self.get_special_redeem_config(r.title.as_str())
        } else {
            RedemptionActionConfig {
                action: RedemptionActionType::Custom(r.title.clone()),
                queued: r.is_user_input_required,
                announce_in_chat: false,
                requires_manual_completion: false,
            }
        };
        RedemptionSettings {
            reward_id: r.id.clone(),
            title: r.title.clone(),
            cost: r.cost,
            action_config,
            active: true,
        }
    }

    fn refreshed_settings(&self, old: &RedemptionSettings, r: &ChannelPointReward) -> (s: RedemptionSettings)
        ensures
            s@ == refreshed_settings_view(old@, *r),
    {
        let mut s = old.duplicate();
        s.title = r.title.clone();
        s.cost = r.cost;
        s.action_config.queued = r.is_user_input_required;
        if Self::is_special(s.title.as_str()) {
            s.action_config = self.get_special_redeem_config(s.title.as_str());
        }
        s
    }

    pub open spec fn update_view(orig: Option<SettingsView>, r: ChannelPointReward) -> SettingsView {
        match orig {
            Some(s) => refreshed_settings_view(s, r),
            None => new_settings_view(r),
        }
    }

    pub open spec fn after_rewards(self, rewards: Seq<ChannelPointReward>, k: Seq<char>) -> Option<SettingsView> {
        match last_reward_for(rewards, k) {
            Some(r) => Some(Self::update_view(self.settings_view_of(k), r)),
            None => self.settings_view_of(k),
        }
    }

    /// Brings the settings up to date with the rewards that Twitch lists:
    /// unknown rewards are added, active; known ones take Twitch's title, cost
    /// and input flag, and rewards with a built-in action get that action.
    /// Answers whether the settings should be saved: some reward was new or
    /// has a built-in action.
    pub fn apply_twitch_rewards(&mut self, rewards: &Vec<ChannelPointReward>) -> (updated: bool)
        ensures
            forall|k: Seq<char>| #[trigger] final(self).settings_view_of(k) == old(self).after_rewards(rewards@, k),
            updated == exists|i: int|
                0 <= i < rewards@.len() && (old(self).settings_of(#[trigger] rewards@[i].id@) is None
                    || is_special_title(rewards@[i].title@)),
            final(self).queued() == old(self).queued(),
            final(self).next_number() == old(self).next_number(),
    {
        let mut updates: Vec<RedemptionSettings> = Vec::new();
        let mut updated = false;
        let mut i: usize = 0;
        while i < rewards.len()
            invariant
                i <= rewards.len(),
                updates@.len() == i,
                forall|j: int| 0 <= j < i ==> (#[trigger] updates@[j])@ == Self::update_view(
                    self.settings_view_of(rewards@[j].id@),
                    rewards@[j],
                ),
                updated == exists|j: int|
                    0 <= j < i && (self.settings_of(#[trigger] rewards@[j].id@) is None
                        || is_special_title(rewards@[j].title@)),
            decreases rewards.len() - i,
        {
            let r = &rewards[i];
            match self.handlers.get(r.id.as_str()) {
                None => {
                    let s = self.new_settings(r);
                    updates.push(s);
                    updated = true;
                },
                Some(existing) => {
                    let s = self.refreshed_settings(existing, r);
                    if Self::is_special(r.title.as_str()) {
                        updated = true;
                    }
                    updates.push(s);
                },
            }
            i = i + 1;
        }
        let ghost before = *self;
        let mut j: usize = 0;
        assert(rewards@.take(0) =~= Seq::<ChannelPointReward>::empty());
        while j < updates.len()
            invariant
                j <= updates.len(),
                updates@.len() == rewards@.len(),
                forall|m: int| 0 <= m < rewards@.len() ==> (#[trigger] updates@[m])@ == Self::update_view(
                    before.settings_view_of(rewards@[m].id@),
                    rewards@[m],
                ),
                forall|k: Seq<char>| #[trigger] self.settings_view_of(k) == before.after_rewards(rewards@.take(j as int), k),
                self.queued() == before.queued(),
                self.next_number() == before.next_number(),
            decreases updates.len() - j,
        {
            let ghost prev = *self;
            let key = rewards[j].id.clone();
            let val = updates[j].duplicate();
            self.handlers.insert(key, val);
            assert(rewards@.take(j + 1).drop_last() =~= rewards@.take(j as int));
            assert(rewards@.take(j + 1).last() == rewards@[j as int]);
            assert forall|k: Seq<char>| #[trigger] self.settings_view_of(k) == before.after_rewards(rewards@.take(j + 1), k) by {
                if k == rewards@[j as int].id@ {
                } else {
                    assert(self.settings_view_of(k) == prev.settings_view_of(k));
                }
            }
            j = j + 1;
        }
        assert(rewards@.take(rewards@.len() as int) =~= rewards@);
        updated
    }

    /// The checks that `handle_redemption` makes before it acts: the reward
    /// must be known and active; a queued reward's redemption gets the next
    /// queue number and joins the queue.
    pub fn begin_redemption(&mut self, redemption: Redemption) -> (r: RedemptionStart)
        requires
            old(self).settings_of(redemption.reward_id@) matches Some(s) && s.active && s.action_config.queued
                ==> old(self).next_number() < usize::MAX,
        ensures
            match old(self).settings_of(redemption.reward_id@) {
                None => *final(self) == *old(self) && (r matches RedemptionStart::Done(res)
                    && result_is(res, false, "No handler registered for this reward"@, None)),
                Some(s) => if !s.active {
                    *final(self) == *old(self) && (r matches RedemptionStart::Done(res)
                        && result_is(res, false, "This redemption is currently inactive"@, None))
                } else {
                    let cfg = s.action_config;
                    let numbered = Redemption {
                        queued: cfg.queued,
                        announce_in_chat: cfg.announce_in_chat,
                        queue_number: if cfg.queued { Some(old(self).next_number()) } else { redemption.queue_number },
                        ..redemption
                    };
                    &&& (r matches RedemptionStart::Run { redemption: red, action, report_status }
                        && red == numbered && action == cfg.action && report_status == !cfg.requires_manual_completion)
                    &&& final(self).queued() == if cfg.queued { old(self).queued().push(numbered) } else { old(self).queued() }
                    &&& final(self).next_number() == if cfg.queued { (old(self).next_number() + 1) as usize } else { old(self).next_number() }
                    &&& forall|k: Seq<char>| final(self).settings_of(k) == old(self).settings_of(k)
                },
            },
    {
        let mut redemption = redemption;
        let (queued, announce, action, report_status) = match self.handlers.get(redemption.reward_id.as_str()) {
            None => {
                return RedemptionStart::Done(result(false, "No handler registered for this reward", None));
            },
            Some(settings) => {
                if !settings.active {
                    return RedemptionStart::Done(result(false, "This redemption is currently inactive", None));
                }
                (
                    settings.action_config.queued,
                    settings.action_config.announce_in_chat,
                    settings.action_config.action.duplicate(),
                    !settings.action_config.requires_manual_completion,
                )
            },
        };
        redemption.queued = queued;
        redemption.announce_in_chat = announce;
        if redemption.queued {
            redemption.queue_number = Some(self.next_queue_number);
            self.next_queue_number = self.next_queue_number + 1;
            self.queue.push(redemption.duplicate());
        }
        RedemptionStart::Run { redemption, action, report_status }
    }

    /// The position of the queued redemption with id `id`.
    pub open spec fn position_of(q: Seq<Redemption>, id: Seq<char>) -> Option<int>
        decreases q.len(),
    {
        if q.len() == 0 {
            None
        } else if q[0].id@ == id {
            Some(0)
        } else {
            match Self::position_of(q.drop_first(), id) {
                Some(p) => Some(p + 1),
                None => None,
            }
        }
    }

    fn find_queued(&self, id: &str) -> (r: Option<usize>)
        ensures
            match r {
                Some(p) => Self::position_of(self.queued(), id@) == Some(p as int) && p < self.queued().len(),
                None => Self::position_of(self.queued(), id@) is None,
            },
    {
        let mut i: usize = 0;
        while i < self.queue.len()
            invariant
                i <= self.queue@.len(),
                forall|j: int| 0 <= j < i ==> self.queue@[j].id@ != id@,
            decreases self.queue@.len() - i,
        {
            if str_equal(self.queue[i].id.as_str(), id) {
                proof {
                    lemma_position_of(self.queue@, id@, i as int);
                }
                return Some(i);
            }
            i = i + 1;
        }
        proof {
            lemma_position_of(self.queue@, id@, i as int);
        }
        None
    }

    /// What `complete_redemption` answers, given whether `user_id` is a moderator.
    pub open spec fn completion_outcome(self, id: Seq<char>, user_id: Seq<char>, is_moderator: bool) -> Result<int, Seq<char>> {
        match Self::position_of(self.queued(), id) {
            None => Err("Redemption not found"@),
            Some(p) => {
                let q = self.queued()[p];
                match self.settings_of(q.reward_id@) {
                    None => Err("No handler found for this redemption"@),
                    Some(s) => if !s.action_config.requires_manual_completion {
                        Err("This redemption does not require manual completion"@)
                    } else if q.user_id@ == user_id || is_moderator {
                        Ok(p)
                    } else {
                        Err("User not authorized to complete this redemption"@)
                    },
                }
            },
        }
    }

    /// Whether completing `id` for `user_id` turns on the user being a
    /// moderator: the redemption is queued, needs manual completion, and is
    /// someone else's.
    pub fn completion_requires_moderator_check(&self, id: &str, user_id: &str) -> (r: bool)
        ensures
            r == (self.completion_outcome(id@, user_id@, true) != self.completion_outcome(id@, user_id@, false)),
    {
        match self.find_queued(id) {
            None => false,
            Some(p) => {
                let q = &self.queue[p];
                match self.handlers.get(q.reward_id.as_str()) {
                    None => false,
                    Some(s) => s.action_config.requires_manual_completion && !str_equal(q.user_id.as_str(), user_id),
                }
            },
        }
    }

    /// Completes a queued redemption that needs manual completion, for its
    /// redeemer or a moderator: it leaves the queue, and the update that
    /// marks it fulfilled is handed back.
    pub fn complete_redemption(&mut self, id: &str, user_id: &str, is_moderator: bool) -> (r: Result<StatusUpdate, String>)
        ensures
            match old(self).completion_outcome(id@, user_id@, is_moderator) {
                Ok(p) => (r matches Ok(u) && u.broadcaster_id == old(self).queued()[p].broadcaster_id && u.reward_id
                    == old(self).queued()[p].reward_id && u.redemption_id == old(self).queued()[p].id && u.status
                    == RedemptionStatus::Fulfilled) && final(self).queued() == old(self).queued().remove(p),
                Err(m) => r matches Err(e) && e@ == m && final(self).queued() == old(self).queued(),
            },
            forall|k: Seq<char>| final(self).settings_of(k) == old(self).settings_of(k),
            final(self).next_number() == old(self).next_number(),
    {
        let p = match self.find_queued(id) {
            None => {
                return Err(String::from_str("Redemption not found"));
            },
            Some(p) => p,
        };
        let manual = match self.handlers.get(self.queue[p].reward_id.as_str()) {
            None => {
                return Err(String::from_str("No handler found for this redemption"));
            },
            Some(s) => s.action_config.requires_manual_completion,
        };
        if !manual {
            return Err(String::from_str("This redemption does not require manual completion"));
        }
        if str_equal(self.queue[p].user_id.as_str(), user_id) || is_moderator {
            let q = self.queue.remove(p);
            Ok(status_update(&q, RedemptionStatus::Fulfilled))
        } else {
            Err(String::from_str("User not authorized to complete this redemption"))
        }
    }

    /// Whether the reward at position `i` (in registration order) is titled `title`.
    pub open spec fn titled(self, i: int, title: Seq<char>) -> bool {
        0 <= i < self.reward_ids().len() && (self.settings_of(self.reward_ids()[i]) matches Some(s) && s.title@
            == title)
    }

    /// Switches the first reward titled `title` (in registration order) on
    /// or off, and gives its new state; `None` where no reward has that title.
    pub fn toggle_redeem(&mut self, title: &str) -> (r: Option<bool>)
        ensures
            match r {
                None => (forall|i: int| !old(self).titled(i, title@)) && final(self).reward_ids() == old(self).reward_ids()
                    && forall|k: Seq<char>| final(self).settings_of(k) == old(self).settings_of(k),
                Some(b) => exists|i: int|
                    old(self).titled(i, title@) && (forall|j: int| 0 <= j < i ==> !old(self).titled(j, title@))
                        && ({
                        let k = old(self).reward_ids()[i];
                        let s = old(self).settings_of(k)->0;
                        &&& b == !s.active
                        &&& final(self).settings_of(k) == Some(RedemptionSettings { active: b, ..s })
                        &&& forall|k2: Seq<char>| k2 != k ==> final(self).settings_of(k2) == old(self).settings_of(k2)
                    }),
            },
            final(self).reward_ids() == old(self).reward_ids(),
            final(self).queued() == old(self).queued(),
            final(self).next_number() == old(self).next_number(),
    {
        let n = self.handlers.len();
        let mut i: usize = 0;
        while i < n
            invariant
                i <= n,
                n == self.reward_ids().len(),
                *self == *old(self),
                forall|j: int| 0 <= j < i ==> !self.titled(j, title@),
            decreases n - i,
        {
            let e = self.handlers.entry(i);
            if str_equal(e.1.title.as_str(), title) {
                let mut s = e.1.duplicate();
                let key = e.0.clone();
                let b = !s.active;
                s.active = b;
                assert(self.titled(i as int, title@));
                self.handlers.insert(key, s);
                return Some(b);
            }
            i = i + 1;
        }
        None
    }

}

proof fn lemma_position_of(q: Seq<Redemption>, id: Seq<char>, i: int)
    requires
        0 <= i <= q.len(),
        forall|j: int| 0 <= j < i ==> q[j].id@ != id,
    ensures
        i < q.len() && q[i].id@ == id ==> RedemptionManager::position_of(q, id) == Some(i),
        i == q.len() ==> RedemptionManager::position_of(q, id) is None,
    decreases i,
{
    if i > 0 {
        lemma_position_of(q.drop_first(), id, i - 1);
    }
}

/// The status that a redemption is given after its action ran.
pub fn final_status(result: &RedemptionResult) -> (s: RedemptionStatus)
    ensures
        s == if result.success { RedemptionStatus::Fulfilled } else { RedemptionStatus::Canceled },
{
    if result.success { RedemptionStatus::Fulfilled } else { RedemptionStatus::Canceled }
}

fn result_with(success: bool, prefix: &str, detail: &str, queue_number: Option<usize>) -> (r: RedemptionResult)
    ensures
        result_is(r, success, prefix@ + detail@, queue_number),
{
    let mut m = String::from_str(prefix);
    m.append(detail);
    RedemptionResult { success, message: Some(m), queue_number }
}

/// A custom action: only `some_custom_action` is known.
pub fn handle_custom_action(redemption: &Redemption, action_name: &str) -> (r: RedemptionResult)
    ensures
        action_name@ == "some_custom_action"@ ==> result_is(r, true, "Custom action executed"@, redemption.queue_number),
        action_name@ != "some_custom_action"@ ==> result_is(r, false, "Unknown custom action: "@ + action_name@, redemption.queue_number),
{
    if str_equal(action_name, "some_custom_action") {
        result(true, "Custom action executed", redemption.queue_number)
    } else {
        result_with(false, "Unknown custom action: ", action_name, redemption.queue_number)
    }
}

/// The text-update action.
pub fn handle_update_text(redemption: &Redemption) -> (r: RedemptionResult)
    ensures
        result_is(r, true, "Text updated successfully"@, redemption.queue_number),
{
    result(true, "Text updated successfully", redemption.queue_number)
}

/// The AI action, given the reply (`None` where no AI client is configured).
pub fn ai_response_result(redemption: &Redemption, reply: Option<Result<String, String>>) -> (r: RedemptionResult)
    ensures
        reply is None ==> result_is(r, false, "AI client not configured"@, redemption.queue_number),
        reply matches Some(Ok(m)) ==> result_is(r, true, m@, redemption.queue_number),
        reply matches Some(Err(e)) ==> result_is(r, false, "AI error: "@ + e@, redemption.queue_number),
{
    match reply {
        None => result(false, "AI client not configured", redemption.queue_number),
        Some(Ok(m)) => RedemptionResult { success: true, message: Some(m), queue_number: redemption.queue_number },
        Some(Err(e)) => result_with(false, "AI error: ", e.as_str(), redemption.queue_number),
    }
}

/// The OSC action, given how sending went (`None` where no OSC client is configured).
pub fn osc_message_result(redemption: &Redemption, sent: Option<Result<(), String>>) -> (r: RedemptionResult)
    ensures
        sent is None ==> result_is(r, false, "OSC client not configured"@, redemption.queue_number),
        sent matches Some(Ok(_)) ==> result_is(r, true, "OSC message sent successfully"@, redemption.queue_number),
        sent matches Some(Err(e)) ==> result_is(r, false, "OSC error: "@ + e@, redemption.queue_number),
{
    match sent {
        None => result(false, "OSC client not configured", redemption.queue_number),
        Some(Ok(_)) => result(true, "OSC message sent successfully", redemption.queue_number),
        Some(Err(e)) => result_with(false, "OSC error: ", e.as_str(), redemption.queue_number),
    }
}

/// The refund action, given how the refund went.
pub fn refund_result(redemption: &Redemption, refunded: Result<(), String>) -> (r: RedemptionResult)
    ensures
        refunded is Ok ==> result_is(r, true, "Redemption refunded successfully"@, redemption.queue_number),
        refunded matches Err(e) ==> result_is(r, false, "Refund error: "@ + e@, redemption.queue_number),
{
    match refunded {
        Ok(_) => result(true, "Redemption refunded successfully", redemption.queue_number),
        Err(e) => result_with(false, "Refund error: ", e.as_str(), redemption.queue_number),
    }
}

/// Whether Twitch's copy of a reward must be switched on or off to match the settings.
pub fn needs_twitch_update(is_enabled: bool, settings: &RedemptionSettings) -> (r: bool)
    ensures
        r == (is_enabled != settings.active),
{
    is_enabled != settings.active
}

/// The first queued redemption with id `id` is found where it stands.
proof fn lemma_position_of_first(q: Seq<Redemption>, id: Seq<char>, p: int)
    requires
        0 <= p < q.len(),
        q[p].id@ == id,
        forall|j: int| 0 <= j < p ==> (#[trigger] q[j]).id@ != id,
    ensures
        RedemptionManager::position_of(q, id) == Some(p),
    decreases p,
{
    if p > 0 {
        let r = q.drop_first();
        assert forall|j: int| 0 <= j < p - 1 implies (#[trigger] r[j]).id@ != id by {
            assert(r[j] == q[j + 1]);
        }
        assert(r[p - 1] == q[p]);
        lemma_position_of_first(r, id, p - 1);
        assert(q[0].id@ != id);
    }
}

/// Who may complete a queued redemption whose reward needs manual
/// completion: a moderator may complete anyone's, the redeemer their own,
/// and nobody else; a moderator's answer does not depend on who asks.
pub proof fn law_who_completes(m: RedemptionManager, p: int, user_id: Seq<char>, other: Seq<char>)
    requires
        0 <= p < m.queued().len(),
        forall|j: int| 0 <= j < p ==> (#[trigger] m.queued()[j]).id@ != m.queued()[p].id@,
        m.settings_of(m.queued()[p].reward_id@) matches Some(s) && s.action_config.requires_manual_completion,
    ensures
        m.completion_outcome(m.queued()[p].id@, user_id, true) == Ok::<int, Seq<char>>(p),
        m.completion_outcome(m.queued()[p].id@, m.queued()[p].user_id@, false) == Ok::<int, Seq<char>>(p),
        other != m.queued()[p].user_id@ ==> m.completion_outcome(m.queued()[p].id@, other, false) is Err,
        m.completion_outcome(m.queued()[p].id@, user_id, true) == m.completion_outcome(
            m.queued()[p].id@,
            other,
            true,
        ),
{
    let q = m.queued();
    let id = q[p].id@;
    lemma_position_of_first(q, id, p);
}

} // verus!
