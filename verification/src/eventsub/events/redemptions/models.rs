use vstd::prelude::*;
use crate::text::str_equal;

verus! {

/// A channel-point redemption, as EventSub reports it.
#[derive(Debug, Clone)]
pub struct Redemption {
    pub id: String,
    pub broadcaster_id: String,
    pub user_id: String,
    pub user_name: String,
    pub reward_id: String,
    pub reward_title: String,
    pub user_input: Option<String>,
    pub status: RedemptionStatus,
    pub queued: bool,
    pub queue_number: Option<usize>,
    pub announce_in_chat: bool,
}

#[derive(Debug, Clone, Copy, PartialEq, Eq, Structural)]
pub enum RedemptionCompletion {
    NotApplicable,
    Pending,
    Completed,
}

/// What handling a redemption came to.
#[derive(Debug, Clone)]
pub struct RedemptionResult {
    pub success: bool,
    pub message: Option<String>,
    pub queue_number: Option<usize>,
}

#[derive(Debug, Clone, Copy, PartialEq, Eq, Structural)]
pub enum RedemptionStatus {
    Unfulfilled,
    Fulfilled,
    Canceled,
}

/// How a reward is handled.
#[derive(Clone, Debug)]
pub struct RedemptionActionConfig {
    pub action: RedemptionActionType,
    pub queued: bool,
    pub announce_in_chat: bool,
    pub requires_manual_completion: bool,
}

#[derive(Clone, Debug)]
pub enum RedemptionActionType {
    AIResponse,
    OSCMessage,
    UpdateText,
    Refund,
    Custom(String),
}

/// Something that can act on a redemption.
pub trait RedemptionHandler {
    fn handle(&self, redemption: Redemption) -> RedemptionResult;
}

/// The stored settings of one reward.
#[derive(Debug, Clone)]
pub struct RedemptionSettings {
    pub reward_id: String,
    pub title: String,
    pub cost: u32,
    pub action_config: RedemptionActionConfig,
    pub active: bool,
}

impl RedemptionStatus {
    pub open spec fn from_text(s: Seq<char>) -> RedemptionStatus {
        if s == "FULFILLED"@ {
            RedemptionStatus::Fulfilled
        } else if s == "CANCELED"@ {
            RedemptionStatus::Canceled
        } else {
            RedemptionStatus::Unfulfilled
        }
    }

    /// The status that Twitch's status text names; anything unknown is unfulfilled.
    pub fn from_status_text(s: &str) -> (r: RedemptionStatus)
        ensures
            r == RedemptionStatus::from_text(s@),
    {
        proof {
            lemma_status_texts_differ();
        }
        if str_equal(s, "UNFULFILLED") {
            RedemptionStatus::Unfulfilled
        } else if str_equal(s, "FULFILLED") {
            RedemptionStatus::Fulfilled
        } else if str_equal(s, "CANCELED") {
            RedemptionStatus::Canceled
        } else {
            RedemptionStatus::Unfulfilled
        }
    }

    pub open spec fn spec_text(self) -> Seq<char> {
        match self {
            RedemptionStatus::Unfulfilled => "UNFULFILLED"@,
            RedemptionStatus::Fulfilled => "FULFILLED"@,
            RedemptionStatus::Canceled => "CANCELED"@,
        }
    }

    /// The status text that Twitch's API takes.
    pub fn as_status_text(&self) -> (s: &'static str)
        ensures
            s@ == self.spec_text(),
    {
        match self {
            RedemptionStatus::Unfulfilled => "UNFULFILLED",
            RedemptionStatus::Fulfilled => "FULFILLED",
            RedemptionStatus::Canceled => "CANCELED",
        }
    }
}

/// A reward's action, over plain text.
pub enum ActionView {
    AIResponse,
    OSCMessage,
    UpdateText,
    Refund,
    Custom(Seq<char>),
}

pub struct ActionConfigView {
    pub action: ActionView,
    pub queued: bool,
    pub announce_in_chat: bool,
    pub requires_manual_completion: bool,
}

pub struct SettingsView {
    pub reward_id: Seq<char>,
    pub title: Seq<char>,
    pub cost: u32,
    pub action_config: ActionConfigView,
    pub active: bool,
}

impl View for RedemptionActionType {
    type V = ActionView;

    open spec fn view(&self) -> ActionView {
        match self {
            RedemptionActionType::AIResponse => ActionView::AIResponse,
            RedemptionActionType::OSCMessage => ActionView::OSCMessage,
            RedemptionActionType::UpdateText => ActionView::UpdateText,
            RedemptionActionType::Refund => ActionView::Refund,
            RedemptionActionType::Custom(s) => ActionView::Custom(s@),
        }
    }
}

impl View for RedemptionActionConfig {
    type V = ActionConfigView;

    open spec fn view(&self) -> ActionConfigView {
        ActionConfigView {
            action: self.action@,
            queued: self.queued,
            announce_in_chat: self.announce_in_chat,
            requires_manual_completion: self.requires_manual_completion,
        }
    }
}

impl View for RedemptionSettings {
    type V = SettingsView;

    open spec fn view(&self) -> SettingsView {
        SettingsView {
            reward_id: self.reward_id@,
            title: self.title@,
            cost: self.cost,
            action_config: self.action_config@,
            active: self.active,
        }
    }
}

impl RedemptionActionType {
    pub fn duplicate(&self) -> (r: Self)
        ensures
            r == *self,
    {
        match self {
            RedemptionActionType::AIResponse => RedemptionActionType::AIResponse,
            RedemptionActionType::OSCMessage => RedemptionActionType::OSCMessage,
            RedemptionActionType::UpdateText => RedemptionActionType::UpdateText,
            RedemptionActionType::Refund => RedemptionActionType::Refund,
            RedemptionActionType::Custom(s) => RedemptionActionType::Custom(s.clone()),
        }
    }
}

impl RedemptionActionConfig {
    pub fn duplicate(&self) -> (r: Self)
        ensures
            r == *self,
    {
        RedemptionActionConfig {
            action: self.action.duplicate(),
            queued: self.queued,
            announce_in_chat: self.announce_in_chat,
            requires_manual_completion: self.requires_manual_completion,
        }
    }
}

impl RedemptionSettings {
    pub fn duplicate(&self) -> (r: Self)
        ensures
            r == *self,
    {
        RedemptionSettings {
            reward_id: self.reward_id.clone(),
            title: self.title.clone(),
            cost: self.cost,
            action_config: self.action_config.duplicate(),
            active: self.active,
        }
    }
}

impl Redemption {
    pub fn duplicate(&self) -> (r: Self)
        ensures
            r == *self,
    {
        Redemption {
            id: self.id.clone(),
            broadcaster_id: self.broadcaster_id.clone(),
            user_id: self.user_id.clone(),
            user_name: self.user_name.clone(),
            reward_id: self.reward_id.clone(),
            reward_title: self.reward_title.clone(),
            user_input: match &self.user_input {
                Some(s) => Some(s.clone()),
                None => None,
            },
            status: self.status,
            queued: self.queued,
            queue_number: self.queue_number,
            announce_in_chat: self.announce_in_chat,
        }
    }
}

/// Reading a status's text gives the status back.
pub proof fn law_status_text_round_trip(st: RedemptionStatus)
    ensures
        RedemptionStatus::from_text(st.spec_text()) == st,
{
    lemma_status_texts_differ();
}

proof fn lemma_status_texts_differ()
    ensures
        "UNFULFILLED"@ != "FULFILLED"@,
        "UNFULFILLED"@ != "CANCELED"@,
        "FULFILLED"@ != "CANCELED"@,
{
    reveal_strlit("UNFULFILLED");
    reveal_strlit("FULFILLED");
    reveal_strlit("CANCELED");
    assert("UNFULFILLED"@.len() != "FULFILLED"@.len());
    assert("UNFULFILLED"@.len() != "CANCELED"@.len());
    assert("FULFILLED"@.len() != "CANCELED"@.len());
}

/// A status update of a redemption, as the API is asked for it: the
/// broadcaster, the reward and the redemption, and the new status.
pub struct StatusUpdate {
    pub broadcaster_id: String,
    pub reward_id: String,
    pub redemption_id: String,
    pub status: RedemptionStatus,
}

/// The update that gives `redemption` the status `status`.
pub fn status_update(redemption: &Redemption, status: RedemptionStatus) -> (r: StatusUpdate)
    ensures
        r.broadcaster_id == redemption.broadcaster_id,
        r.reward_id == redemption.reward_id,
        r.redemption_id == redemption.id,
        r.status == status,
{
    StatusUpdate {
        broadcaster_id: redemption.broadcaster_id.clone(),
        reward_id: redemption.reward_id.clone(),
        redemption_id: redemption.id.clone(),
        status,
    }
}

} // verus!
