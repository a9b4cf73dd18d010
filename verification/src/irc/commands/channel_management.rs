use vstd::prelude::*;
use rand::Rng;
use crate::irc::command_system::Command;
use crate::roles::UserRole;
use crate::text::{join, join_strings, lowercase, str_equal, string_from_chars, string_views, to_lowercase};

verus! {

/// `!title <new title>`: sets the stream title.
pub struct TitleCommand;

/// `!game <category name>`: sets the stream category.
pub struct GameCommand;

/// `!content <label> [on|off]`: turns a content classification label on or off.
pub struct ContentCommand;

/// `!runad`: runs a three-minute ad break.
pub struct RunAdCommand;

/// `!refreshads`: sets a content label, waits, runs an ad break and removes the label again.
pub struct RefreshAdsCommand;

impl Command for TitleCommand {
    fn name(&self) -> (r: &'static str)
        ensures
            r@ == "!title"@,
    {
        "!title"
    }

    fn description(&self) -> (r: &'static str)
        ensures
            r@ == "Sets the stream title"@,
    {
        "Sets the stream title"
    }

    fn required_role(&self) -> (r: UserRole)
        ensures
            r == UserRole::Moderator,
    {
        UserRole::Moderator
    }
}

impl Command for GameCommand {
    fn name(&self) -> (r: &'static str)
        ensures
            r@ == "!game"@,
    {
        "!game"
    }

    fn description(&self) -> (r: &'static str)
        ensures
            r@ == "Sets the stream category/game"@,
    {
        "Sets the stream category/game"
    }

    fn required_role(&self) -> (r: UserRole)
        ensures
            r == UserRole::Moderator,
    {
        UserRole::Moderator
    }
}

impl Command for ContentCommand {
    fn name(&self) -> (r: &'static str)
        ensures
            r@ == "!content"@,
    {
        "!content"
    }

    fn description(&self) -> (r: &'static str)
        ensures
            r@ == "Sets content classification labels"@,
    {
        "Sets content classification labels"
    }

    fn required_role(&self) -> (r: UserRole)
        ensures
            r == UserRole::Moderator,
    {
        UserRole::Moderator
    }
}

impl Command for RunAdCommand {
    fn name(&self) -> (r: &'static str)
        ensures
            r@ == "!runad"@,
    {
        "!runad"
    }

    fn description(&self) -> (r: &'static str)
        ensures
            r@ == "Runs a 3-minute ad"@,
    {
        "Runs a 3-minute ad"
    }

    fn required_role(&self) -> (r: UserRole)
        ensures
            r == UserRole::Moderator,
    {
        UserRole::Moderator
    }
}

impl Command for RefreshAdsCommand {
    fn name(&self) -> (r: &'static str)
        ensures
            r@ == "!refreshads"@,
    {
        "!refreshads"
    }

    fn description(&self) -> (r: &'static str)
        ensures
            r@ == "Refreshes ad status with content label change and commercial"@,
    {
        "Refreshes ad status with content label change and commercial"
    }

    fn required_role(&self) -> (r: UserRole)
        ensures
            r == UserRole::Moderator,
    {
        UserRole::Moderator
    }
}

/// The length, in seconds, of the ad breaks that these commands start.
pub const COMMERCIAL_SECONDS: u32 = 180;

/// What a command that takes free text does with its arguments.
pub enum TextPlan {
    /// Answer with the usage line.
    Usage(String),
    /// Go on with the arguments joined by spaces.
    Proceed(String),
}

/// The arguments joined by single spaces, or the usage line where there are none.
pub fn text_plan(args: &Vec<String>, usage: &str) -> (r: TextPlan)
    ensures
        args@.len() == 0 ==> r is Usage && r->Usage_0@ == usage@,
        args@.len() > 0 ==> r is Proceed && r->Proceed_0@ == join(string_views(args@), " "@),
{
    if args.len() == 0 {
        TextPlan::Usage(String::from_str(usage))
    } else {
        let joined = join_strings(args, " ");
        TextPlan::Proceed(string_from_chars(joined.as_slice()))
    }
}

impl TitleCommand {
    /// The new title: all arguments joined by spaces; the usage line where there are none.
    pub fn plan(&self, args: &Vec<String>) -> (r: TextPlan)
        ensures
            args@.len() == 0 ==> r is Usage && r->Usage_0@ == "Usage: !title <new title>"@,
            args@.len() > 0 ==> r is Proceed && r->Proceed_0@ == join(string_views(args@), " "@),
    {
        text_plan(args, "Usage: !title <new title>")
    }

    /// The answer once the title was set.
    pub fn reply(&self, new_title: &str) -> (r: String)
        ensures
            r@ == "Stream title updated to: "@ + new_title@,
    {
        let mut r = String::from_str("Stream title updated to: ");
        r.append(new_title);
        r
    }
}

/// What `!game` does once the category search has answered.
pub enum GameStep {
    /// Set the category with this id, then say `message`.
    Update { game_id: String, message: String },
    /// Say that nothing matched.
    NotFound(String),
}

impl GameCommand {
    /// The category to search for: all arguments joined by spaces; the usage line where there are none.
    pub fn plan(&self, args: &Vec<String>) -> (r: TextPlan)
        ensures
            args@.len() == 0 ==> r is Usage && r->Usage_0@ == "Usage: !game <category name>"@,
            args@.len() > 0 ==> r is Proceed && r->Proceed_0@ == join(string_views(args@), " "@),
    {
        text_plan(args, "Usage: !game <category name>")
    }

    /// The step after the search for `game_name`, given its best match as `(id, exact name)`.
    pub fn after_search(&self, game_name: &str, best: Option<(String, String)>) -> (r: GameStep)
        ensures
            match best {
                Some((id, exact)) => r is Update && r->game_id@ == id@ && r->message@
                    == "Stream category updated to: "@ + exact@,
                None => r is NotFound && r->NotFound_0@ == "Could not find a category matching '"@
                    + game_name@ + "'"@,
            },
    {
        match best {
            Some((id, exact)) => {
                let mut message = String::from_str("Stream category updated to: ");
                message.append(exact.as_str());
                GameStep::Update { game_id: id, message }
            },
            None => {
                let mut message = String::from_str("Could not find a category matching '");
                message.append(game_name);
                message.append("'");
                GameStep::NotFound(message)
            },
        }
    }
}

/// What `!content` does with its arguments.
pub enum ContentPlan {
    /// Answer with the usage line.
    Usage(String),
    /// Set `label` on or off.
    Apply { label: String, enable: bool },
}

impl ContentCommand {
    /// The label is the first argument; it is turned on unless a second
    /// argument is given that is not `on` in any case.
    pub fn plan(&self, args: &Vec<String>) -> (r: ContentPlan)
        ensures
            args@.len() == 0 ==> r is Usage && r->Usage_0@
                == "Usage: !content <label> <on/off> - Available labels: DebatedSocialIssuesAndPolitics, DrugsIntoxication, SexualThemes, ViolentGraphic, Gambling, ProfanityVulgarity"@,
            args@.len() > 0 ==> r is Apply && r->label@ == args@[0]@ && r->enable == (args@.len() < 2
                || lowercase(args@[1]@) == "on"@),
    {
        if args.len() == 0 {
            return ContentPlan::Usage(
                String::from_str(
                    "Usage: !content <label> <on/off> - Available labels: DebatedSocialIssuesAndPolitics, DrugsIntoxication, SexualThemes, ViolentGraphic, Gambling, ProfanityVulgarity",
                ),
            );
        }
        let label = args[0].clone();
        let enable = if args.len() < 2 {
            true
        } else {
            let lower = to_lowercase(args[1].as_str());
            str_equal(lower.as_str(), "on")
        };
        ContentPlan::Apply { label, enable }
    }

    /// The answer once the label was set.
    pub fn reply(&self, label: &str, enable: bool) -> (r: String)
        ensures
            r@ == "Content label "@ + label@ + " has been turned "@ + (if enable {
                "on"@
            } else {
                "off"@
            }),
    {
        let mut r = String::from_str("Content label ");
        r.append(label);
        r.append(" has been turned ");
        if enable {
            r.append("on");
        } else {
            r.append("off");
        }
        r
    }
}

impl RunAdCommand {
    /// The length of the ad break to start, in seconds.
    pub fn commercial_length(&self) -> (r: u32)
        ensures
            r == 180,
    {
        COMMERCIAL_SECONDS
    }

    /// The answer once the ad break started.
    pub fn reply(&self) -> (r: String)
        ensures
            r@ == "Starting a 3-minute ad break..."@,
    {
        String::from_str("Starting a 3-minute ad break...")
    }
}

/// rand's `thread_rng().gen_range(low..=high)`: a number drawn from `low` to
/// `high`, both included.
#[verifier::external_body]
fn random_between(low: u64, high: u64) -> (r: u64)
    requires
        low <= high,
    ensures
        low <= r <= high,
{
    rand::thread_rng().gen_range(low..=high)
}

/// The content label that `!refreshads` sets for the length of the ad break.
pub open spec fn refresh_label() -> Seq<char> {
    "DebatedSocialIssuesAndPolitics"@
}

/// Where `!refreshads` stands: each stage waits for the outcome of the
/// action that led to it.
#[derive(PartialEq, Eq, Structural, Clone, Copy, Debug)]
pub enum RefreshStage {
    /// Waiting for the broadcaster's id.
    FetchingId,
    /// Waiting for the label to be set.
    SettingLabel,
    /// Waiting out the pause before the ad break.
    Waiting,
    /// Waiting for the ad break to start.
    StartingCommercial,
    /// Waiting for the label to be removed.
    RemovingLabel,
    /// Done: nothing more happens.
    Finished,
}

/// The outside work that `!refreshads` asks for next.
pub enum RefreshAction {
    /// Look up the broadcaster's id.
    FetchBroadcasterId,
    /// Set the content label `label` on the channel, on or off.
    SetLabel { label: String, enabled: bool },
    /// Sleep this many seconds.
    Sleep(u64),
    /// Start an ad break of this many seconds.
    StartCommercial(u32),
    /// Nothing more to do.
    Stop,
}

/// One step of `!refreshads`: what to say in the chat, then what to do.
pub struct RefreshStep {
    pub say: Vec<String>,
    pub action: RefreshAction,
}

/// `!refreshads`, step by step: the caller performs each action and hands
/// back its outcome (the broadcaster's id for the first one).
pub struct RefreshAds {
    stage: RefreshStage,
}

/// What `!refreshads` says when a step failed with `error`.
pub open spec fn refresh_failure(stage: RefreshStage, error: Seq<char>) -> Seq<char> {
    match stage {
        RefreshStage::FetchingId => "Failed to get broadcaster ID: "@ + error,
        RefreshStage::SettingLabel => "Failed to set content label: "@ + error,
        RefreshStage::StartingCommercial => "Failed to start the commercial: "@ + error,
        RefreshStage::RemovingLabel => "Failed to remove content label: "@ + error,
        _ => error,
    }
}

fn set_label(enabled: bool) -> (r: RefreshAction)
    ensures
        r is SetLabel && r->label@ == refresh_label() && r->enabled == enabled,
{
    RefreshAction::SetLabel { label: String::from_str("DebatedSocialIssuesAndPolitics"), enabled }
}

impl RefreshAds {
    pub closed spec fn stage(self) -> RefreshStage {
        self.stage
    }

    /// Starts `!refreshads`: the first action looks up the broadcaster's id.
    pub fn start() -> (r: (RefreshAds, RefreshAction))
        ensures
            r.0.stage() == RefreshStage::FetchingId,
            r.1 is FetchBroadcasterId,
    {
        (RefreshAds { stage: RefreshStage::FetchingId }, RefreshAction::FetchBroadcasterId)
    }

    /// The next step, given the outcome of the last action. A failed lookup
    /// of the id ends the command; any other failure is reported and the
    /// command goes on. The pause before the ad break lasts 10 to 20 seconds.
    pub fn advance(&mut self, outcome: Result<String, String>) -> (r: RefreshStep)
        ensures
            match old(self).stage() {
                RefreshStage::FetchingId => match outcome {
                    Err(e) => final(self).stage() == RefreshStage::Finished && r.action is Stop
                        && string_views(r.say@) == seq![refresh_failure(RefreshStage::FetchingId, e@)],
                    Ok(_) => final(self).stage() == RefreshStage::SettingLabel && r.say@.len() == 0
                        && r.action is SetLabel && r.action->label@ == refresh_label()
                        && r.action->enabled,
                },
                RefreshStage::SettingLabel => final(self).stage() == RefreshStage::Waiting
                    && r.action is Sleep && 10 <= r.action->Sleep_0 <= 20
                    && string_views(r.say@) == failure_lines(RefreshStage::SettingLabel, outcome),
                RefreshStage::Waiting => final(self).stage() == RefreshStage::StartingCommercial
                    && r.say@.len() == 0 && r.action == RefreshAction::StartCommercial(180),
                RefreshStage::StartingCommercial => final(self).stage() == RefreshStage::RemovingLabel
                    && r.action is SetLabel && r.action->label@ == refresh_label() && !r.action->enabled
                    && string_views(r.say@) == failure_lines(RefreshStage::StartingCommercial, outcome),
                RefreshStage::RemovingLabel => final(self).stage() == RefreshStage::Finished
                    && r.action is Stop && string_views(r.say@) == failure_lines(
                    RefreshStage::RemovingLabel,
                    outcome,
                ).push("Ad refresh complete! wanwan wanwan"@),
                RefreshStage::Finished => final(self).stage() == RefreshStage::Finished
                    && r.action is Stop && r.say@.len() == 0,
            },
    {
        let stage = self.stage;
        match stage {
            RefreshStage::FetchingId => match outcome {
                Err(e) => {
                    self.stage = RefreshStage::Finished;
                    let mut say: Vec<String> = Vec::new();
                    say.push(failure_message(stage, e.as_str()));
                    assert(string_views(say@) =~= seq![refresh_failure(stage, e@)]);
                    RefreshStep { say, action: RefreshAction::Stop }
                },
                Ok(_) => {
                    self.stage = RefreshStage::SettingLabel;
                    RefreshStep { say: Vec::new(), action: set_label(true) }
                },
            },
            RefreshStage::SettingLabel => {
                self.stage = RefreshStage::Waiting;
                let say = failure_say(stage, &outcome);
                RefreshStep { say, action: RefreshAction::Sleep(random_between(10, 20)) }
            },
            RefreshStage::Waiting => {
                self.stage = RefreshStage::StartingCommercial;
                RefreshStep { say: Vec::new(), action: RefreshAction::StartCommercial(COMMERCIAL_SECONDS) }
            },
            RefreshStage::StartingCommercial => {
                self.stage = RefreshStage::RemovingLabel;
                let say = failure_say(stage, &outcome);
                RefreshStep { say, action: set_label(false) }
            },
            RefreshStage::RemovingLabel => {
                self.stage = RefreshStage::Finished;
                let mut say = failure_say(stage, &outcome);
                let ghost before = say@;
                say.push(String::from_str("Ad refresh complete! wanwan wanwan"));
                assert(string_views(say@) =~= string_views(before).push("Ad refresh complete! wanwan wanwan"@));
                RefreshStep { say, action: RefreshAction::Stop }
            },
            RefreshStage::Finished => RefreshStep { say: Vec::new(), action: RefreshAction::Stop },
        }
    }
}

/// The failure line of a step, if its outcome was an error.
pub open spec fn failure_lines(stage: RefreshStage, outcome: Result<String, String>) -> Seq<Seq<char>> {
    match outcome {
        Ok(_) => seq![],
        Err(e) => seq![refresh_failure(stage, e@)],
    }
}

fn failure_message(stage: RefreshStage, error: &str) -> (r: String)
    ensures
        r@ == refresh_failure(stage, error@),
{
    let mut r = match stage {
        RefreshStage::FetchingId => String::from_str("Failed to get broadcaster ID: "),
        RefreshStage::SettingLabel => String::from_str("Failed to set content label: "),
        RefreshStage::StartingCommercial => String::from_str("Failed to start the commercial: "),
        RefreshStage::RemovingLabel => String::from_str("Failed to remove content label: "),
        _ => String::new(),
    };
    let ghost head = r@;
    r.append(error);
    proof {
        if !(stage is FetchingId || stage is SettingLabel || stage is StartingCommercial
            || stage is RemovingLabel) {
            assert(head =~= Seq::<char>::empty());
            assert(r@ =~= error@);
        }
    }
    r
}

fn failure_say(stage: RefreshStage, outcome: &Result<String, String>) -> (r: Vec<String>)
    ensures
        string_views(r@) == failure_lines(stage, *outcome),
{
    let mut say: Vec<String> = Vec::new();
    match outcome {
        Ok(_) => {
            assert(string_views(say@) =~= Seq::<Seq<char>>::empty());
        },
        Err(e) => {
            say.push(failure_message(stage, e.as_str()));
            assert(string_views(say@) =~= seq![refresh_failure(stage, e@)]);
        },
    }
    say
}

} // verus!
