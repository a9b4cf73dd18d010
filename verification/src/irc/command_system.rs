use vstd::prelude::*;
use crate::keyed::KeyedList;
use crate::roles::UserRole;
use crate::text::{
    chars_of, filter_chars, is_ascii_graphic, is_ascii_graphic_char, is_ascii_white_space,
    is_ascii_whitespace, is_control, is_control_char, is_white_space, is_whitespace, lowercase,
    split_whitespace, string_from_chars, string_views, to_lowercase, trim, trim_chars, views,
    words, trim_start, trim_end,
};

verus! {

/// A chat command: its name, what it does, and who may use it.
pub trait Command {
    fn name(&self) -> &'static str;

    fn description(&self) -> &'static str;

    fn required_role(&self) -> UserRole;
}

/// What the chat knows of a registered command.
pub struct CommandInfo {
    pub name: String,
    pub description: String,
    pub required_role: UserRole,
}

/// What to do with a command that a chatter typed.
pub enum Dispatch {
    /// No such command: ignore it.
    NotFound,
    /// Run the command.
    Execute,
    /// Answer with this refusal.
    Deny(String),
}

/// The refusal sent to a chatter whose role is too low for a command.
pub open spec fn denial_text(sender: Seq<char>, required: UserRole) -> Seq<char> {
    "@"@ + sender + ", this command is only available to "@ + required.spec_name() + "s and above."@
}

pub fn denial_message(sender: &str, required: UserRole) -> (r: String)
    ensures
        r@ == denial_text(sender@, required),
{
    let mut r = String::from_str("@");
    r.append(sender);
    r.append(", this command is only available to ");
    r.append(required.name());
    r.append("s and above.");
    r
}

/// The commands that the chat can run, by name.
pub struct CommandRegistry {
    commands: KeyedList<CommandInfo>,
}

impl CommandRegistry {
    pub closed spec fn command(self, name: Seq<char>) -> Option<CommandInfo> {
        self.commands.get_spec(name)
    }

    pub fn new() -> (r: Self)
        ensures
            forall|n: Seq<char>| r.command(n) is None,
    {
        CommandRegistry { commands: KeyedList::new() }
    }

    /// Registers a command under its name; a later one replaces an earlier one of the same name.
    pub fn register(&mut self, command: CommandInfo)
        ensures
            final(self).command(command.name@) == Some(command),
            forall|n: Seq<char>| n != command.name@ ==> final(self).command(n) == old(self).command(n),
    {
        let key = command.name.clone();
        self.commands.insert(key, command);
    }

    /// Registers a command from its metadata.
    pub fn register_command<C: Command>(&mut self, command: &C)
        ensures
            exists|info: CommandInfo| #[trigger] final(self).command(info.name@) == Some(info),
    {
        let info = CommandInfo {
            name: String::from_str(command.name()),
            description: String::from_str(command.description()),
            required_role: command.required_role(),
        };
        self.register(info);
    }

    /// Whether a chatter with `role` runs `name`, is refused, or typed no command.
    pub fn dispatch(&self, name: &str, role: UserRole, sender: &str) -> (r: Dispatch)
        ensures
            match self.command(name@) {
                None => r is NotFound,
                Some(c) => if role.rank() >= c.required_role.rank() {
                    r is Execute
                } else {
                    r matches Dispatch::Deny(m) && m@ == denial_text(sender@, c.required_role)
                },
            },
    {
        match self.commands.get(name) {
            None => Dispatch::NotFound,
            Some(c) => if role.satisfies(&c.required_role) {
                Dispatch::Execute
            } else {
                Dispatch::Deny(denial_message(sender, c.required_role))
            },
        }
    }

    /// Whether `name` is a registered command: only then is the sender's
    /// role looked up.
    pub fn is_registered(&self, name: &str) -> (r: bool)
        ensures
            r == self.command(name@) is Some,
    {
        self.commands.get(name).is_some()
    }

    /// What to do with `name` once the sender's role was looked up (`role`):
    /// an unregistered command is ignored whatever the lookup gave; for a
    /// registered one a failed lookup is returned as the error and nothing
    /// runs; otherwise as `dispatch` decides.
    pub fn dispatch_looked_up(&self, name: &str, role: Result<UserRole, String>, sender: &str) -> (r: Result<
        Dispatch,
        String,
    >)
        ensures
            self.command(name@) is None ==> (r matches Ok(d) && d is NotFound),
            self.command(name@) is Some ==> match role {
                Err(e) => r == Err::<Dispatch, String>(e),
                Ok(x) => r matches Ok(d) && if x.rank() >= self.command(name@)->0.required_role.rank() {
                    d is Execute
                } else {
                    d matches Dispatch::Deny(m) && m@ == denial_text(sender@, self.command(name@)->0.required_role)
                },
            },
    {
        if !self.is_registered(name) {
            return Ok(Dispatch::NotFound);
        }
        match role {
            Err(e) => Err(e),
            Ok(x) => Ok(self.dispatch(name, x, sender)),
        }
    }
}

/// A chat line read as a command: the first word, and the words after it.
pub struct ParsedCommand {
    pub command: String,
    pub args: Vec<String>,
}

/// The characters that the chat handler keeps: printable ones and ASCII whitespace.
pub open spec fn chat_keeps(c: char) -> bool {
    (!is_control_char(c) && !is_white_space(c)) || is_ascii_white_space(c)
}

/// The characters that the legacy handler keeps: ASCII graphic characters and ASCII whitespace.
pub open spec fn legacy_keeps(c: char) -> bool {
    is_ascii_graphic_char(c) || is_ascii_white_space(c)
}

/// A chat line cleaned for the chat handler.
pub open spec fn cleaned_chat(s: Seq<char>) -> Seq<char> {
    trim(filter_chars(s, |c: char| chat_keeps(c)))
}

/// A chat line cleaned for the legacy handler: ASCII only, trimmed.
pub open spec fn cleaned_legacy(s: Seq<char>) -> Seq<char> {
    trim(filter_chars(s, |c: char| legacy_keeps(c)))
}

fn filter_kept(s: &[char], legacy: bool) -> (r: Vec<char>)
    ensures
        legacy ==> r@ == filter_chars(s@, |c: char| legacy_keeps(c)),
        !legacy ==> r@ == filter_chars(s@, |c: char| chat_keeps(c)),
{
    let ghost keep = if legacy { |c: char| legacy_keeps(c) } else { |c: char| chat_keeps(c) };
    let mut r: Vec<char> = Vec::new();
    let mut i: usize = 0;
    assert(s@.take(0) =~= Seq::<char>::empty());
    while i < s.len()
        invariant
            i <= s.len(),
            keep == if legacy { |c: char| legacy_keeps(c) } else { |c: char| chat_keeps(c) },
            r@ == filter_chars(s@.take(i as int), keep),
        decreases s.len() - i,
    {
        let c = s[i];
        assert(s@.take(i + 1).drop_last() =~= s@.take(i as int));
        assert(s@.take(i + 1).last() == c);
        let k = if legacy {
            is_ascii_graphic(c) || is_ascii_whitespace(c)
        } else {
            (!is_control(c) && !is_whitespace(c)) || is_ascii_whitespace(c)
        };
        assert(k == keep(c));
        if k {
            r.push(c);
        }
        i = i + 1;
    }
    assert(s@.take(s.len() as int) =~= s@);
    r
}

/// Cleans a chat line the way the chat handler does: control and non-ASCII
/// whitespace characters are dropped, then the line is trimmed.
pub fn clean_chat_message(text: &str) -> (r: String)
    ensures
        r@ == cleaned_chat(text@),
{
    let cs = chars_of(text);
    let kept = filter_kept(cs.as_slice(), false);
    let t = trim_chars(kept.as_slice());
    string_from_chars(t.as_slice())
}

/// Cleans a chat line the way the legacy handler does: only ASCII graphic
/// characters and ASCII whitespace are kept, then the line is trimmed.
pub fn clean_legacy_message(text: &str) -> (r: String)
    ensures
        r@ == cleaned_legacy(text@),
{
    let cs = chars_of(text);
    let kept = filter_kept(cs.as_slice(), true);
    let t = trim_chars(kept.as_slice());
    string_from_chars(t.as_slice())
}

/// Splits a line into its first word and the rest; `None` for a blank line.
pub fn parse_command(line: &str) -> (r: Option<ParsedCommand>)
    ensures
        words(line@).len() == 0 <==> r is None,
        r matches Some(p) ==> p.command@ == words(line@)[0] && string_views(p.args@) == words(line@).drop_first(),
{
    let cs = chars_of(line);
    let ws = split_whitespace(cs.as_slice());
    if ws.len() == 0 {
        return None;
    }
    let command = string_from_chars(ws[0].as_slice());
    let mut args: Vec<String> = Vec::new();
    let mut i: usize = 1;
    let ghost all = views(ws@);
    while i < ws.len()
        invariant
            1 <= i <= ws.len(),
            all == views(ws@),
            string_views(args@) == all.subrange(1, i as int),
        decreases ws.len() - i,
    {
        let a = string_from_chars(ws[i].as_slice());
        let ghost before = args@;
        args.push(a);
        assert(string_views(args@) =~= string_views(before).push(a@));
        assert(all.subrange(1, i + 1) =~= all.subrange(1, i as int).push(all[i as int]));
        i = i + 1;
    }
    assert(all.subrange(1, ws.len() as int) =~= all.drop_first());
    Some(ParsedCommand { command, args })
}

/// What the chat handler reads from a chat line: the cleaned line (which is
/// also forwarded to the dashboard) and the command in it, if any.
pub fn read_chat_line(text: &str) -> (r: (String, Option<ParsedCommand>))
    ensures
        r.0@ == cleaned_chat(text@),
        words(r.0@).len() == 0 <==> r.1 is None,
        r.1 matches Some(p) ==> p.command@ == words(r.0@)[0] && string_views(p.args@) == words(r.0@).drop_first(),
{
    let cleaned = clean_chat_message(text);
    let parsed = parse_command(cleaned.as_str());
    (cleaned, parsed)
}

/// What the legacy handler reads from a chat line: the cleaned, lowercased
/// line cut into a command and its parameters.
pub fn read_legacy_line(text: &str) -> (r: Option<ParsedCommand>)
    ensures
        words(lowercase(cleaned_legacy(text@))).len() == 0 <==> r is None,
        r matches Some(p) ==> p.command@ == words(lowercase(cleaned_legacy(text@)))[0] && string_views(p.args@)
            == words(lowercase(cleaned_legacy(text@))).drop_first(),
{
    let cleaned = clean_legacy_message(text);
    let lower = to_lowercase(cleaned.as_str());
    parse_command(lower.as_str())
}

} // verus!

verus! {

/// The chat line as the dashboard is told of it.
pub fn chat_dashboard_message(cleaned: &str, user: &str, channel: &str) -> (r: crate::irc::client::DashboardMessage)
    ensures
        crate::irc::client::dashboard_view(r) == (
            "twitch"@,
            "new_message"@,
            seq![
                ("message"@, crate::irc::client::FieldView::Text(cleaned@)),
                ("user"@, crate::irc::client::FieldView::Text(user@)),
                ("channel"@, crate::irc::client::FieldView::Text(channel@)),
            ],
        ),
{
    let mut data: Vec<(String, crate::irc::client::FieldValue)> = Vec::new();
    data.push((String::from_str("message"), crate::irc::client::FieldValue::Text(String::from_str(cleaned))));
    data.push((String::from_str("user"), crate::irc::client::FieldValue::Text(String::from_str(user))));
    data.push((String::from_str("channel"), crate::irc::client::FieldValue::Text(String::from_str(channel))));
    let r = crate::irc::client::DashboardMessage {
        module: String::from_str("twitch"),
        action: String::from_str("new_message"),
        data,
    };
    assert(crate::irc::client::dashboard_view(r).2 =~= seq![
        ("message"@, crate::irc::client::FieldView::Text(cleaned@)),
        ("user"@, crate::irc::client::FieldView::Text(user@)),
        ("channel"@, crate::irc::client::FieldView::Text(channel@)),
    ]);
    r
}

/// The role a chatter is taken to have: the one looked up, or a viewer where
/// the lookup failed.
pub fn role_or_viewer(looked_up: Result<UserRole, String>) -> (r: UserRole)
    ensures
        r == match looked_up {
            Ok(role) => role,
            Err(_) => UserRole::Viewer,
        },
{
    match looked_up {
        Ok(role) => role,
        Err(_) => UserRole::Viewer,
    }
}

} // verus!

verus! {

/// The commands that the chat handler knows, with the role each needs, in
/// the order they are registered.
pub open spec fn standard_commands() -> Seq<(Seq<char>, UserRole)> {
    seq![
        ("!ping"@, UserRole::Viewer),
        ("!isitfriday"@, UserRole::Viewer),
        ("!xmas"@, UserRole::Viewer),
        ("!so"@, UserRole::Subscriber),
        ("!uptime"@, UserRole::Viewer),
        ("!verify"@, UserRole::Viewer),
        ("!vrc"@, UserRole::Viewer),
        ("!world"@, UserRole::Subscriber),
        ("!resetdrop"@, UserRole::Moderator),
        ("!title"@, UserRole::Moderator),
        ("!game"@, UserRole::Moderator),
        ("!content"@, UserRole::Moderator),
        ("!runad"@, UserRole::Moderator),
        ("!refreshads"@, UserRole::Moderator),
    ]
}

/// The names of the standard commands differ from one another.
pub proof fn lemma_standard_names_distinct()
    ensures
        forall|i: int, j: int|
            0 <= i < j < standard_commands().len() ==> standard_commands()[i].0 != standard_commands()[j].0,
{
    reveal_strlit("!ping");
    reveal_strlit("!isitfriday");
    reveal_strlit("!xmas");
    reveal_strlit("!so");
    reveal_strlit("!uptime");
    reveal_strlit("!verify");
    reveal_strlit("!vrc");
    reveal_strlit("!world");
    reveal_strlit("!resetdrop");
    reveal_strlit("!title");
    reveal_strlit("!game");
    reveal_strlit("!content");
    reveal_strlit("!runad");
    reveal_strlit("!refreshads");
    assert("!ping"@.len() == 5);
    assert("!isitfriday"@.len() == 11);
    assert("!xmas"@.len() == 5);
    assert("!so"@.len() == 3);
    assert("!uptime"@.len() == 7);
    assert("!verify"@.len() == 7);
    assert("!vrc"@.len() == 4);
    assert("!world"@.len() == 6);
    assert("!resetdrop"@.len() == 10);
    assert("!title"@.len() == 6);
    assert("!game"@.len() == 5);
    assert("!content"@.len() == 8);
    assert("!runad"@.len() == 6);
    assert("!refreshads"@.len() == 11);
    assert("!ping"@[1] != "!xmas"@[1]);
    assert("!ping"@[1] != "!game"@[1]);
    assert("!isitfriday"@[1] != "!refreshads"@[1]);
    assert("!xmas"@[1] != "!game"@[1]);
    assert("!uptime"@[1] != "!verify"@[1]);
    assert("!world"@[1] != "!title"@[1]);
    assert("!world"@[1] != "!runad"@[1]);
    assert("!title"@[1] != "!runad"@[1]);
}

impl CommandRegistry {
    /// The registry of the chat handler: every standard command, under its
    /// name, with its description and the role it needs.
    pub fn standard() -> (r: CommandRegistry)
        ensures
            forall|i: int|
                0 <= i < standard_commands().len() ==> (#[trigger] r.command(standard_commands()[i].0) matches Some(c)
                    && c.name@ == standard_commands()[i].0 && c.required_role == standard_commands()[i].1),
            forall|n: Seq<char>|
                (forall|i: int| 0 <= i < standard_commands().len() ==> standard_commands()[i].0 != n) ==> r.command(
                    n,
                ) is None,
    {
        let mut r = CommandRegistry::new();
        let c = crate::irc::commands::ping::PingCommand;
        r.register(
            CommandInfo {
                name: String::from_str(c.name()),
                description: String::from_str(c.description()),
                required_role: c.required_role(),
            },
        );
        let c = crate::irc::commands::fun_commands::IsItFridayCommand;
        r.register(
            CommandInfo {
                name: String::from_str(c.name()),
                description: String::from_str(c.description()),
                required_role: c.required_role(),
            },
        );
        let c = crate::irc::commands::fun_commands::XmasCommand;
        r.register(
            CommandInfo {
                name: String::from_str(c.name()),
                description: String::from_str(c.description()),
                required_role: c.required_role(),
            },
        );
        let c = crate::irc::commands::shoutout::ShoutoutCommand;
        r.register(
            CommandInfo {
                name: String::from_str(c.name()),
                description: String::from_str(c.description()),
                required_role: c.required_role(),
            },
        );
        let c = crate::irc::commands::uptime::UptimeCommand;
        r.register(
            CommandInfo {
                name: String::from_str(c.name()),
                description: String::from_str(c.description()),
                required_role: c.required_role(),
            },
        );
        let c = crate::irc::commands::verify::VerifyCommand;
        r.register(
            CommandInfo {
                name: String::from_str(c.name()),
                description: String::from_str(c.description()),
                required_role: c.required_role(),
            },
        );
        let c = crate::irc::commands::vrc::VRCCommand;
        r.register(
            CommandInfo {
                name: String::from_str(c.name()),
                description: String::from_str(c.description()),
                required_role: c.required_role(),
            },
        );
        let c = crate::irc::commands::world::WorldCommand;
        r.register(
            CommandInfo {
                name: String::from_str(c.name()),
                description: String::from_str(c.description()),
                required_role: c.required_role(),
            },
        );
        let c = crate::irc::commands::reset_drop_game::ResetDropGameCommand;
        r.register(
            CommandInfo {
                name: String::from_str(c.name()),
                description: String::from_str(c.description()),
                required_role: c.required_role(),
            },
        );
        let c = crate::irc::commands::channel_management::TitleCommand;
        r.register(
            CommandInfo {
                name: String::from_str(c.name()),
                description: String::from_str(c.description()),
                required_role: c.required_role(),
            },
        );
        let c = crate::irc::commands::channel_management::GameCommand;
        r.register(
            CommandInfo {
                name: String::from_str(c.name()),
                description: String::from_str(c.description()),
                required_role: c.required_role(),
            },
        );
        let c = crate::irc::commands::channel_management::ContentCommand;
        r.register(
            CommandInfo {
                name: String::from_str(c.name()),
                description: String::from_str(c.description()),
                required_role: c.required_role(),
            },
        );
        let c = crate::irc::commands::channel_management::RunAdCommand;
        r.register(
            CommandInfo {
                name: String::from_str(c.name()),
                description: String::from_str(c.description()),
                required_role: c.required_role(),
            },
        );
        let c = crate::irc::commands::channel_management::RefreshAdsCommand;
        r.register(
            CommandInfo {
                name: String::from_str(c.name()),
                description: String::from_str(c.description()),
                required_role: c.required_role(),
            },
        );
        proof {
            lemma_standard_names_distinct();
        }
        r
    }
}

/// A printable character: neither a control character nor whitespace.
pub open spec fn printable_char(c: char) -> bool {
    !is_control_char(c) && !is_white_space(c)
}

proof fn lemma_filter_keeps_all(s: Seq<char>, keep: spec_fn(char) -> bool)
    requires
        forall|i: int| 0 <= i < s.len() ==> keep(#[trigger] s[i]),
    ensures
        filter_chars(s, keep) == s,
    decreases s.len(),
{
    if s.len() > 0 {
        let p = s.drop_last();
        assert forall|i: int| 0 <= i < p.len() implies keep(#[trigger] p[i]) by {
            assert(p[i] == s[i]);
        }
        lemma_filter_keeps_all(p, keep);
        assert(keep(s[s.len() - 1]));
        assert(p.push(s.last()) =~= s);
    }
}

proof fn lemma_filter_only_kept(s: Seq<char>, keep: spec_fn(char) -> bool)
    ensures
        forall|i: int| 0 <= i < filter_chars(s, keep).len() ==> keep(#[trigger] filter_chars(s, keep)[i]),
    decreases s.len(),
{
    if s.len() > 0 {
        lemma_filter_only_kept(s.drop_last(), keep);
        let f = filter_chars(s.drop_last(), keep);
        if keep(s.last()) {
            assert forall|i: int| 0 <= i < f.push(s.last()).len() implies keep(#[trigger] f.push(s.last())[i]) by {
                if i < f.len() {
                    assert(f.push(s.last())[i] == f[i]);
                }
            }
        }
    }
}

proof fn lemma_trim_start_within(s: Seq<char>, p: spec_fn(char) -> bool)
    requires
        forall|i: int| 0 <= i < s.len() ==> p(#[trigger] s[i]),
    ensures
        forall|i: int| 0 <= i < trim_start(s).len() ==> p(#[trigger] trim_start(s)[i]),
    decreases s.len(),
{
    if s.len() > 0 && is_white_space(s[0]) {
        let r = s.drop_first();
        assert forall|i: int| 0 <= i < r.len() implies p(#[trigger] r[i]) by {
            assert(r[i] == s[i + 1]);
        }
        lemma_trim_start_within(r, p);
        assert(trim_start(s) == trim_start(r));
    } else {
        assert(trim_start(s) == s);
    }
}

proof fn lemma_trim_end_within(s: Seq<char>, p: spec_fn(char) -> bool)
    requires
        forall|i: int| 0 <= i < s.len() ==> p(#[trigger] s[i]),
    ensures
        forall|i: int| 0 <= i < trim_end(s).len() ==> p(#[trigger] trim_end(s)[i]),
    decreases s.len(),
{
    if s.len() > 0 && is_white_space(s.last()) {
        let r = s.drop_last();
        assert forall|i: int| 0 <= i < r.len() implies p(#[trigger] r[i]) by {
            assert(r[i] == s[i]);
        }
        lemma_trim_end_within(r, p);
        assert(trim_end(s) == trim_end(r));
    } else {
        assert(trim_end(s) == s);
    }
}

/// A cleaned chat line holds nothing but printable characters and ASCII
/// whitespace: control characters and non-ASCII whitespace never survive.
pub proof fn law_chat_drops_unprintable(s: Seq<char>)
    ensures
        forall|i: int|
            0 <= i < cleaned_chat(s).len() ==> printable_char(#[trigger] cleaned_chat(s)[i])
                || is_ascii_white_space(cleaned_chat(s)[i]),
{
    let keep = |c: char| chat_keeps(c);
    let p = |c: char| printable_char(c) || is_ascii_white_space(c);
    lemma_filter_only_kept(s, keep);
    let f = filter_chars(s, keep);
    assert forall|i: int| 0 <= i < f.len() implies p(#[trigger] f[i]) by {
        assert(keep(f[i]));
    }
    lemma_trim_start_within(f, p);
    lemma_trim_end_within(trim_start(f), p);
    assert forall|i: int| 0 <= i < cleaned_chat(s).len() implies printable_char(#[trigger] cleaned_chat(s)[i])
        || is_ascii_white_space(cleaned_chat(s)[i]) by {
        assert(p(trim_end(trim_start(f))[i]));
    }
}

/// Cleaning a chat line keeps every printable character, ASCII or not (such
/// as `π` or `é`), and ASCII whitespace: a line made of those that neither
/// starts nor ends with whitespace comes back unchanged, and so do its
/// command and arguments.
pub proof fn law_chat_keeps_printable(s: Seq<char>)
    requires
        forall|i: int| 0 <= i < s.len() ==> printable_char(#[trigger] s[i]) || is_ascii_white_space(s[i]),
        s.len() > 0 ==> !is_white_space(s[0]) && !is_white_space(s.last()),
    ensures
        cleaned_chat(s) == s,
{
    let keep = |c: char| chat_keeps(c);
    assert forall|i: int| 0 <= i < s.len() implies keep(#[trigger] s[i]) by {
        assert(printable_char(s[i]) || is_ascii_white_space(s[i]));
    }
    lemma_filter_keeps_all(s, keep);
    assert(trim_start(s) == s);
    if s.len() > 0 {
        assert(trim_end(s) == s);
    }
}

} // verus!

verus! {

/// A command that a role may run stays open to every higher role: access
/// only grows along Viewer, Subscriber, VIP, Moderator, Broadcaster.
pub proof fn law_higher_roles_keep_access(registry: CommandRegistry, name: Seq<char>, low: UserRole, high: UserRole)
    requires
        high.rank() >= low.rank(),
        registry.command(name) matches Some(c) && low.rank() >= c.required_role.rank(),
    ensures
        registry.command(name) matches Some(c) && high.rank() >= c.required_role.rank(),
{
}

} // verus!
