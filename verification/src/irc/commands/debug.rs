use vstd::prelude::*;
use crate::text::{lowercase, str_equal, string_views, to_lowercase, trim, trim_string};

verus! {

/// The log levels that `!debug` switches between, from the least verbose to
/// the most.
#[derive(Clone, Copy, PartialEq, Eq, Structural, Debug)]
pub enum LogLevel {
    Info,
    Debug,
    Verbose,
}

impl LogLevel {
    /// How verbose the level is.
    pub open spec fn rank(self) -> int {
        match self {
            LogLevel::Info => 0,
            LogLevel::Debug => 1,
            LogLevel::Verbose => 2,
        }
    }

    /// The level's name as the bot prints it.
    pub open spec fn label(self) -> Seq<char> {
        match self {
            LogLevel::Info => "INFO"@,
            LogLevel::Debug => "DEBUG"@,
            LogLevel::Verbose => "VERBOSE"@,
        }
    }

    pub fn label_text(&self) -> (r: &'static str)
        ensures
            r@ == self.label(),
    {
        match self {
            LogLevel::Info => "INFO",
            LogLevel::Debug => "DEBUG",
            LogLevel::Verbose => "VERBOSE",
        }
    }
}

/// The level that `!debug` without parameters switches to: DEBUG from INFO
/// or below, INFO otherwise.
pub open spec fn toggled(level: LogLevel) -> LogLevel {
    if level.rank() <= LogLevel::Info.rank() {
        LogLevel::Debug
    } else {
        LogLevel::Info
    }
}

/// One parameter of `!debug`, applied to (current level, answer so far,
/// levels set so far).
pub open spec fn debug_step(
    state: (LogLevel, Seq<char>, Seq<LogLevel>),
    param: Seq<char>,
) -> (LogLevel, Seq<char>, Seq<LogLevel>) {
    let (level, answer, sets) = state;
    let p = lowercase(param);
    if p == "verbose"@ {
        (LogLevel::Verbose, answer + "Log level is now VERBOSE. "@, sets.push(LogLevel::Verbose))
    } else if p == "debug"@ {
        (LogLevel::Debug, answer + "Log level is now DEBUG. "@, sets.push(LogLevel::Debug))
    } else if p == "info"@ {
        (LogLevel::Info, answer + "Log level is now INFO. "@, sets.push(LogLevel::Info))
    } else if p == "status"@ {
        (level, answer + "Current log level: "@ + level.label() + ". "@, sets)
    } else {
        (level, answer + "Unknown option: "@ + param + ". "@, sets)
    }
}

/// The parameters of `!debug` applied in order, from `level`.
pub open spec fn debug_run(level: LogLevel, params: Seq<Seq<char>>) -> (
    LogLevel,
    Seq<char>,
    Seq<LogLevel>,
)
    decreases params.len(),
{
    if params.len() == 0 {
        (level, Seq::empty(), Seq::empty())
    } else {
        debug_step(debug_run(level, params.drop_last()), params.last())
    }
}

/// The answer of `!debug` (before trimming) and the levels it sets, in order.
pub open spec fn debug_outcome(level: LogLevel, params: Seq<Seq<char>>) -> (
    Seq<char>,
    Seq<LogLevel>,
) {
    let (answer, sets) = if params.len() == 0 {
        ("Log level is now "@ + toggled(level).label(), seq![toggled(level)])
    } else {
        let run = debug_run(level, params);
        (run.1, run.2)
    };
    (if answer.len() == 0 { "No changes were made."@ } else { answer }, sets)
}

/// What `!debug` does: the log levels to set, one after the other, and the
/// answer to send.
pub struct DebugPlan {
    pub levels: Vec<LogLevel>,
    pub reply: String,
}

/// Plans `!debug` sent by `sender` with `params` while the bot logs at
/// `level`: with no parameters it switches between INFO and DEBUG; otherwise
/// each parameter sets a level, reports the current one (`status`), or is
/// answered as unknown.
pub fn debug_plan(level: LogLevel, sender: &str, params: &Vec<String>) -> (r: DebugPlan)
    ensures
        r.levels@ == debug_outcome(level, string_views(params@)).1,
        r.reply@ == "@"@ + sender@ + ", "@ + trim(debug_outcome(level, string_views(params@)).0),
{
    let ghost ps = string_views(params@);
    let mut levels: Vec<LogLevel> = Vec::new();
    let mut answer = String::new();
    if params.len() == 0 {
        let next = match level {
            LogLevel::Info => LogLevel::Debug,
            _ => LogLevel::Info,
        };
        answer.append("Log level is now ");
        answer.append(next.label_text());
        levels.push(next);
        assert(levels@ =~= seq![toggled(level)]);
    } else {
        let mut current = level;
        let mut i: usize = 0;
        while i < params.len()
            invariant
                i <= params.len(),
                ps == string_views(params@),
                (current, answer@, levels@) == debug_run(level, ps.take(i as int)),
            decreases params.len() - i,
        {
            assert(ps.take(i + 1).drop_last() =~= ps.take(i as int));
            assert(ps.take(i + 1).last() == params@[i as int]@);
            let p = to_lowercase(params[i].as_str());
            if str_equal(p.as_str(), "verbose") {
                current = LogLevel::Verbose;
                answer.append("Log level is now VERBOSE. ");
                levels.push(LogLevel::Verbose);
            } else if str_equal(p.as_str(), "debug") {
                current = LogLevel::Debug;
                answer.append("Log level is now DEBUG. ");
                levels.push(LogLevel::Debug);
            } else if str_equal(p.as_str(), "info") {
                current = LogLevel::Info;
                answer.append("Log level is now INFO. ");
                levels.push(LogLevel::Info);
            } else if str_equal(p.as_str(), "status") {
                answer.append("Current log level: ");
                answer.append(current.label_text());
                answer.append(". ");
            } else {
                answer.append("Unknown option: ");
                answer.append(params[i].as_str());
                answer.append(". ");
            }
            i = i + 1;
        }
        assert(ps.take(params.len() as int) =~= ps);
    }
    if answer.as_str().is_empty() {
        answer = String::from_str("No changes were made.");
    }
    let trimmed = trim_string(answer.as_str());
    let mut reply = String::from_str("@");
    reply.append(sender);
    reply.append(", ");
    reply.append(trimmed.as_str());
    DebugPlan { levels, reply }
}

} // verus!
