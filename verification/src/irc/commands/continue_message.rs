use vstd::prelude::*;
use crate::irc::command_system::Command;
use crate::roles::UserRole;
use crate::text::{
    chars_in_bytes, chars_of, is_char_boundary, slice_range, string_from_chars, utf8_len,
    utf8_len_capped,
};

verus! {

/// `!continue`: the next part of an AI answer that was cut short.
pub struct ContinueCommand;

impl Command for ContinueCommand {
    fn name(&self) -> (r: &'static str)
        ensures
            r@ == "!continue"@,
    {
        "!continue"
    }

    fn description(&self) -> (r: &'static str)
        ensures
            r@ == "Continues a previously truncated AI response"@,
    {
        "Continues a previously truncated AI response"
    }

    fn required_role(&self) -> (r: UserRole)
        ensures
            r == UserRole::Viewer,
    {
        UserRole::Viewer
    }
}

/// What `!continue` does with the stored remainder.
pub enum ContinuePlan {
    /// Say this and keep nothing.
    Send(String),
    /// Say `message` and keep `rest` for the next `!continue`.
    SendMore { message: String, rest: String },
}

impl ContinueCommand {
    /// The answer and what is kept: a remainder over 500 bytes is cut after
    /// its first 497 bytes.
    pub fn plan(&self, remainder: Option<String>) -> (r: ContinuePlan)
        requires
            match remainder {
                Some(text) => utf8_len(text@) > 500 ==> is_char_boundary(text@, 497),
                None => true,
            },
        ensures
            match remainder {
                None => r is Send && r->0@ == "No continuation available."@,
                Some(text) => if utf8_len(text@) <= 500 {
                    r is Send && r->0@ == text@
                } else {
                    exists|k: int|
                        0 <= k <= text@.len() && utf8_len(#[trigger] text@.take(k)) == 497 && r is SendMore
                            && r->message@ == text@.take(k) + "..."@ + " (Use !continue to see more)"@
                            && r->rest@ == text@.skip(k)
                },
            },
    {
        match remainder {
            None => ContinuePlan::Send(String::from_str("No continuation available.")),
            Some(text) => {
                let cs = chars_of(text.as_str());
                let len = utf8_len_capped(cs.as_slice(), 501);
                if len > 500 {
                    let k = chars_in_bytes(cs.as_slice(), 497);
                    let head = slice_range(cs.as_slice(), 0, k);
                    let tail = slice_range(cs.as_slice(), k, cs.len());
                    let mut message = string_from_chars(head.as_slice());
                    message.append("...");
                    message.append(" (Use !continue to see more)");
                    let rest = string_from_chars(tail.as_slice());
                    assert(head@ =~= text@.take(k as int));
                    assert(tail@ =~= text@.skip(k as int));
                    ContinuePlan::SendMore { message, rest }
                } else {
                    ContinuePlan::Send(text)
                }
            },
        }
    }
}

} // verus!
