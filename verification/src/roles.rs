use vstd::prelude::*;

verus! {

/// The standing of a chatter in the channel, from least to most privileged.
#[derive(Debug, Clone, Copy, PartialEq, Eq, Structural)]
pub enum UserRole {
    Viewer,
    Subscriber,
    VIP,
    Moderator,
    Broadcaster,
}

impl UserRole {
    pub open spec fn rank(self) -> int {
        match self {
            UserRole::Viewer => 0,
            UserRole::Subscriber => 1,
            UserRole::VIP => 2,
            UserRole::Moderator => 3,
            UserRole::Broadcaster => 4,
        }
    }

    pub fn level(&self) -> (r: u8)
        ensures
            r as int == self.rank(),
    {
        match self {
            UserRole::Viewer => 0,
            UserRole::Subscriber => 1,
            UserRole::VIP => 2,
            UserRole::Moderator => 3,
            UserRole::Broadcaster => 4,
        }
    }

    /// Whether this role is `required` or above it.
    pub fn satisfies(&self, required: &UserRole) -> (r: bool)
        ensures
            r == (self.rank() >= required.rank()),
    {
        self.level() >= required.level()
    }

    pub open spec fn spec_name(self) -> Seq<char> {
        match self {
            UserRole::Viewer => "Viewer"@,
            UserRole::Subscriber => "Subscriber"@,
            UserRole::VIP => "VIP"@,
            UserRole::Moderator => "Moderator"@,
            UserRole::Broadcaster => "Broadcaster"@,
        }
    }

    /// The role's name, as `{:?}` prints it.
    pub fn name(&self) -> (s: &'static str)
        ensures
            s@ == self.spec_name(),
    {
        match self {
            UserRole::Viewer => "Viewer",
            UserRole::Subscriber => "Subscriber",
            UserRole::VIP => "VIP",
            UserRole::Moderator => "Moderator",
            UserRole::Broadcaster => "Broadcaster",
        }
    }
}

} // verus!
