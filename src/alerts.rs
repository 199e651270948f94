use vstd::prelude::*;

verus! {

/// The commands the service knows.
#[derive(Clone, Copy, Debug, PartialEq, Eq, Structural)]
pub enum CommandKind {
    /// Toggle the alerts role for the invoking user.
    Alerts,
    Unknown,
}

/// The ephemeral replies to a command.
#[derive(Clone, Copy, Debug, PartialEq, Eq, Structural)]
pub enum Reply {
    UnknownCommand,
    NoConfiguration,
    NotInGuild,
    WrongGuild,
    RoleNotConfigured,
    Added,
    Removed,
    AddFailed,
    RemoveFailed,
}

/// The change to the invoking member's alerts role.
#[derive(Clone, Copy, Debug, PartialEq, Eq, Structural)]
pub enum RoleChange {
    Add,
    Remove,
}

pub open spec fn reply_text(r: Reply) -> Seq<char> {
    match r {
        Reply::UnknownCommand => "Unknown command"@,
        Reply::NoConfiguration => "Configuration not found"@,
        Reply::NotInGuild => "This command can only be used in a guild"@,
        Reply::WrongGuild => "This command is not available in this guild"@,
        Reply::RoleNotConfigured => "Alerts role is not configured. Please contact an administrator."@,
        Reply::Added => "Successfully added the alerts role!"@,
        Reply::Removed => "Successfully removed the alerts role!"@,
        Reply::AddFailed => "Failed to add the alerts role. Please contact an administrator."@,
        Reply::RemoveFailed => "Failed to remove the alerts role. Please contact an administrator."@,
    }
}

/// Whether two texts are equal.
pub fn same_text(a: &str, b: &str) -> (r: bool)
    ensures
        r == (a@ == b@),
{
    let n = a.unicode_len();
    if n != b.unicode_len() {
        return false;
    }
    let mut i: usize = 0;
    while i < n
        invariant
            n == a@.len(),
            n == b@.len(),
            i <= n,
            forall|j: int| 0 <= j < i ==> a@[j] == b@[j],
        decreases n - i,
    {
        if a.get_char(i) != b.get_char(i) {
            return false;
        }
        i = i + 1;
    }
    assert(a@ =~= b@);
    true
}

/// The command of an invocation, by its name.
pub fn command_kind(name: &str) -> (r: CommandKind)
    ensures
        r == if name@ == "alerts"@ { CommandKind::Alerts } else { CommandKind::Unknown },
{
    if same_text(name, "alerts") {
        CommandKind::Alerts
    } else {
        CommandKind::Unknown
    }
}

pub open spec fn refusal_spec(guild: u64, alerts_role: u64, command_guild: Option<u64>) -> Option<Reply> {
    match command_guild {
        None => Some(Reply::NotInGuild),
        Some(g) => if g != guild {
            Some(Reply::WrongGuild)
        } else if alerts_role == 0 {
            Some(Reply::RoleNotConfigured)
        } else {
            None
        },
    }
}

/// Why the alerts command cannot run, if it cannot: it must come from the
/// configured guild, and a role must be configured (0 means none).
pub fn alerts_refusal(guild: u64, alerts_role: u64, command_guild: Option<u64>) -> (r: Option<Reply>)
    ensures
        r == refusal_spec(guild, alerts_role, command_guild),
{
    match command_guild {
        None => Some(Reply::NotInGuild),
        Some(g) => {
            if g != guild {
                Some(Reply::WrongGuild)
            } else if alerts_role == 0 {
                Some(Reply::RoleNotConfigured)
            } else {
                None
            }
        },
    }
}

/// Removes the role from a member who has it, and adds it otherwise.
pub fn role_change(roles: &Vec<u64>, alerts_role: u64) -> (r: RoleChange)
    ensures
        r == if roles@.contains(alerts_role) { RoleChange::Remove } else { RoleChange::Add },
{
    let mut i: usize = 0;
    while i < roles.len()
        invariant
            i <= roles@.len(),
            forall|j: int| 0 <= j < i ==> roles@[j] != alerts_role,
        decreases roles@.len() - i,
    {
        if roles[i] == alerts_role {
            return RoleChange::Remove;
        }
        i = i + 1;
    }
    RoleChange::Add
}

/// The reply after the role change was attempted.
pub fn change_reply(change: RoleChange, succeeded: bool) -> (r: Reply)
    ensures
        change == RoleChange::Add && succeeded ==> r == Reply::Added,
        change == RoleChange::Add && !succeeded ==> r == Reply::AddFailed,
        change == RoleChange::Remove && succeeded ==> r == Reply::Removed,
        change == RoleChange::Remove && !succeeded ==> r == Reply::RemoveFailed,
{
    match (change, succeeded) {
        (RoleChange::Add, true) => Reply::Added,
        (RoleChange::Add, false) => Reply::AddFailed,
        (RoleChange::Remove, true) => Reply::Removed,
        (RoleChange::Remove, false) => Reply::RemoveFailed,
    }
}

impl RoleChange {
    /// The past tense of the change, for the log.
    pub fn past_tense(&self) -> (r: String)
        ensures
            r@ == if *self == RoleChange::Add { "added"@ } else { "removed"@ },
    {
        match self {
            RoleChange::Add => String::from_str("added"),
            RoleChange::Remove => String::from_str("removed"),
        }
    }
}

impl Reply {
    /// The text shown to the invoking user.
    pub fn message(&self) -> (r: String)
        ensures
            r@ == reply_text(*self),
    {
        match self {
            Reply::UnknownCommand => String::from_str("Unknown command"),
            Reply::NoConfiguration => String::from_str("Configuration not found"),
            Reply::NotInGuild => String::from_str("This command can only be used in a guild"),
            Reply::WrongGuild => String::from_str("This command is not available in this guild"),
            Reply::RoleNotConfigured => String::from_str(
                "Alerts role is not configured. Please contact an administrator.",
            ),
            Reply::Added => String::from_str("Successfully added the alerts role!"),
            Reply::Removed => String::from_str("Successfully removed the alerts role!"),
            Reply::AddFailed => String::from_str(
                "Failed to add the alerts role. Please contact an administrator.",
            ),
            Reply::RemoveFailed => String::from_str(
                "Failed to remove the alerts role. Please contact an administrator.",
            ),
        }
    }

    /// Whether the reply reports a change that was made.
    pub fn is_success(&self) -> (r: bool)
        ensures
            r == (*self == Reply::Added || *self == Reply::Removed),
    {
        match self {
            Reply::Added | Reply::Removed => true,
            _ => false,
        }
    }
}

} // verus!
