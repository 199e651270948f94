use vstd::prelude::*;

verus! {

/// The part of the configuration that channel access reads.
#[derive(Clone, Copy, Debug, PartialEq, Eq, Structural)]
pub struct AccessConfig {
    /// The one guild whose events are acted on.
    pub guild: u64,
    /// The joinable voice channel whose members may see the restricted channel.
    pub companion: u64,
    /// The channel whose visibility follows companion-channel presence.
    pub restricted: u64,
}

/// The new voice state of one user, as the gateway reports it.
#[derive(Clone, Copy, Debug, PartialEq, Eq, Structural)]
pub struct VoiceUpdate {
    /// The guild of the event, when the gateway sent one.
    pub guild: Option<u64>,
    /// Whether the event carries the member.
    pub has_member: bool,
    pub user: u64,
    /// The channel the user is in now, if any.
    pub channel: Option<u64>,
    /// The streaming flag of the event, when present.
    pub self_stream: Option<bool>,
}

/// A platform call that a presence event asks for.
#[derive(Clone, Copy, Debug, PartialEq, Eq, Structural)]
pub enum AccessAction {
    /// Allow the user to view the restricted channel.
    Grant { user: u64 },
    /// Move the user into the restricted channel.
    MoveToRestricted { user: u64 },
    /// Remove the user's view override on the restricted channel.
    Revoke { user: u64 },
}

pub open spec fn is_tracked(c: AccessConfig, channel: u64) -> bool {
    channel == c.companion || channel == c.restricted
}

pub open spec fn in_scope(c: AccessConfig, ev: VoiceUpdate) -> bool {
    ev.has_member && ev.guild == Some(c.guild)
}

pub open spec fn grant_part(c: AccessConfig, ev: VoiceUpdate) -> Seq<AccessAction> {
    if ev.channel == Some(c.companion) {
        seq![AccessAction::Grant { user: ev.user }]
    } else {
        seq![]
    }
}

pub open spec fn move_part(c: AccessConfig, ev: VoiceUpdate) -> Seq<AccessAction> {
    if ev.channel == Some(c.companion) && ev.self_stream == Some(true) {
        seq![AccessAction::MoveToRestricted { user: ev.user }]
    } else {
        seq![]
    }
}

/// A user leaves when they were in a tracked channel and are now in none of
/// the two; a transfer between the two tracked channels is no leave.
pub open spec fn leaves(c: AccessConfig, old_channel: Option<u64>, ev: VoiceUpdate) -> bool {
    &&& old_channel is Some
    &&& is_tracked(c, old_channel->Some_0)
    &&& !(ev.channel is Some && is_tracked(c, ev.channel->Some_0))
}

pub open spec fn revoke_part(c: AccessConfig, old_channel: Option<u64>, ev: VoiceUpdate) -> Seq<AccessAction> {
    if leaves(c, old_channel, ev) {
        seq![AccessAction::Revoke { user: ev.user }]
    } else {
        seq![]
    }
}

/// The calls that one presence event asks for, in order.
pub open spec fn presence_actions_spec(c: AccessConfig, old_channel: Option<u64>, ev: VoiceUpdate) -> Seq<AccessAction> {
    if !in_scope(c, ev) {
        seq![]
    } else {
        grant_part(c, ev) + move_part(c, ev) + revoke_part(c, old_channel, ev)
    }
}

impl AccessConfig {
    fn tracks(&self, channel: u64) -> (r: bool)
        ensures
            r == is_tracked(*self, channel),
    {
        channel == self.companion || channel == self.restricted
    }
}

/// Decides the platform calls for a voice-state change: `old_channel` is
/// where the user was before, `ev` where they are now. Joining the companion
/// channel grants view access (and moves a streaming user on); leaving both
/// tracked channels revokes it. Events of other guilds or without a member
/// ask for nothing.
pub fn presence_actions(c: &AccessConfig, old_channel: Option<u64>, ev: &VoiceUpdate) -> (r: Vec<AccessAction>)
    ensures
        r@ == presence_actions_spec(*c, old_channel, *ev),
{
    let mut r: Vec<AccessAction> = Vec::new();
    if !ev.has_member {
        return r;
    }
    match ev.guild {
        Some(g) => {
            if g != c.guild {
                return r;
            }
        },
        None => {
            return r;
        },
    }
    if let Some(ch) = ev.channel {
        if ch == c.companion {
            r.push(AccessAction::Grant { user: ev.user });
            if ev.self_stream == Some(true) {
                r.push(AccessAction::MoveToRestricted { user: ev.user });
            }
        }
    }
    assert(r@ == grant_part(*c, *ev) + move_part(*c, *ev));
    if let Some(old) = old_channel {
        if c.tracks(old) {
            let stays = match ev.channel {
                Some(ch) => c.tracks(ch),
                None => false,
            };
            if !stays {
                r.push(AccessAction::Revoke { user: ev.user });
            }
        }
    }
    assert(r@ =~= presence_actions_spec(*c, old_channel, *ev));
    r
}

/// An event of a guild other than the configured one asks for no call.
pub proof fn lemma_other_guild_is_ignored(c: AccessConfig, old_channel: Option<u64>, ev: VoiceUpdate)
    requires
        ev.guild != Some(c.guild),
    ensures
        presence_actions_spec(c, old_channel, ev) == Seq::<AccessAction>::empty(),
{
}

/// Joining the companion channel from outside and then moving on to the
/// restricted channel asks for one grant (and the move of a streaming user)
/// and no revoke.
pub proof fn lemma_join_then_transfer(
    c: AccessConfig,
    outside: Option<u64>,
    join: VoiceUpdate,
    transfer: VoiceUpdate,
)
    requires
        c.companion != c.restricted,
        outside is Some ==> !is_tracked(c, outside->Some_0),
        in_scope(c, join),
        join.channel == Some(c.companion),
        in_scope(c, transfer),
        transfer.user == join.user,
        transfer.channel == Some(c.restricted),
    ensures
        join.self_stream != Some(true) ==> presence_actions_spec(c, outside, join)
            + presence_actions_spec(c, Some(c.companion), transfer)
            == seq![AccessAction::Grant { user: join.user }],
        join.self_stream == Some(true) ==> presence_actions_spec(c, outside, join)
            + presence_actions_spec(c, Some(c.companion), transfer)
            == seq![AccessAction::Grant { user: join.user }, AccessAction::MoveToRestricted { user: join.user }],
{
    assert(presence_actions_spec(c, Some(c.companion), transfer) =~= seq![]);
    assert(presence_actions_spec(c, outside, join) =~= grant_part(c, join) + move_part(c, join));
    if join.self_stream == Some(true) {
        assert(grant_part(c, join) + move_part(c, join) + seq![] =~= seq![
            AccessAction::Grant { user: join.user },
            AccessAction::MoveToRestricted { user: join.user },
        ]);
    } else {
        assert(grant_part(c, join) + move_part(c, join) + seq![] =~= seq![AccessAction::Grant { user: join.user }]);
    }
}

/// A move between the two tracked channels, either way, asks for no revoke.
pub proof fn lemma_transfer_keeps_access(c: AccessConfig, from: u64, ev: VoiceUpdate, i: int)
    requires
        is_tracked(c, from),
        ev.channel is Some,
        is_tracked(c, ev.channel->Some_0),
        0 <= i < presence_actions_spec(c, Some(from), ev).len(),
    ensures
        !(presence_actions_spec(c, Some(from), ev)[i] is Revoke),
{
    assert(revoke_part(c, Some(from), ev) =~= seq![]);
}

/// Leaving the restricted channel for no tracked channel asks for exactly
/// one call: the revoke.
pub proof fn lemma_leave_revokes(c: AccessConfig, ev: VoiceUpdate)
    requires
        in_scope(c, ev),
        ev.channel is Some ==> !is_tracked(c, ev.channel->Some_0),
    ensures
        presence_actions_spec(c, Some(c.restricted), ev) == seq![AccessAction::Revoke { user: ev.user }],
{
    assert(grant_part(c, ev) =~= seq![]);
    assert(move_part(c, ev) =~= seq![]);
    assert(presence_actions_spec(c, Some(c.restricted), ev) =~= seq![AccessAction::Revoke { user: ev.user }]);
}

} // verus!
