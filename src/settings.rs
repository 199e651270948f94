use vstd::prelude::*;

use crate::access::AccessConfig;

verus! {

/// The configuration snapshot the service reads: identifiers are the
/// platform's numeric ids (0 for none), paths are empty when unset.
#[derive(Clone, Debug)]
pub struct Settings {
    pub guild: u64,
    /// The companion (voice) channel.
    pub voice: u64,
    /// The restricted (video) channel.
    pub video: u64,
    /// The self-service alerts role; 0 disables the command.
    pub alerts: u64,
    pub server_icons_unused: String,
    pub server_icons_used: String,
    pub server_icons_delay_min_hours: u64,
    pub server_icons_delay_max_hours: u64,
}

impl Settings {
    /// The part of the snapshot that channel access reads.
    pub fn access(&self) -> (r: AccessConfig)
        ensures
            r.guild == self.guild,
            r.companion == self.voice,
            r.restricted == self.video,
    {
        AccessConfig { guild: self.guild, companion: self.voice, restricted: self.video }
    }
}

} // verus!
