use vstd::prelude::*;

use crate::error::VoiceError;
use crate::ids::{id_to_string, is_decimal_of};
use crate::manager::{Fuck, Fuck2};

verus! {

/// The shard that carries a guild's signaling: the guild identifier without
/// its low 22 bits, modulo the shard count. The gateway assigns guilds to
/// shards by the same rule, so both sides agree without coordination.
pub open spec fn shard_of(guild_id: u64, shard_count: u64) -> u64
    recommends
        shard_count > 0,
{
    (guild_id >> 22u64) % shard_count
}

/// What `route` returns.
pub open spec fn route_result(guild_id: u64, shard_count: u64) -> Result<u64, VoiceError> {
    if shard_count == 0 {
        Err(VoiceError::ConfigurationError)
    } else {
        Ok(shard_of(guild_id, shard_count))
    }
}

/// Maps a guild to the index of the shard that carries its signaling.
pub fn route(guild_id: u64, shard_count: u64) -> (r: Result<u64, VoiceError>)
    ensures
        r == route_result(guild_id, shard_count),
{
    if shard_count == 0 {
        Err(VoiceError::ConfigurationError)
    } else {
        Ok((guild_id >> 22) % shard_count)
    }
}

/// Routing is a pure function of the guild and the shard count: for every
/// non-zero shard count it succeeds, always with the same index, and that
/// index names one of the shards. Guilds that differ only in their low 22
/// bits share a shard; the shift is a division by 2^22.
pub proof fn lemma_route_stable(guild_id: u64, shard_count: u64)
    requires
        shard_count > 0,
    ensures
        route_result(guild_id, shard_count) == Ok::<u64, VoiceError>(shard_of(guild_id, shard_count)),
        shard_of(guild_id, shard_count) < shard_count,
        forall|other: u64|
            (other >> 22u64) == (guild_id >> 22u64) ==> #[trigger] shard_of(other, shard_count)
                == shard_of(guild_id, shard_count),
        shard_of(guild_id, shard_count) == (guild_id / 4194304) % shard_count,
{
    assert(guild_id >> 22u64 == guild_id / 4194304u64) by (bit_vector);
}

/// The registry of shard endpoints. One outbound callback serves every shard,
/// so exactly the indices below the shard count are registered.
pub struct NodeSharder {
    pub shard_count: u64,
}

impl NodeSharder {
    /// The shard count is non-zero and every shard index fits the gateway's
    /// signed 32-bit field.
    pub open spec fn wf(&self) -> bool {
        0 < self.shard_count <= i32::MAX
    }

    /// A sharder for `shard_count` shards.
    pub fn new(shard_count: i32) -> (r: Result<NodeSharder, VoiceError>)
        ensures
            shard_count <= 0 ==> r == Err::<NodeSharder, VoiceError>(VoiceError::ConfigurationError),
            shard_count > 0 ==> r is Ok,
            r matches Ok(s) ==> s.wf() && s.shard_count == shard_count as u64,
    {
        if shard_count <= 0 {
            Err(VoiceError::ConfigurationError)
        } else {
            Ok(NodeSharder { shard_count: shard_count as u64 })
        }
    }

    /// The endpoint registered at `shard_id`, if there is one.
    pub fn get_shard(&self, shard_id: u64) -> (r: Option<NodeShard>)
        requires
            self.wf(),
        ensures
            r is Some <==> shard_id < self.shard_count,
            r matches Some(s) ==> s.shard_id == shard_id && s.wf(),
    {
        if shard_id < self.shard_count {
            Some(NodeShard { shard_id })
        } else {
            None
        }
    }
}

/// One shard's endpoint: it turns a voice-state change into the request that
/// the outbound channel delivers to the gateway client.
pub struct NodeShard {
    pub shard_id: u64,
}

impl NodeShard {
    pub open spec fn wf(&self) -> bool {
        self.shard_id <= i32::MAX
    }

    /// The request that asks the gateway to move the user of `guild_id` into
    /// `channel_id` (or out of voice, for `None`).
    pub fn update_voice_state(
        &self,
        guild_id: u64,
        channel_id: Option<u64>,
        self_deaf: bool,
        self_mute: bool,
    ) -> (r: Fuck)
        requires
            self.wf(),
        ensures
            r.shard_id as int == self.shard_id as int,
            is_decimal_of(r.payload.guild_id@, guild_id as nat),
            r.payload.channel_id is Some <==> channel_id is Some,
            r.payload.channel_id matches Some(c) ==> is_decimal_of(c@, channel_id->Some_0 as nat),
            r.payload.self_mute == self_mute,
            r.payload.self_deaf == self_deaf,
    {
        let channel = match channel_id {
            Some(c) => Some(id_to_string(c)),
            None => None,
        };
        let payload = Fuck2 { guild_id: id_to_string(guild_id), channel_id: channel, self_mute, self_deaf };
        Fuck { shard_id: self.shard_id as i32, payload }
    }
}

} // verus!
