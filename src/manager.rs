use vstd::prelude::*;

use crate::call::{
    after_disconnect, after_event, new_connection, outcome_of, Action, ConnectionEvent,
    ConnectionModel, VoiceConnection,
};
use crate::error::VoiceError;
use crate::ids::{id_of, parse_id};
use crate::shards::{route, shard_of, NodeSharder};

verus! {

/// A voice-state change addressed to one shard, as the outbound channel
/// delivers it.
#[derive(Debug)]
pub struct Fuck {
    pub shard_id: i32,
    pub payload: Fuck2,
}

/// The body of a voice-state change: identifiers as decimal text.
#[derive(Debug)]
pub struct Fuck2 {
    pub guild_id: String,
    pub channel_id: Option<String>,
    pub self_mute: bool,
    pub self_deaf: bool,
}

} // verus!

verus! {

/// Settings of the gateway driver; its outbound callback is held by the host.
pub struct DriverOptions {
    pub shard_count: i32,
}

/// Settings of a manager: the driver, if any, and the bot's user identifier
/// as text.
pub struct ManagerOptions {
    pub driver: Option<DriverOptions>,
    pub user_id: String,
}

/// The registry of guild sessions: at most one connection per guild, each
/// bound to the shard that routing assigns it.
pub struct Manager {
    pub driver: Option<NodeSharder>,
    pub user_id: u64,
    pub sessions: Vec<VoiceConnection>,
}

/// What `Manager::create` returns: the shard count of the driver, if any, and
/// the user identifier.
pub open spec fn manager_settings(o: ManagerOptions) -> Result<(Option<u64>, u64), VoiceError> {
    if o.driver is Some && o.driver->Some_0.shard_count <= 0 {
        Err(VoiceError::ConfigurationError)
    } else {
        match id_of(o.user_id@) {
            None => Err(VoiceError::InvalidId),
            Some(u) => Ok(
                (
                    match o.driver {
                        Some(d) => Some(d.shard_count as u64),
                        None => None,
                    },
                    u,
                ),
            ),
        }
    }
}

pub open spec fn view_sessions(s: Seq<VoiceConnection>) -> Seq<ConnectionModel> {
    s.map_values(|c: VoiceConnection| c@)
}

impl Manager {
    pub open spec fn sessions_view(&self) -> Seq<ConnectionModel> {
        view_sessions(self.sessions@)
    }

    /// The driver is well formed, every session is, and no two sessions
    /// belong to the same guild.
    pub open spec fn wf(&self) -> bool {
        &&& (self.driver matches Some(d) ==> d.wf())
        &&& forall|i: int| 0 <= i < self.sessions@.len() ==> (#[trigger] self.sessions@[i])@.wf()
        &&& forall|i: int, j: int|
            0 <= i < j < self.sessions@.len() ==> (#[trigger] self.sessions@[i]).guild_id
                != (#[trigger] self.sessions@[j]).guild_id
    }

    /// A session for `guild_id` exists.
    pub open spec fn has_session(&self, guild_id: u64) -> bool {
        exists|i: int| 0 <= i < self.sessions@.len() && (#[trigger] self.sessions@[i]).guild_id == guild_id
    }

    /// The shard that a new connection for `guild_id` is bound to (`None`
    /// without a driver).
    pub open spec fn shard_for(&self, guild_id: u64) -> Result<Option<u64>, VoiceError> {
        match self.driver {
            None => Ok(None),
            Some(d) => if shard_of(guild_id, d.shard_count) < d.shard_count {
                Ok(Some(shard_of(guild_id, d.shard_count)))
            } else {
                Err(VoiceError::RoutingError)
            },
        }
    }

    /// Builds a manager; a non-positive shard count or an unparsable user
    /// identifier is refused.
    pub fn create(options: ManagerOptions) -> (r: Result<Manager, VoiceError>)
        ensures
            r is Ok <==> manager_settings(options) is Ok,
            r matches Err(e) ==> manager_settings(options) == Err::<(Option<u64>, u64), VoiceError>(e),
            r matches Ok(m) ==> {
                &&& m.wf()
                &&& m.sessions@.len() == 0
                &&& m.user_id == manager_settings(options)->Ok_0.1
                &&& (m.driver is Some <==> manager_settings(options)->Ok_0.0 is Some)
                &&& (m.driver matches Some(d) ==> Some(d.shard_count) == manager_settings(
                    options,
                )->Ok_0.0)
            },
    {
        let driver = match &options.driver {
            Some(d) => match NodeSharder::new(d.shard_count) {
                Ok(s) => Some(s),
                Err(e) => return Err(e),
            },
            None => None,
        };
        let user_id = match parse_id(options.user_id.as_str()) {
            Some(u) => u,
            None => return Err(VoiceError::InvalidId),
        };
        Ok(Manager { driver, user_id, sessions: Vec::new() })
    }

    fn connection_for(&self, guild_id: u64) -> (r: Result<VoiceConnection, VoiceError>)
        requires
            self.wf(),
        ensures
            r is Ok <==> self.shard_for(guild_id) is Ok,
            r is Err ==> r == Err::<VoiceConnection, VoiceError>(VoiceError::RoutingError),
            r matches Ok(c) ==> c@ == new_connection(
                guild_id,
                self.user_id,
                self.shard_for(guild_id)->Ok_0,
            ),
    {
        match &self.driver {
            None => Ok(VoiceConnection::new(guild_id, self.user_id, None)),
            Some(sharder) => {
                let index = match route(guild_id, sharder.shard_count) {
                    Ok(i) => i,
                    Err(_) => return Err(VoiceError::RoutingError),
                };
                match sharder.get_shard(index) {
                    Some(shard) => Ok(VoiceConnection::new(guild_id, self.user_id, Some(shard.shard_id))),
                    None => Err(VoiceError::RoutingError),
                }
            },
        }
    }

    /// A fresh connection for the guild written as `guild_id`, bound to its
    /// shard.
    pub fn create_call(&self, guild_id: &str) -> (r: Result<VoiceConnection, VoiceError>)
        requires
            self.wf(),
        ensures
            id_of(guild_id@) is None ==> r == Err::<VoiceConnection, VoiceError>(VoiceError::InvalidId),
            id_of(guild_id@) matches Some(g) ==> {
                &&& (r is Ok <==> self.shard_for(g) is Ok)
                &&& (r is Err ==> r == Err::<VoiceConnection, VoiceError>(VoiceError::RoutingError))
                &&& (r matches Ok(c) ==> c@ == new_connection(g, self.user_id, self.shard_for(g)->Ok_0))
            },
    {
        match parse_id(guild_id) {
            Some(g) => self.connection_for(g),
            None => Err(VoiceError::InvalidId),
        }
    }

    fn find(&self, guild_id: u64) -> (r: Option<usize>)
        ensures
            r matches Some(i) ==> i < self.sessions@.len() && self.sessions@[i as int].guild_id == guild_id,
            r is None ==> !self.has_session(guild_id),
    {
        let mut i: usize = 0;
        while i < self.sessions.len()
            invariant
                i <= self.sessions@.len(),
                forall|j: int| 0 <= j < i ==> (#[trigger] self.sessions@[j]).guild_id != guild_id,
            decreases self.sessions@.len() - i,
        {
            if self.sessions[i].guild_id == guild_id {
                return Some(i);
            }
            i = i + 1;
        }
        None
    }

    /// The index of the session of `guild_id`, made on first use. An existing
    /// session is returned as it is, never duplicated.
    pub fn get_or_create(&mut self, guild_id: u64) -> (r: Result<usize, VoiceError>)
        requires
            old(self).wf(),
        ensures
            final(self).wf(),
            final(self).driver == old(self).driver,
            final(self).user_id == old(self).user_id,
            r matches Ok(i) ==> i < final(self).sessions@.len() && final(self).sessions@[i as int].guild_id
                == guild_id,
            old(self).has_session(guild_id) ==> r is Ok && final(self).sessions_view()
                == old(self).sessions_view(),
            !old(self).has_session(guild_id) ==> {
                &&& (r is Ok <==> old(self).shard_for(guild_id) is Ok)
                &&& (r is Err ==> r == Err::<usize, VoiceError>(VoiceError::RoutingError)
                    && final(self).sessions_view() == old(self).sessions_view())
                &&& (r is Ok ==> final(self).sessions_view() == old(self).sessions_view().push(
                    new_connection(
                        guild_id,
                        old(self).user_id,
                        old(self).shard_for(guild_id)->Ok_0,
                    ),
                ))
            },
    {
        if let Some(i) = self.find(guild_id) {
            return Ok(i);
        }
        let conn = self.connection_for(guild_id)?;
        let ghost before = self.sessions@;
        self.sessions.push(conn);
        assert(view_sessions(self.sessions@) =~= view_sessions(before).push(conn@));
        Ok(self.sessions.len() - 1)
    }

    /// Applies an event to the session of `guild_id`; a guild without a
    /// session refuses it with `ProtocolMismatch`.
    pub fn handle(&mut self, guild_id: u64, event: ConnectionEvent) -> (r: Result<Action, VoiceError>)
        requires
            old(self).wf(),
        ensures
            final(self).wf(),
            final(self).driver == old(self).driver,
            final(self).user_id == old(self).user_id,
            !old(self).has_session(guild_id) ==> r == Err::<Action, VoiceError>(
                VoiceError::ProtocolMismatch,
            ) && final(self).sessions_view() == old(self).sessions_view(),
            forall|i: int|
                0 <= i < old(self).sessions@.len() && old(self).sessions@[i].guild_id == guild_id
                    ==> {
                    &&& final(self).sessions_view() == old(self).sessions_view().update(
                        i,
                        after_event(old(self).sessions_view()[i], guild_id, event@).0,
                    )
                    &&& outcome_of(r) == after_event(old(self).sessions_view()[i], guild_id, event@).1
                },
    {
        let i = match self.find(guild_id) {
            Some(i) => i,
            None => return Err(VoiceError::ProtocolMismatch),
        };
        let ghost before = self.sessions@;
        let mut conn = self.sessions.remove(i);
        let r = conn.handle(guild_id, event);
        self.sessions.insert(i, conn);
        assert(self.sessions@ =~= before.update(i as int, conn));
        assert(view_sessions(self.sessions@) =~= view_sessions(before).update(i as int, conn@));
        assert forall|a: int, b: int|
            0 <= a < b < self.sessions@.len() implies (#[trigger] self.sessions@[a]).guild_id
            != (#[trigger] self.sessions@[b]).guild_id by {
            assert(before[a].guild_id == self.sessions@[a].guild_id);
            assert(before[b].guild_id == self.sessions@[b].guild_id);
        }
        assert forall|a: int| 0 <= a < self.sessions@.len() implies (#[trigger] self.sessions@[a])@.wf() by {
            if a != i {
                assert(before[a] == self.sessions@[a]);
            }
        }
        r
    }

    /// Evicts the session of `guild_id` and disconnects it, returning what
    /// the disconnect asks for; `None` where the guild has no session.
    pub fn remove(&mut self, guild_id: u64) -> (r: Option<Action>)
        requires
            old(self).wf(),
        ensures
            final(self).wf(),
            final(self).driver == old(self).driver,
            final(self).user_id == old(self).user_id,
            !final(self).has_session(guild_id),
            !old(self).has_session(guild_id) ==> r is None && final(self).sessions_view()
                == old(self).sessions_view(),
            forall|i: int|
                0 <= i < old(self).sessions@.len() && old(self).sessions@[i].guild_id == guild_id
                    ==> {
                    &&& final(self).sessions_view() == old(self).sessions_view().remove(i)
                    &&& r matches Some(a) && a@ == after_disconnect(old(self).sessions_view()[i]).1
                },
    {
        let i = match self.find(guild_id) {
            Some(i) => i,
            None => return None,
        };
        let ghost before = self.sessions@;
        let mut conn = self.sessions.remove(i);
        let action = conn.disconnect();
        assert(view_sessions(self.sessions@) =~= view_sessions(before).remove(i as int));
        assert forall|a: int, b: int|
            0 <= a < b < self.sessions@.len() implies (#[trigger] self.sessions@[a]).guild_id
            != (#[trigger] self.sessions@[b]).guild_id by {
            let a2 = if a < i { a } else { a + 1 };
            let b2 = if b < i { b } else { b + 1 };
            assert(self.sessions@[a] == before[a2]);
            assert(self.sessions@[b] == before[b2]);
        }
        assert forall|a: int| 0 <= a < self.sessions@.len() implies (#[trigger] self.sessions@[a])@.wf() by {
            let a2 = if a < i { a } else { a + 1 };
            assert(self.sessions@[a] == before[a2]);
        }
        assert forall|a: int| 0 <= a < self.sessions@.len() implies (#[trigger] self.sessions@[a]).guild_id
            != guild_id by {
            let a2 = if a < i { a } else { a + 1 };
            assert(self.sessions@[a] == before[a2]);
        }
        Some(action)
    }
}

} // verus!
