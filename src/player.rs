use vstd::prelude::*;

use crate::call::{self, channel_of, parse_channel, text_of, StateModel, StateUpdate};
use crate::error::VoiceError;

verus! {

/// The server half of the handshake, as the single-guild player receives it.
pub struct VoiceServerData {
    pub endpoint: String,
    pub token: String,
}

/// The state half of the handshake, as the single-guild player receives it.
pub struct VoiceStateData {
    pub session_id: String,
    pub channel_id: Option<String>,
}

impl VoiceServerData {
    /// The same half as the connection state machine takes it.
    pub fn to_server(self) -> (r: call::VoiceServerData)
        ensures
            r.endpoint == self.endpoint,
            r.token == self.token,
    {
        call::VoiceServerData { endpoint: self.endpoint, token: self.token }
    }
}

impl VoiceStateData {
    /// The state update with its channel parsed; an unparsable channel is
    /// rejected.
    pub fn to_update(&self) -> (r: Result<StateUpdate, VoiceError>)
        ensures
            r is Ok <==> channel_of(text_of(self.channel_id)) is Ok,
            r is Err ==> r == Err::<StateUpdate, VoiceError>(VoiceError::InvalidId),
            r matches Ok(u) ==> u@ == (StateModel {
                session_id: self.session_id@,
                channel_id: channel_of(text_of(self.channel_id))->Ok_0,
            }),
    {
        let channel_id = parse_channel(&self.channel_id)?;
        Ok(StateUpdate { session_id: self.session_id.clone(), channel_id })
    }
}

} // verus!
