use vstd::prelude::*;

use crate::error::VoiceError;
use crate::ids::{id_of, parse_id};

verus! {

/// The server half of the handshake: where to connect and with which token.
pub struct VoiceServerData {
    pub endpoint: String,
    pub token: String,
}

/// The state half of the handshake, with the channel as text.
pub struct VoiceStateData {
    pub session_id: String,
    pub channel_id: Option<String>,
}

/// A complete connection descriptor as a caller hands it in, identifiers as
/// text. Used to connect without going through the handshake.
pub struct JsConnectionInfo {
    pub endpoint: String,
    pub token: String,
    pub user_id: String,
    pub session_id: String,
    pub channel_id: Option<String>,
}

/// A connection descriptor with parsed identifiers: what the transport
/// collaborator opens.
pub struct ConnectionInfo {
    pub endpoint: String,
    pub token: String,
    pub session_id: String,
    pub channel_id: Option<u64>,
    pub guild_id: u64,
    pub user_id: u64,
}

/// The state half of the handshake with the channel parsed.
pub struct StateUpdate {
    pub session_id: String,
    pub channel_id: Option<u64>,
}

pub struct ServerModel {
    pub endpoint: Seq<char>,
    pub token: Seq<char>,
}

pub struct StateModel {
    pub session_id: Seq<char>,
    pub channel_id: Option<u64>,
}

pub struct InfoModel {
    pub endpoint: Seq<char>,
    pub token: Seq<char>,
    pub session_id: Seq<char>,
    pub channel_id: Option<u64>,
    pub guild_id: u64,
    pub user_id: u64,
}

impl View for VoiceServerData {
    type V = ServerModel;

    open spec fn view(&self) -> ServerModel {
        ServerModel { endpoint: self.endpoint@, token: self.token@ }
    }
}

impl View for StateUpdate {
    type V = StateModel;

    open spec fn view(&self) -> StateModel {
        StateModel { session_id: self.session_id@, channel_id: self.channel_id }
    }
}

impl View for ConnectionInfo {
    type V = InfoModel;

    open spec fn view(&self) -> InfoModel {
        InfoModel {
            endpoint: self.endpoint@,
            token: self.token@,
            session_id: self.session_id@,
            channel_id: self.channel_id,
            guild_id: self.guild_id,
            user_id: self.user_id,
        }
    }
}

pub open spec fn text_of(s: Option<String>) -> Option<Seq<char>> {
    match s {
        Some(t) => Some(t@),
        None => None,
    }
}

/// An optional channel given as text: absent stays absent, present must parse.
pub open spec fn channel_of(s: Option<Seq<char>>) -> Result<Option<u64>, VoiceError> {
    match s {
        None => Ok(None),
        Some(t) => match id_of(t) {
            Some(c) => Ok(Some(c)),
            None => Err(VoiceError::InvalidId),
        },
    }
}

pub fn parse_channel(s: &Option<String>) -> (r: Result<Option<u64>, VoiceError>)
    ensures
        r == channel_of(text_of(*s)),
{
    match s {
        None => Ok(None),
        Some(t) => match parse_id(t.as_str()) {
            Some(c) => Ok(Some(c)),
            None => Err(VoiceError::InvalidId),
        },
    }
}

impl VoiceStateData {
    /// The state update with its channel parsed; an unparsable channel is
    /// rejected.
    pub fn to_update(&self) -> (r: Result<StateUpdate, VoiceError>)
        ensures
            r is Ok <==> channel_of(text_of(self.channel_id)) is Ok,
            r is Err ==> r == Err::<StateUpdate, VoiceError>(VoiceError::InvalidId),
            r matches Ok(u) ==> u@ == (StateModel {
                session_id: self.session_id@,
                channel_id: channel_of(text_of(self.channel_id))->Ok_0,
            }),
    {
        let channel_id = parse_channel(&self.channel_id)?;
        Ok(StateUpdate { session_id: self.session_id.clone(), channel_id })
    }
}

/// The descriptor that `to_connection_info` builds, when every identifier
/// parses.
pub open spec fn connection_info_of(
    j: JsConnectionInfo,
    guild_id: Seq<char>,
) -> Result<InfoModel, VoiceError> {
    match (channel_of(text_of(j.channel_id)), id_of(guild_id), id_of(j.user_id@)) {
        (Ok(c), Some(g), Some(u)) => Ok(
            InfoModel {
                endpoint: j.endpoint@,
                token: j.token@,
                session_id: j.session_id@,
                channel_id: c,
                guild_id: g,
                user_id: u,
            },
        ),
        _ => Err(VoiceError::InvalidId),
    }
}

impl JsConnectionInfo {
    /// Parses the identifiers of a caller's descriptor for the guild
    /// `guild_id`.
    pub fn to_connection_info(&self, guild_id: &str) -> (r: Result<ConnectionInfo, VoiceError>)
        ensures
            r is Ok <==> connection_info_of(*self, guild_id@) is Ok,
            r is Err ==> r == Err::<ConnectionInfo, VoiceError>(VoiceError::InvalidId),
            r matches Ok(i) ==> Ok::<InfoModel, VoiceError>(i@) == connection_info_of(*self, guild_id@),
    {
        let channel_id = parse_channel(&self.channel_id)?;
        let guild = match parse_id(guild_id) {
            Some(g) => g,
            None => return Err(VoiceError::InvalidId),
        };
        let user = match parse_id(self.user_id.as_str()) {
            Some(u) => u,
            None => return Err(VoiceError::InvalidId),
        };
        Ok(ConnectionInfo {
            endpoint: self.endpoint.clone(),
            token: self.token.clone(),
            session_id: self.session_id.clone(),
            channel_id,
            guild_id: guild,
            user_id: user,
        })
    }
}

/// Where a guild's voice connection stands in its handshake.
#[derive(Clone, Copy, Debug, PartialEq, Eq, Structural)]
pub enum ConnectionState {
    /// Freshly built; nothing sent.
    Idle,
    /// A join request went out through the shard; its delivery is not yet
    /// acknowledged.
    AwaitingShard,
    /// The shard acknowledged; the handshake pair is being collected.
    AwaitingHandshake,
    /// Both halves arrived and the transport was opened.
    Connected,
    /// Left on request.
    Disconnected,
    /// Abandoned; the caller has to join again.
    Failed(VoiceError),
}

/// What the caller of a transition has to carry out.
pub enum Action {
    /// Nothing to do.
    Nothing,
    /// Send a join request for this channel through the guild's shard.
    Submit(u64),
    /// Open the media transport with this descriptor; the join is complete.
    Open(ConnectionInfo),
    /// Re-point the live transport at this descriptor, keeping its tracks.
    Reconnect(ConnectionInfo),
    /// End the in-flight join wait with this error.
    Resolve(VoiceError),
    /// Close the live transport.
    Close,
}

pub enum ActionModel {
    Nothing,
    Submit(u64),
    Open(InfoModel),
    Reconnect(InfoModel),
    Resolve(VoiceError),
    Close,
}

impl View for Action {
    type V = ActionModel;

    open spec fn view(&self) -> ActionModel {
        match self {
            Action::Nothing => ActionModel::Nothing,
            Action::Submit(c) => ActionModel::Submit(*c),
            Action::Open(i) => ActionModel::Open(i@),
            Action::Reconnect(i) => ActionModel::Reconnect(i@),
            Action::Resolve(e) => ActionModel::Resolve(*e),
            Action::Close => ActionModel::Close,
        }
    }
}

pub open spec fn outcome_of(r: Result<Action, VoiceError>) -> Result<ActionModel, VoiceError> {
    match r {
        Ok(a) => Ok(a@),
        Err(e) => Err(e),
    }
}

/// One guild's voice connection: its handshake state and the two slots in
/// which the handshake halves are collected, in whichever order they come.
pub struct VoiceConnection {
    pub guild_id: u64,
    pub user_id: u64,
    /// The shard that carries this guild's signaling; `None` without a
    /// gateway driver.
    pub shard: Option<u64>,
    pub state: ConnectionState,
    /// The channel of the last join request.
    pub channel: Option<u64>,
    pub pending_server: Option<VoiceServerData>,
    pub pending_state: Option<StateUpdate>,
}

pub struct ConnectionModel {
    pub guild_id: u64,
    pub user_id: u64,
    pub shard: Option<u64>,
    pub state: ConnectionState,
    pub channel: Option<u64>,
    pub server: Option<ServerModel>,
    pub voice_state: Option<StateModel>,
}

impl View for VoiceConnection {
    type V = ConnectionModel;

    open spec fn view(&self) -> ConnectionModel {
        ConnectionModel {
            guild_id: self.guild_id,
            user_id: self.user_id,
            shard: self.shard,
            state: self.state,
            channel: self.channel,
            server: match self.pending_server {
                Some(s) => Some(s@),
                None => None,
            },
            voice_state: match self.pending_state {
                Some(s) => Some(s@),
                None => None,
            },
        }
    }
}

/// A join request is in flight: its wait has not been resolved.
pub open spec fn awaiting(s: ConnectionState) -> bool {
    s == ConnectionState::AwaitingShard || s == ConnectionState::AwaitingHandshake
}

impl ConnectionModel {
    /// Connected only with both halves present; outside a join in flight or a
    /// live connection, no half is kept.
    pub open spec fn wf(&self) -> bool {
        &&& self.state == ConnectionState::Connected ==> self.server is Some
            && self.voice_state is Some
        &&& !awaiting(self.state) && self.state != ConnectionState::Connected ==> self.server is None
            && self.voice_state is None
    }
}

/// A fresh connection.
pub open spec fn new_connection(guild_id: u64, user_id: u64, shard: Option<u64>) -> ConnectionModel {
    ConnectionModel {
        guild_id,
        user_id,
        shard,
        state: ConnectionState::Idle,
        channel: None,
        server: None,
        voice_state: None,
    }
}

/// The descriptor assembled from the two halves.
pub open spec fn info_from(c: ConnectionModel, srv: ServerModel, st: StateModel) -> InfoModel {
    InfoModel {
        endpoint: srv.endpoint,
        token: srv.token,
        session_id: st.session_id,
        channel_id: st.channel_id,
        guild_id: c.guild_id,
        user_id: c.user_id,
    }
}

/// The effect of a join request for `channel`.
pub open spec fn after_join(c: ConnectionModel, channel: u64) -> (ConnectionModel, ActionModel) {
    (
        ConnectionModel {
            state: ConnectionState::AwaitingShard,
            channel: Some(channel),
            server: None,
            voice_state: None,
            ..c
        },
        ActionModel::Submit(channel),
    )
}

/// The effect of the shard's answer to a join request.
pub open spec fn after_ack(c: ConnectionModel, delivered: bool) -> (ConnectionModel, ActionModel) {
    if c.state != ConnectionState::AwaitingShard {
        (c, ActionModel::Nothing)
    } else if delivered {
        (ConnectionModel { state: ConnectionState::AwaitingHandshake, ..c }, ActionModel::Nothing)
    } else {
        (
            ConnectionModel {
                state: ConnectionState::Failed(VoiceError::BridgeUnavailable),
                server: None,
                voice_state: None,
                ..c
            },
            ActionModel::Resolve(VoiceError::BridgeUnavailable),
        )
    }
}

/// The effect of a server update for guild `g`.
pub open spec fn after_server(c: ConnectionModel, g: u64, srv: ServerModel) -> (
    ConnectionModel,
    Result<ActionModel, VoiceError>,
) {
    let c2 = ConnectionModel { server: Some(srv), ..c };
    if g != c.guild_id {
        (c, Err(VoiceError::ProtocolMismatch))
    } else if awaiting(c.state) {
        match c.voice_state {
            Some(st) => (
                ConnectionModel { state: ConnectionState::Connected, ..c2 },
                Ok(ActionModel::Open(info_from(c, srv, st))),
            ),
            None => (c2, Ok(ActionModel::Nothing)),
        }
    } else if c.state == ConnectionState::Connected {
        if c.server == Some(srv) {
            (c, Ok(ActionModel::Nothing))
        } else {
            match c.voice_state {
                Some(st) => (c2, Ok(ActionModel::Reconnect(info_from(c, srv, st)))),
                None => (c2, Ok(ActionModel::Nothing)),
            }
        }
    } else {
        (c, Ok(ActionModel::Nothing))
    }
}

/// The effect of a state update for guild `g`.
pub open spec fn after_state(c: ConnectionModel, g: u64, st: StateModel) -> (
    ConnectionModel,
    Result<ActionModel, VoiceError>,
) {
    let c2 = ConnectionModel { voice_state: Some(st), ..c };
    if g != c.guild_id {
        (c, Err(VoiceError::ProtocolMismatch))
    } else if awaiting(c.state) {
        match c.server {
            Some(srv) => (
                ConnectionModel { state: ConnectionState::Connected, ..c2 },
                Ok(ActionModel::Open(info_from(c, srv, st))),
            ),
            None => (c2, Ok(ActionModel::Nothing)),
        }
    } else if c.state == ConnectionState::Connected {
        if c.voice_state == Some(st) {
            (c, Ok(ActionModel::Nothing))
        } else {
            match c.server {
                Some(srv) => (c2, Ok(ActionModel::Reconnect(info_from(c, srv, st)))),
                None => (c2, Ok(ActionModel::Nothing)),
            }
        }
    } else {
        (c, Ok(ActionModel::Nothing))
    }
}

/// The effect of the handshake deadline passing.
pub open spec fn after_timeout(c: ConnectionModel) -> (ConnectionModel, ActionModel) {
    if awaiting(c.state) {
        (
            ConnectionModel {
                state: ConnectionState::Failed(VoiceError::HandshakeTimeout),
                server: None,
                voice_state: None,
                ..c
            },
            ActionModel::Resolve(VoiceError::HandshakeTimeout),
        )
    } else {
        (c, ActionModel::Nothing)
    }
}

/// The effect of a disconnect request.
pub open spec fn after_disconnect(c: ConnectionModel) -> (ConnectionModel, ActionModel) {
    let left = ConnectionModel {
        state: ConnectionState::Disconnected,
        server: None,
        voice_state: None,
        ..c
    };
    match c.state {
        ConnectionState::Idle => (left, ActionModel::Nothing),
        ConnectionState::AwaitingShard => (left, ActionModel::Resolve(VoiceError::Cancelled)),
        ConnectionState::AwaitingHandshake => (left, ActionModel::Resolve(VoiceError::Cancelled)),
        ConnectionState::Connected => (left, ActionModel::Close),
        _ => (c, ActionModel::Nothing),
    }
}

fn same_server(a: &VoiceServerData, b: &VoiceServerData) -> (r: bool)
    ensures
        r == (a@ == b@),
{
    a.endpoint == b.endpoint && a.token == b.token
}

fn same_state(a: &StateUpdate, b: &StateUpdate) -> (r: bool)
    ensures
        r == (a@ == b@),
{
    a.session_id == b.session_id && a.channel_id == b.channel_id
}

fn clone_server(a: &VoiceServerData) -> (r: VoiceServerData)
    ensures
        r@ == a@,
{
    VoiceServerData { endpoint: a.endpoint.clone(), token: a.token.clone() }
}

fn clone_state(a: &StateUpdate) -> (r: StateUpdate)
    ensures
        r@ == a@,
{
    StateUpdate { session_id: a.session_id.clone(), channel_id: a.channel_id }
}

impl VoiceConnection {
    /// A fresh, idle connection for `guild_id`.
    pub fn new(guild_id: u64, user_id: u64, shard: Option<u64>) -> (r: VoiceConnection)
        ensures
            r@ == new_connection(guild_id, user_id, shard),
            r@.wf(),
    {
        VoiceConnection {
            guild_id,
            user_id,
            shard,
            state: ConnectionState::Idle,
            channel: None,
            pending_server: None,
            pending_state: None,
        }
    }

    fn info(&self, srv: &VoiceServerData, st: &StateUpdate) -> (r: ConnectionInfo)
        ensures
            r@ == info_from(self@, srv@, st@),
    {
        ConnectionInfo {
            endpoint: srv.endpoint.clone(),
            token: srv.token.clone(),
            session_id: st.session_id.clone(),
            channel_id: st.channel_id,
            guild_id: self.guild_id,
            user_id: self.user_id,
        }
    }

    /// Starts a join of `channel`: forgets any collected half and asks for a
    /// join request to be sent.
    pub fn join(&mut self, channel: u64) -> (r: Action)
        ensures
            (final(self)@, r@) == after_join(old(self)@, channel),
            final(self)@.wf(),
    {
        self.state = ConnectionState::AwaitingShard;
        self.channel = Some(channel);
        self.pending_server = None;
        self.pending_state = None;
        Action::Submit(channel)
    }

    /// Records whether the shard delivered the join request.
    pub fn shard_acknowledged(&mut self, delivered: bool) -> (r: Action)
        requires
            old(self)@.wf(),
        ensures
            (final(self)@, r@) == after_ack(old(self)@, delivered),
            final(self)@.wf(),
    {
        if self.state != ConnectionState::AwaitingShard {
            Action::Nothing
        } else if delivered {
            self.state = ConnectionState::AwaitingHandshake;
            Action::Nothing
        } else {
            self.state = ConnectionState::Failed(VoiceError::BridgeUnavailable);
            self.pending_server = None;
            self.pending_state = None;
            Action::Resolve(VoiceError::BridgeUnavailable)
        }
    }

    /// Applies the server half of the handshake, tagged with guild `guild_id`.
    pub fn update_server(&mut self, guild_id: u64, data: VoiceServerData) -> (r: Result<
        Action,
        VoiceError,
    >)
        requires
            old(self)@.wf(),
        ensures
            (final(self)@, outcome_of(r)) == after_server(old(self)@, guild_id, data@),
            final(self)@.wf(),
    {
        if guild_id != self.guild_id {
            return Err(VoiceError::ProtocolMismatch);
        }
        if self.state == ConnectionState::AwaitingShard || self.state
            == ConnectionState::AwaitingHandshake {
            let action = match &self.pending_state {
                Some(st) => Action::Open(self.info(&data, st)),
                None => Action::Nothing,
            };
            if self.pending_state.is_some() {
                self.state = ConnectionState::Connected;
            }
            self.pending_server = Some(data);
            Ok(action)
        } else if self.state == ConnectionState::Connected {
            let unchanged = match &self.pending_server {
                Some(old_srv) => same_server(old_srv, &data),
                None => false,
            };
            if unchanged {
                Ok(Action::Nothing)
            } else {
                let action = match &self.pending_state {
                    Some(st) => Action::Reconnect(self.info(&data, st)),
                    None => Action::Nothing,
                };
                self.pending_server = Some(data);
                Ok(action)
            }
        } else {
            Ok(Action::Nothing)
        }
    }

    /// Applies the state half of the handshake, tagged with guild `guild_id`.
    pub fn update_state(&mut self, guild_id: u64, data: StateUpdate) -> (r: Result<
        Action,
        VoiceError,
    >)
        requires
            old(self)@.wf(),
        ensures
            (final(self)@, outcome_of(r)) == after_state(old(self)@, guild_id, data@),
            final(self)@.wf(),
    {
        if guild_id != self.guild_id {
            return Err(VoiceError::ProtocolMismatch);
        }
        if self.state == ConnectionState::AwaitingShard || self.state
            == ConnectionState::AwaitingHandshake {
            let action = match &self.pending_server {
                Some(srv) => Action::Open(self.info(srv, &data)),
                None => Action::Nothing,
            };
            if self.pending_server.is_some() {
                self.state = ConnectionState::Connected;
            }
            self.pending_state = Some(data);
            Ok(action)
        } else if self.state == ConnectionState::Connected {
            let unchanged = match &self.pending_state {
                Some(old_st) => same_state(old_st, &data),
                None => false,
            };
            if unchanged {
                Ok(Action::Nothing)
            } else {
                let action = match &self.pending_server {
                    Some(srv) => Action::Reconnect(self.info(srv, &data)),
                    None => Action::Nothing,
                };
                self.pending_state = Some(data);
                Ok(action)
            }
        } else {
            Ok(Action::Nothing)
        }
    }

    /// The handshake deadline passed.
    pub fn timeout(&mut self) -> (r: Action)
        requires
            old(self)@.wf(),
        ensures
            (final(self)@, r@) == after_timeout(old(self)@),
            final(self)@.wf(),
    {
        if self.state == ConnectionState::AwaitingShard || self.state
            == ConnectionState::AwaitingHandshake {
            self.state = ConnectionState::Failed(VoiceError::HandshakeTimeout);
            self.pending_server = None;
            self.pending_state = None;
            Action::Resolve(VoiceError::HandshakeTimeout)
        } else {
            Action::Nothing
        }
    }

    /// Leaves voice; a join in flight is cancelled.
    pub fn disconnect(&mut self) -> (r: Action)
        requires
            old(self)@.wf(),
        ensures
            (final(self)@, r@) == after_disconnect(old(self)@),
            final(self)@.wf(),
    {
        let action = match self.state {
            ConnectionState::Idle => Action::Nothing,
            ConnectionState::AwaitingShard => Action::Resolve(VoiceError::Cancelled),
            ConnectionState::AwaitingHandshake => Action::Resolve(VoiceError::Cancelled),
            ConnectionState::Connected => Action::Close,
            _ => {
                return Action::Nothing;
            },
        };
        self.state = ConnectionState::Disconnected;
        self.pending_server = None;
        self.pending_state = None;
        action
    }
}

/// Whichever order the two handshake halves for the connection's own guild
/// arrive in, a connection with a join in flight and no half yet reaches
/// `Connected` on the second half and not before, with the same state and
/// the same descriptor either way; repeating a half afterwards changes nothing.
pub proof fn lemma_handshake_any_order(c: ConnectionModel, g: u64, srv: ServerModel, st: StateModel)
    requires
        awaiting(c.state),
        c.server is None,
        c.voice_state is None,
        g == c.guild_id,
    ensures
        after_server(c, g, srv).0.state != ConnectionState::Connected,
        after_server(c, g, srv).1 == Ok::<ActionModel, VoiceError>(ActionModel::Nothing),
        after_state(c, g, st).0.state != ConnectionState::Connected,
        after_state(c, g, st).1 == Ok::<ActionModel, VoiceError>(ActionModel::Nothing),
        after_state(after_server(c, g, srv).0, g, st).0.state == ConnectionState::Connected,
        after_state(after_server(c, g, srv).0, g, st) == after_server(after_state(c, g, st).0, g, srv),
        after_state(after_server(c, g, srv).0, g, st).1 == Ok::<ActionModel, VoiceError>(
            ActionModel::Open(info_from(c, srv, st)),
        ),
        after_server(after_state(after_server(c, g, srv).0, g, st).0, g, srv) == (
            after_state(after_server(c, g, srv).0, g, st).0,
            Ok::<ActionModel, VoiceError>(ActionModel::Nothing),
        ),
        after_state(after_state(after_server(c, g, srv).0, g, st).0, g, st) == (
            after_state(after_server(c, g, srv).0, g, st).0,
            Ok::<ActionModel, VoiceError>(ActionModel::Nothing),
        ),
{
}

/// A handshake half tagged with another guild is refused and leaves the
/// connection exactly as it was: no slot changes and no transition happens.
pub proof fn lemma_foreign_guild_ignored(c: ConnectionModel, g: u64, srv: ServerModel, st: StateModel)
    requires
        g != c.guild_id,
    ensures
        after_server(c, g, srv) == (c, Err::<ActionModel, VoiceError>(VoiceError::ProtocolMismatch)),
        after_state(c, g, st) == (c, Err::<ActionModel, VoiceError>(VoiceError::ProtocolMismatch)),
{
}

/// A second disconnect right after a first changes nothing and asks for
/// nothing.
pub proof fn lemma_disconnect_idempotent(c: ConnectionModel)
    ensures
        after_disconnect(after_disconnect(c).0) == (after_disconnect(c).0, ActionModel::Nothing),
{
}

/// When the deadline and a disconnect race on a join in flight, the join's
/// wait is resolved exactly once: by whichever comes first.
pub proof fn lemma_wait_resolved_once(c: ConnectionModel)
    requires
        awaiting(c.state),
    ensures
        after_disconnect(c).1 == ActionModel::Resolve(VoiceError::Cancelled),
        after_timeout(after_disconnect(c).0) == (after_disconnect(c).0, ActionModel::Nothing),
        after_timeout(c).1 == ActionModel::Resolve(VoiceError::HandshakeTimeout),
        after_timeout(c).0.state == ConnectionState::Failed(VoiceError::HandshakeTimeout),
        after_disconnect(after_timeout(c).0) == (after_timeout(c).0, ActionModel::Nothing),
{
}

/// An input to a connection's state machine.
pub enum ConnectionEvent {
    /// The caller asks to join this channel.
    Join(u64),
    /// The shard delivered the join request (`true`) or could not (`false`).
    Acknowledged(bool),
    /// The server half of the handshake.
    Server(VoiceServerData),
    /// The state half of the handshake.
    State(StateUpdate),
    /// The handshake deadline passed.
    Timeout,
    /// The caller asks to leave.
    Disconnect,
}

pub enum EventModel {
    Join(u64),
    Acknowledged(bool),
    Server(ServerModel),
    State(StateModel),
    Timeout,
    Disconnect,
}

impl View for ConnectionEvent {
    type V = EventModel;

    open spec fn view(&self) -> EventModel {
        match self {
            ConnectionEvent::Join(c) => EventModel::Join(*c),
            ConnectionEvent::Acknowledged(d) => EventModel::Acknowledged(*d),
            ConnectionEvent::Server(s) => EventModel::Server(s@),
            ConnectionEvent::State(s) => EventModel::State(s@),
            ConnectionEvent::Timeout => EventModel::Timeout,
            ConnectionEvent::Disconnect => EventModel::Disconnect,
        }
    }
}

/// The effect of one event; handshake halves are tagged with guild `g`.
pub open spec fn after_event(c: ConnectionModel, g: u64, e: EventModel) -> (
    ConnectionModel,
    Result<ActionModel, VoiceError>,
) {
    match e {
        EventModel::Join(ch) => (after_join(c, ch).0, Ok(after_join(c, ch).1)),
        EventModel::Acknowledged(d) => (after_ack(c, d).0, Ok(after_ack(c, d).1)),
        EventModel::Server(s) => after_server(c, g, s),
        EventModel::State(s) => after_state(c, g, s),
        EventModel::Timeout => (after_timeout(c).0, Ok(after_timeout(c).1)),
        EventModel::Disconnect => (after_disconnect(c).0, Ok(after_disconnect(c).1)),
    }
}

impl VoiceConnection {
    /// Applies one event to the connection.
    pub fn handle(&mut self, guild_id: u64, event: ConnectionEvent) -> (r: Result<Action, VoiceError>)
        requires
            old(self)@.wf(),
        ensures
            (final(self)@, outcome_of(r)) == after_event(old(self)@, guild_id, event@),
            final(self)@.wf(),
    {
        match event {
            ConnectionEvent::Join(ch) => Ok(self.join(ch)),
            ConnectionEvent::Acknowledged(d) => Ok(self.shard_acknowledged(d)),
            ConnectionEvent::Server(s) => self.update_server(guild_id, s),
            ConnectionEvent::State(s) => self.update_state(guild_id, s),
            ConnectionEvent::Timeout => Ok(self.timeout()),
            ConnectionEvent::Disconnect => Ok(self.disconnect()),
        }
    }
}

} // verus!
