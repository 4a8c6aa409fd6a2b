use vstd::prelude::*;

verus! {

broadcast use vstd::string::group_string_axioms;

/// Relies on serde_json::Value only as an opaque type: the result member of a reply is
/// carried through unread.
#[verifier::external_type_specification]
#[verifier::external_body]
pub struct ExJsonValue(serde_json::Value);

/// JSON-RPC error codes.
#[derive(PartialEq, Eq, Structural, Clone, Copy, Debug, Hash)]
pub enum JsonErrCode {
    Parse,
    InvalidReq,
    MethodNotFound,
    InvalidParam,
    Internal,
    NoStream,
    NoControl,
    PlayerPoison,
}

pub open spec fn spec_code(c: JsonErrCode) -> int {
    match c {
        JsonErrCode::Parse => -32700,
        JsonErrCode::InvalidReq => -32600,
        JsonErrCode::MethodNotFound => -32601,
        JsonErrCode::InvalidParam => -32602,
        JsonErrCode::Internal => -32603,
        JsonErrCode::NoStream => -32000,
        JsonErrCode::NoControl => -32001,
        JsonErrCode::PlayerPoison => -32002,
    }
}

impl JsonErrCode {
    /// The number that stands for the code on the wire.
    pub fn code(&self) -> (r: i64)
        ensures
            r == spec_code(*self),
    {
        match self {
            JsonErrCode::Parse => -32700,
            JsonErrCode::InvalidReq => -32600,
            JsonErrCode::MethodNotFound => -32601,
            JsonErrCode::InvalidParam => -32602,
            JsonErrCode::Internal => -32603,
            JsonErrCode::NoStream => -32000,
            JsonErrCode::NoControl => -32001,
            JsonErrCode::PlayerPoison => -32002,
        }
    }
}

/// A JSON-RPC error reply.
#[derive(Debug)]
pub struct JsonError {
    pub id: Option<i64>,
    pub code: JsonErrCode,
    pub message: String,
    pub data: Option<String>,
}

/// A JSON-RPC result reply.
#[derive(Debug)]
pub struct JsonResponse {
    pub id: i64,
    pub result: serde_json::Value,
}

impl JsonResponse {
    pub fn new(id: i64, result: serde_json::Value) -> (r: JsonResponse)
        ensures
            r.id == id,
            r.result == result,
    {
        JsonResponse { id, result }
    }

    pub fn set_id(&mut self, id: i64)
        ensures
            final(self).id == id,
            final(self).result == old(self).result,
    {
        self.id = id;
    }
}

impl JsonError {
    /// The error is of the given code and message, carries `data`, and no request id yet.
    pub open spec fn is_error(self, code: JsonErrCode, message: Seq<char>, data: Option<String>) -> bool {
        &&& self.id is None
        &&& self.code == code
        &&& self.message@ == message
        &&& self.data == data
    }

    pub fn parse(data: Option<String>) -> (r: JsonError)
        ensures
            r.is_error(JsonErrCode::Parse, "Parse error"@, data),
    {
        JsonError { id: None, code: JsonErrCode::Parse, message: "Parse error".to_string(), data }
    }

    pub fn invalid_request(data: Option<String>) -> (r: JsonError)
        ensures
            r.is_error(JsonErrCode::InvalidReq, "Invalid Request"@, data),
    {
        JsonError {
            id: None,
            code: JsonErrCode::InvalidReq,
            message: "Invalid Request".to_string(),
            data,
        }
    }

    pub fn method_not_found(data: Option<String>) -> (r: JsonError)
        ensures
            r.is_error(JsonErrCode::MethodNotFound, "Method not found"@, data),
    {
        JsonError {
            id: None,
            code: JsonErrCode::MethodNotFound,
            message: "Method not found".to_string(),
            data,
        }
    }

    pub fn invalid_param(data: Option<String>) -> (r: JsonError)
        ensures
            r.is_error(JsonErrCode::InvalidParam, "Invalid params"@, data),
    {
        JsonError {
            id: None,
            code: JsonErrCode::InvalidParam,
            message: "Invalid params".to_string(),
            data,
        }
    }

    pub fn internal(data: Option<String>) -> (r: JsonError)
        ensures
            r.is_error(JsonErrCode::Internal, "Internal jsonrpc error"@, data),
    {
        JsonError {
            id: None,
            code: JsonErrCode::Internal,
            message: "Internal jsonrpc error".to_string(),
            data,
        }
    }

    pub fn no_control(data: Option<String>) -> (r: JsonError)
        ensures
            r.is_error(JsonErrCode::NoControl, "No player to control"@, data),
    {
        JsonError {
            id: None,
            code: JsonErrCode::NoControl,
            message: "No player to control".to_string(),
            data,
        }
    }

    pub fn set_id(&mut self, id: Option<i64>)
        ensures
            final(self).id == id,
            final(self).code == old(self).code,
            final(self).message == old(self).message,
            final(self).data == old(self).data,
    {
        self.id = id;
    }
}

/// The error text matches the expected one, both absent or both present and equal.
pub open spec fn data_is(d: Option<String>, v: Option<Seq<char>>) -> bool {
    match (d, v) {
        (None, None) => true,
        (Some(x), Some(y)) => x@ == y,
        _ => false,
    }
}

/// The outcome is an error of the given code, message and data, with no request id yet.
pub open spec fn fails_with<T>(
    r: Result<T, JsonError>,
    code: JsonErrCode,
    message: Seq<char>,
    data: Option<Seq<char>>,
) -> bool {
    match r {
        Err(e) => e.id is None && e.code == code && e.message@ == message && data_is(e.data, data),
        Ok(_) => false,
    }
}

/// What a request's `id` member holds.
#[derive(PartialEq, Eq, Structural, Clone, Copy, Debug)]
pub enum IdValue {
    /// Absent, or `null`.
    Null,
    /// A number that fits in an `i64`.
    Integer(i64),
    /// Any other number.
    OtherNumber,
    /// Neither a number nor `null`.
    NotANumber,
}

/// The request id, or the error that a request with such an `id` gets.
pub fn request_id(id: IdValue) -> (r: Result<i64, JsonError>)
    ensures
        match id {
            IdValue::Integer(v) => r == Ok::<i64, JsonError>(v),
            IdValue::Null => fails_with(
                r,
                JsonErrCode::InvalidReq,
                "Invalid Request"@,
                Some("No id field found"@),
            ),
            IdValue::OtherNumber => fails_with(
                r,
                JsonErrCode::InvalidReq,
                "Invalid Request"@,
                Some("Invalid id value"@),
            ),
            IdValue::NotANumber => fails_with(
                r,
                JsonErrCode::InvalidReq,
                "Invalid Request"@,
                Some("Unexpected id value"@),
            ),
        },
{
    match id {
        IdValue::Integer(v) => Ok(v),
        IdValue::Null => Err(JsonError::invalid_request(Some("No id field found".to_string()))),
        IdValue::OtherNumber => Err(JsonError::invalid_request(Some("Invalid id value".to_string()))),
        IdValue::NotANumber => Err(
            JsonError::invalid_request(Some("Unexpected id value".to_string())),
        ),
    }
}

/// What a request's `params` member holds.
#[derive(PartialEq, Eq, Structural, Clone, Copy, Debug)]
pub enum ParamValue {
    /// A number that fits in a `u64`.
    Unsigned(u64),
    /// Absent, or anything else.
    Other,
}

/// Commands for the remote-control session.
#[derive(PartialEq, Eq, Structural, Clone, Copy, Debug)]
pub enum RemoteCommand {
    Play,
    Pause,
    Next,
    Shuffle(bool),
    SetVolume(u16),
}

/// What serving a request takes.
#[derive(PartialEq, Eq, Structural, Clone, Copy, Debug)]
pub enum RequestPlan {
    /// Reply with the whole status.
    Status,
    /// Reply with the volume.
    Volume,
    /// Reply with the play state.
    PlayState,
    /// Send a command to the remote-control session, and reply with its outcome.
    Command(RemoteCommand),
}

/// The plan for each method name that the server knows.
pub open spec fn spec_plan(method: Seq<char>, params: ParamValue) -> Option<RequestPlan> {
    if method == "getStatus"@ {
        Some(RequestPlan::Status)
    } else if method == "getVolume"@ {
        Some(RequestPlan::Volume)
    } else if method == "getPlayState"@ {
        Some(RequestPlan::PlayState)
    } else if method == "setPlay"@ {
        Some(RequestPlan::Command(RemoteCommand::Play))
    } else if method == "setPause"@ {
        Some(RequestPlan::Command(RemoteCommand::Pause))
    } else if method == "setNext"@ {
        Some(RequestPlan::Command(RemoteCommand::Next))
    } else if method == "setShuffleOn"@ {
        Some(RequestPlan::Command(RemoteCommand::Shuffle(true)))
    } else if method == "setShuffleOff"@ {
        Some(RequestPlan::Command(RemoteCommand::Shuffle(false)))
    } else if method == "setVolume"@ {
        match params {
            ParamValue::Unsigned(v) => if v <= u16::MAX {
                Some(RequestPlan::Command(RemoteCommand::SetVolume(v as u16)))
            } else {
                None
            },
            ParamValue::Other => None,
        }
    } else {
        None
    }
}

fn is_name(name: &String, lit: &str) -> (r: bool)
    ensures
        r == (name@ == lit@),
{
    let s = lit.to_string();
    *name == s
}

/// Decides how to serve a request for `method`. A volume must lie in 0..=65535.
pub fn plan_request(method: &String, params: ParamValue) -> (r: Result<RequestPlan, JsonError>)
    ensures
        spec_plan(method@, params) matches Some(p) ==> r == Ok::<RequestPlan, JsonError>(p),
        spec_plan(method@, params) is None && method@ == "setVolume"@ ==> fails_with(
            r,
            JsonErrCode::InvalidParam,
            "Invalid params"@,
            Some(
                if params is Other {
                    "Volume not a number"@
                } else {
                    "Volume out of range"@
                },
            ),
        ),
        spec_plan(method@, params) is None && method@ != "setVolume"@ ==> fails_with(
            r,
            JsonErrCode::MethodNotFound,
            "Method not found"@,
            None,
        ),
{
    if is_name(method, "getStatus") {
        Ok(RequestPlan::Status)
    } else if is_name(method, "getVolume") {
        Ok(RequestPlan::Volume)
    } else if is_name(method, "getPlayState") {
        Ok(RequestPlan::PlayState)
    } else if is_name(method, "setPlay") {
        Ok(RequestPlan::Command(RemoteCommand::Play))
    } else if is_name(method, "setPause") {
        Ok(RequestPlan::Command(RemoteCommand::Pause))
    } else if is_name(method, "setNext") {
        Ok(RequestPlan::Command(RemoteCommand::Next))
    } else if is_name(method, "setShuffleOn") {
        Ok(RequestPlan::Command(RemoteCommand::Shuffle(true)))
    } else if is_name(method, "setShuffleOff") {
        Ok(RequestPlan::Command(RemoteCommand::Shuffle(false)))
    } else if is_name(method, "setVolume") {
        match params {
            ParamValue::Unsigned(v) => if v <= u16::MAX as u64 {
                Ok(RequestPlan::Command(RemoteCommand::SetVolume(v as u16)))
            } else {
                Err(JsonError::invalid_param(Some("Volume out of range".to_string())))
            },
            ParamValue::Other => Err(
                JsonError::invalid_param(Some("Volume not a number".to_string())),
            ),
        }
    } else {
        Err(JsonError::method_not_found(None))
    }
}

/// The reply to a command: `"Ok"` once sent; `NoControl` when no remote-control session is
/// attached; `Internal`, carrying the failure, when sending failed.
pub fn command_reply(attached: bool, send_failure: Option<String>) -> (r: Result<String, JsonError>)
    ensures
        !attached ==> fails_with(r, JsonErrCode::NoControl, "No player to control"@, None),
        attached && send_failure is None ==> (r matches Ok(s) && s@ == "Ok"@),
        attached && send_failure is Some ==> fails_with(
            r,
            JsonErrCode::Internal,
            "Internal jsonrpc error"@,
            Some(send_failure.unwrap()@),
        ),
{
    if !attached {
        return Err(JsonError::no_control(None));
    }
    match send_failure {
        None => Ok("Ok".to_string()),
        Some(f) => Err(JsonError::internal(Some(f))),
    }
}

/// Whether the player plays, pauses or stands still.
#[derive(PartialEq, Eq, Structural, Clone, Copy, Debug)]
pub enum PlayingState {
    Playing,
    Paused,
    Stopped,
}

impl PlayingState {
    pub fn name(&self) -> (r: String)
        ensures
            r@ == match *self {
                PlayingState::Playing => "Playing"@,
                PlayingState::Paused => "Paused"@,
                PlayingState::Stopped => "Stopped"@,
            },
    {
        match self {
            PlayingState::Playing => "Playing".to_string(),
            PlayingState::Paused => "Paused".to_string(),
            PlayingState::Stopped => "Stopped".to_string(),
        }
    }
}

/// Cover art of a track.
#[derive(Debug)]
pub struct Cover {
    pub url: String,
    pub width: i32,
    pub height: i32,
}

/// The fields that only a music track or only a podcast episode has.
#[derive(Debug)]
pub enum UniqueFields {
    Track { album: String, artists: Vec<String> },
    Episode { show_name: String },
}

/// What clients learn of the current track.
#[derive(Debug)]
pub struct Track {
    pub track_id: String,
    pub name: String,
    pub covers: Vec<Cover>,
    pub album: Option<String>,
    pub artists: Vec<String>,
    pub show_name: Option<String>,
}

impl Track {
    /// Builds the public description of an audio item.
    pub fn from_audio_item(
        track_id: String,
        name: String,
        covers: Vec<Cover>,
        unique_fields: UniqueFields,
    ) -> (r: Track)
        ensures
            r.track_id == track_id,
            r.name == name,
            r.covers == covers,
            match unique_fields {
                UniqueFields::Track { album, artists } => r.album == Some(album) && r.artists
                    == artists && r.show_name is None,
                UniqueFields::Episode { show_name } => r.album is None && r.artists@.len() == 0
                    && r.show_name == Some(show_name),
            },
    {
        let (album, artists, show_name) = match unique_fields {
            UniqueFields::Track { album, artists } => (Some(album), artists, None),
            UniqueFields::Episode { show_name } => (None, Vec::new(), Some(show_name)),
        };
        Track { track_id, name, covers, album, artists, show_name }
    }
}

/// What the server learns from the player.
#[derive(Debug)]
pub enum StatusEvent {
    Playing,
    Paused,
    Stopped,
    TrackChanged(Track),
    VolumeChanged(u16),
    ShuffleChanged(bool),
    /// Any event that the public status does not follow.
    Other,
}

/// What the server tells its WebSocket clients.
#[derive(PartialEq, Eq, Structural, Clone, Copy, Debug)]
pub enum Notification {
    Play,
    Pause,
    Stop,
    /// The status holds the new track.
    NewTrack,
    VolumeChange(u16),
    Shuffle(bool),
}

impl Notification {
    /// The JSON-RPC method name of the notification.
    pub fn method(&self) -> (r: String)
        ensures
            r@ == match *self {
                Notification::Play => "OnPlay"@,
                Notification::Pause => "OnPause"@,
                Notification::Stop => "OnStop"@,
                Notification::NewTrack => "OnNewTrack"@,
                Notification::VolumeChange(_) => "OnVolumeChange"@,
                Notification::Shuffle(_) => "OnShuffleChange"@,
            },
    {
        match self {
            Notification::Play => "OnPlay".to_string(),
            Notification::Pause => "OnPause".to_string(),
            Notification::Stop => "OnStop".to_string(),
            Notification::NewTrack => "OnNewTrack".to_string(),
            Notification::VolumeChange(_) => "OnVolumeChange".to_string(),
            Notification::Shuffle(_) => "OnShuffleChange".to_string(),
        }
    }
}

/// The public status that `getStatus` reports.
#[derive(Debug)]
pub struct PlayerStatus {
    pub track: Option<Track>,
    pub playing: PlayingState,
    pub volume: u16,
    pub shuffle: bool,
}

/// The status agrees with the event: what the event reports is what the status says.
pub open spec fn reflects(s: PlayerStatus, e: StatusEvent) -> bool {
    match e {
        StatusEvent::Playing => s.playing == PlayingState::Playing,
        StatusEvent::Paused => s.playing == PlayingState::Paused,
        StatusEvent::Stopped => s.playing == PlayingState::Stopped && s.track is None,
        StatusEvent::TrackChanged(t) => s.track == Some(t),
        StatusEvent::VolumeChanged(v) => s.volume == v,
        StatusEvent::ShuffleChanged(b) => s.shuffle == b,
        StatusEvent::Other => true,
    }
}

/// Every field of the status that the event does not report keeps its value.
pub open spec fn keeps_unreported(a: PlayerStatus, b: PlayerStatus, e: StatusEvent) -> bool {
    &&& (e is TrackChanged || e is Stopped || b.track == a.track)
    &&& (e is Playing || e is Paused || e is Stopped || b.playing == a.playing)
    &&& (e is VolumeChanged || b.volume == a.volume)
    &&& (e is ShuffleChanged || b.shuffle == a.shuffle)
}

/// The notification that an event brings about.
pub open spec fn notification_of(e: StatusEvent) -> Option<Notification> {
    match e {
        StatusEvent::Playing => Some(Notification::Play),
        StatusEvent::Paused => Some(Notification::Pause),
        StatusEvent::Stopped => Some(Notification::Stop),
        StatusEvent::TrackChanged(_) => Some(Notification::NewTrack),
        StatusEvent::VolumeChanged(v) => Some(Notification::VolumeChange(v)),
        StatusEvent::ShuffleChanged(b) => Some(Notification::Shuffle(b)),
        StatusEvent::Other => None,
    }
}

impl PlayerStatus {
    pub fn new() -> (r: PlayerStatus)
        ensures
            r.track is None,
            r.playing == PlayingState::Stopped,
            r.volume == 0,
            !r.shuffle,
    {
        PlayerStatus { track: None, playing: PlayingState::Stopped, volume: 0, shuffle: false }
    }

    /// Brings the status up to date with an event from the player, and says which
    /// notification the clients get. Only what the event reports changes.
    pub fn handle_internal_event(&mut self, e: StatusEvent) -> (r: Option<Notification>)
        ensures
            reflects(*final(self), e),
            r == notification_of(e),
            keeps_unreported(*old(self), *final(self), e),
    {
        match e {
            StatusEvent::Playing => {
                self.playing = PlayingState::Playing;
                Some(Notification::Play)
            },
            StatusEvent::Paused => {
                self.playing = PlayingState::Paused;
                Some(Notification::Pause)
            },
            StatusEvent::Stopped => {
                self.playing = PlayingState::Stopped;
                self.track = None;
                Some(Notification::Stop)
            },
            StatusEvent::TrackChanged(t) => {
                self.track = Some(t);
                Some(Notification::NewTrack)
            },
            StatusEvent::VolumeChanged(v) => {
                self.volume = v;
                Some(Notification::VolumeChange(v))
            },
            StatusEvent::ShuffleChanged(b) => {
                self.shuffle = b;
                Some(Notification::Shuffle(b))
            },
            StatusEvent::Other => None,
        }
    }
}

} // verus!
