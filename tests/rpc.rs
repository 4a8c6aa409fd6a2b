use playback_core::rpc::{
    command_reply, plan_request, request_id, IdValue, JsonErrCode, JsonError, JsonResponse,
    Notification, ParamValue, PlayerStatus, PlayingState, RemoteCommand, RequestPlan,
    StatusEvent, Track, UniqueFields,
};

#[test]
fn error_codes() {
    assert_eq!(JsonErrCode::Parse.code(), -32700);
    assert_eq!(JsonErrCode::InvalidReq.code(), -32600);
    assert_eq!(JsonErrCode::MethodNotFound.code(), -32601);
    assert_eq!(JsonErrCode::InvalidParam.code(), -32602);
    assert_eq!(JsonErrCode::Internal.code(), -32603);
    assert_eq!(JsonErrCode::NoStream.code(), -32000);
    assert_eq!(JsonErrCode::NoControl.code(), -32001);
    assert_eq!(JsonErrCode::PlayerPoison.code(), -32002);
}

#[test]
fn error_constructors() {
    let e = JsonError::parse(Some("x".to_string()));
    assert_eq!((e.code, e.message.as_str(), e.data.as_deref()), (JsonErrCode::Parse, "Parse error", Some("x")));
    assert_eq!(JsonError::invalid_request(None).message, "Invalid Request");
    assert_eq!(JsonError::method_not_found(None).message, "Method not found");
    assert_eq!(JsonError::invalid_param(None).message, "Invalid params");
    assert_eq!(JsonError::internal(None).message, "Internal jsonrpc error");
    let mut e = JsonError::no_control(None);
    assert_eq!(e.message, "No player to control");
    assert_eq!(e.id, None);
    e.set_id(Some(7));
    assert_eq!(e.id, Some(7));
    let mut r = JsonResponse::new(3, serde_json::Value::Null);
    r.set_id(4);
    assert_eq!(r.id, 4);
}

#[test]
fn request_ids() {
    assert_eq!(request_id(IdValue::Integer(12)).unwrap(), 12);
    let e = request_id(IdValue::Null).unwrap_err();
    assert_eq!((e.code, e.data.unwrap()), (JsonErrCode::InvalidReq, "No id field found".to_string()));
    let e = request_id(IdValue::OtherNumber).unwrap_err();
    assert_eq!((e.code, e.data.unwrap()), (JsonErrCode::InvalidReq, "Invalid id value".to_string()));
    let e = request_id(IdValue::NotANumber).unwrap_err();
    assert_eq!((e.code, e.data.unwrap()), (JsonErrCode::InvalidReq, "Unexpected id value".to_string()));
}

#[test]
fn method_plans() {
    let p = |m: &str, v: ParamValue| plan_request(&m.to_string(), v);
    assert_eq!(p("getStatus", ParamValue::Other).unwrap(), RequestPlan::Status);
    assert_eq!(p("getVolume", ParamValue::Other).unwrap(), RequestPlan::Volume);
    assert_eq!(p("getPlayState", ParamValue::Other).unwrap(), RequestPlan::PlayState);
    assert_eq!(p("setPlay", ParamValue::Other).unwrap(), RequestPlan::Command(RemoteCommand::Play));
    assert_eq!(p("setPause", ParamValue::Other).unwrap(), RequestPlan::Command(RemoteCommand::Pause));
    assert_eq!(p("setNext", ParamValue::Other).unwrap(), RequestPlan::Command(RemoteCommand::Next));
    assert_eq!(
        p("setShuffleOn", ParamValue::Other).unwrap(),
        RequestPlan::Command(RemoteCommand::Shuffle(true))
    );
    assert_eq!(
        p("setShuffleOff", ParamValue::Other).unwrap(),
        RequestPlan::Command(RemoteCommand::Shuffle(false))
    );
    assert_eq!(
        p("setVolume", ParamValue::Unsigned(30000)).unwrap(),
        RequestPlan::Command(RemoteCommand::SetVolume(30000))
    );
    assert_eq!(
        p("setVolume", ParamValue::Unsigned(65535)).unwrap(),
        RequestPlan::Command(RemoteCommand::SetVolume(65535))
    );
    let e = p("setVolume", ParamValue::Unsigned(65536)).unwrap_err();
    assert_eq!((e.code, e.data.unwrap()), (JsonErrCode::InvalidParam, "Volume out of range".to_string()));
    let e = p("setVolume", ParamValue::Other).unwrap_err();
    assert_eq!((e.code, e.data.unwrap()), (JsonErrCode::InvalidParam, "Volume not a number".to_string()));
    let e = p("frobnicate", ParamValue::Other).unwrap_err();
    assert_eq!((e.code, e.data), (JsonErrCode::MethodNotFound, None));
}

#[test]
fn command_replies() {
    assert_eq!(command_reply(true, None).unwrap(), "Ok");
    assert_eq!(command_reply(false, None).unwrap_err().code, JsonErrCode::NoControl);
    let e = command_reply(true, Some("closed".to_string())).unwrap_err();
    assert_eq!((e.code, e.data.unwrap()), (JsonErrCode::Internal, "closed".to_string()));
}

fn sample_track() -> Track {
    Track::from_audio_item(
        "4uLU6hMCjMI75M1A2tKUQC".to_string(),
        "Song".to_string(),
        vec![],
        UniqueFields::Track { album: "Album".to_string(), artists: vec!["A".to_string()] },
    )
}

#[test]
fn status_follows_events() {
    let mut s = PlayerStatus::new();
    assert_eq!(s.playing, PlayingState::Stopped);
    assert_eq!(s.handle_internal_event(StatusEvent::Playing), Some(Notification::Play));
    assert_eq!(s.playing, PlayingState::Playing);
    assert_eq!(s.handle_internal_event(StatusEvent::TrackChanged(sample_track())), Some(Notification::NewTrack));
    assert_eq!(s.track.as_ref().unwrap().name, "Song");
    assert_eq!(s.handle_internal_event(StatusEvent::VolumeChanged(100)), Some(Notification::VolumeChange(100)));
    assert_eq!(s.volume, 100);
    assert_eq!(s.handle_internal_event(StatusEvent::ShuffleChanged(true)), Some(Notification::Shuffle(true)));
    assert!(s.shuffle);
    assert_eq!(s.handle_internal_event(StatusEvent::Paused), Some(Notification::Pause));
    assert_eq!(s.playing, PlayingState::Paused);
    assert_eq!(s.handle_internal_event(StatusEvent::Stopped), Some(Notification::Stop));
    assert!(s.track.is_none());
    assert_eq!(s.volume, 100);
    assert_eq!(s.handle_internal_event(StatusEvent::Other), None);
}

#[test]
fn names_on_the_wire() {
    assert_eq!(Notification::Stop.method(), "OnStop");
    assert_eq!(Notification::NewTrack.method(), "OnNewTrack");
    assert_eq!(Notification::VolumeChange(1).method(), "OnVolumeChange");
    assert_eq!(Notification::Shuffle(true).method(), "OnShuffleChange");
    assert_eq!(PlayingState::Paused.name(), "Paused");
    let ep = Track::from_audio_item(
        "x".to_string(),
        "Ep".to_string(),
        vec![],
        UniqueFields::Episode { show_name: "Show".to_string() },
    );
    assert_eq!(ep.show_name.as_deref(), Some("Show"));
    assert!(ep.album.is_none() && ep.artists.is_empty());
    assert_eq!(sample_track().album.as_deref(), Some("Album"));
}
