use panoptic::obs::{
    obs_action, obs_config, obs_settings_definition, ws_url, ObsAction, ObsCall, ObsMessage,
    ObsOutgoing, ObsRequest, ObsSession, ObsSettingsFields, ObsStatus, SceneItemFields,
};

fn empty_message(op: u64) -> ObsMessage {
    ObsMessage {
        op: Some(op),
        challenge: None,
        salt: None,
        event_type: None,
        request_id: None,
        request_ok: None,
        scene_name: None,
        scenes: None,
        current_program_scene: None,
        input_name: None,
        input_muted: None,
        inputs: None,
        scene_item_id: None,
        scene_item_enabled: None,
        scene_items: None,
    }
}

fn identified() -> (ObsSession, ObsStatus) {
    let mut s = ObsSession::new();
    let mut st = ObsStatus::default();
    let r = s.on_message(&mut st, &empty_message(2), "");
    assert!(r.status_changed);
    (s, st)
}

#[test]
fn hello_gets_identify_with_auth_only_with_password() {
    let mut s = ObsSession::new();
    let mut st = ObsStatus::default();
    let mut hello = empty_message(0);
    hello.challenge = Some("+IxH4CnCiqpX1rM9scsNynZzbOe4KhDeYcTNS3PDaeY=".into());
    hello.salt = Some("lM1GncleQOaCu9lT1yeUZhFYnqhsLLP1G5lAGo3ixaI=".into());
    let r = s.on_message(&mut st, &hello, "supersecretpassword");
    assert_eq!(r.send.len(), 1);
    match &r.send[0] {
        ObsOutgoing::Identify { rpc_version, event_subscriptions, authentication } => {
            assert_eq!(*rpc_version, 1);
            assert_eq!(*event_subscriptions, 140);
            assert_eq!(authentication.as_deref(), Some("1Ct943GAT+6YQUUX47Ia/ncufilbe6+oD6lY+5kaCu4="));
        }
        _ => panic!("expected Identify"),
    }
    let r = s.on_message(&mut st, &hello, "");
    assert!(matches!(&r.send[0], ObsOutgoing::Identify { authentication: None, .. }));
    assert!(!s.authenticated);
}

#[test]
fn identified_connects_and_asks_for_lists() {
    let (s, st) = identified();
    assert!(s.authenticated);
    assert!(st.connected);
    let mut s2 = ObsSession::new();
    let mut st2 = ObsStatus::default();
    let r = s2.on_message(&mut st2, &empty_message(2), "");
    assert_eq!(r.send.len(), 2);
    assert!(matches!(&r.send[0], ObsOutgoing::Request(ObsCall::GetSceneList)));
    assert!(matches!(&r.send[1], ObsOutgoing::Request(ObsCall::GetInputList)));
}

#[test]
fn events_are_ignored_before_identification() {
    let mut s = ObsSession::new();
    let mut st = ObsStatus::default();
    let mut ev = empty_message(5);
    ev.event_type = Some("CurrentProgramSceneChanged".into());
    ev.scene_name = Some("Main".into());
    let r = s.on_message(&mut st, &ev, "");
    assert!(r.send.is_empty() && !r.status_changed);
    assert_eq!(st.current_scene, "");
    assert!(s.on_request(ObsRequest::ToggleMute("Mic".into())).is_none());
}

#[test]
fn scene_change_and_scene_list_responses() {
    let (mut s, mut st) = identified();
    let mut resp = empty_message(7);
    resp.request_id = Some("get_scenes".into());
    resp.request_ok = Some(true);
    resp.scenes = Some(vec![Some("Main".into()), None, Some("BRB".into())]);
    resp.current_program_scene = Some("Main".into());
    let r = s.on_message(&mut st, &resp, "");
    assert_eq!(st.scenes, vec!["Main".to_string(), "BRB".to_string()]);
    assert_eq!(st.current_scene, "Main");
    assert!(matches!(&r.send[0], ObsOutgoing::Request(ObsCall::GetSceneItemList { scene }) if scene == "Main"));
    let mut ev = empty_message(5);
    ev.event_type = Some("CurrentProgramSceneChanged".into());
    ev.scene_name = Some("BRB".into());
    let r = s.on_message(&mut st, &ev, "");
    assert_eq!(st.current_scene, "BRB");
    assert!(st.scene_items.is_empty());
    assert_eq!(r.send.len(), 1);
}

#[test]
fn inputs_probe_mutes_and_build_sources() {
    let (mut s, mut st) = identified();
    let mut resp = empty_message(7);
    resp.request_id = Some("get_inputs".into());
    resp.request_ok = Some(true);
    resp.inputs = Some(vec![Some("Mic".into()), Some("Camera".into())]);
    let r = s.on_message(&mut st, &resp, "");
    assert_eq!(r.send.len(), 2);
    match &r.send[0] {
        ObsOutgoing::Request(c) => {
            assert_eq!(c.request_type(), "GetInputMute");
            assert_eq!(c.request_id(), "get_mute:Mic");
        }
        _ => panic!(),
    }
    let mut mute = empty_message(7);
    mute.request_id = Some("get_mute:Mic".into());
    mute.request_ok = Some(true);
    mute.input_muted = Some(true);
    s.on_message(&mut st, &mute, "");
    s.on_message(&mut st, &mute, "");
    assert_eq!(st.audio_sources.len(), 1);
    assert!(st.audio_sources[0].muted);
    let mut failed = empty_message(7);
    failed.request_id = Some("get_mute:Camera".into());
    failed.request_ok = Some(false);
    let r = s.on_message(&mut st, &failed, "");
    assert!(!r.status_changed);
    assert_eq!(st.audio_sources.len(), 1);
    let mut ev = empty_message(5);
    ev.event_type = Some("InputMuteStateChanged".into());
    ev.input_name = Some("Mic".into());
    ev.input_muted = Some(false);
    s.on_message(&mut st, &ev, "");
    assert!(!st.audio_sources[0].muted);
    let mut rm = empty_message(5);
    rm.event_type = Some("InputRemoved".into());
    rm.input_name = Some("Mic".into());
    s.on_message(&mut st, &rm, "");
    assert!(st.audio_sources.is_empty());
}

#[test]
fn scene_items_are_read_and_toggled() {
    let (mut s, mut st) = identified();
    let mut resp = empty_message(7);
    resp.request_id = Some("get_scene_items".into());
    resp.request_ok = Some(true);
    resp.scene_items = Some(vec![
        SceneItemFields { id: Some(3), name: Some("Webcam".into()), enabled: None },
        SceneItemFields { id: None, name: Some("Broken".into()), enabled: Some(true) },
        SceneItemFields { id: Some(7), name: Some("Overlay".into()), enabled: Some(false) },
    ]);
    s.on_message(&mut st, &resp, "");
    assert_eq!(st.scene_items.len(), 2);
    assert!(st.scene_items[0].enabled && !st.scene_items[1].enabled);
    let mut ev = empty_message(5);
    ev.event_type = Some("SceneItemEnableStateChanged".into());
    ev.scene_item_id = Some(3);
    ev.scene_item_enabled = Some(false);
    s.on_message(&mut st, &ev, "");
    assert!(!st.scene_items[0].enabled);
    assert_eq!(st.scene_items[0].name, "Webcam");
}

#[test]
fn actions_are_read() {
    assert!(matches!(obs_action("connect", ""), Ok(ObsAction::Connect)));
    assert!(matches!(obs_action("disconnect", ""), Ok(ObsAction::Disconnect)));
    assert!(matches!(obs_action("switch_scene:Main", ""), Ok(ObsAction::Send(ObsRequest::SwitchScene(ref s))) if s == "Main"));
    assert!(matches!(obs_action("toggle_mute:Mic/Aux", ""), Ok(ObsAction::Send(ObsRequest::ToggleMute(ref s))) if s == "Mic/Aux"));
    match obs_action("toggle_scene_item:42:false", "Main") {
        Ok(ObsAction::Send(ObsRequest::SetSceneItemEnabled { scene, item_id, enabled })) => {
            assert_eq!((scene.as_str(), item_id, enabled), ("Main", 42, false));
        }
        _ => panic!(),
    }
    assert_eq!(obs_action("toggle_scene_item:x:true", "").err().unwrap(), "Unknown OBS action: toggle_scene_item:x:true");
    assert_eq!(obs_action("toggle_scene_item:5", "").err().unwrap(), "Unknown OBS action: toggle_scene_item:5");
    assert_eq!(obs_action("reboot", "").err().unwrap(), "Unknown OBS action: reboot");
}

#[test]
fn config_and_url() {
    let off = ObsSettingsFields { is_enabled: None, host: None, port: None, password: None };
    assert!(obs_config(&off).is_none());
    let on = ObsSettingsFields { is_enabled: Some(true), host: None, port: Some(70000), password: None };
    let c = obs_config(&on).unwrap();
    assert_eq!(c.host, "127.0.0.1");
    assert_eq!(c.port, (70000u64 as u16));
    assert_eq!(c.password, "");
    assert_eq!(ws_url("127.0.0.1", 4455), "ws://127.0.0.1:4455");
    let d = obs_settings_definition();
    assert_eq!(d.fields.len(), 5);
    assert_eq!(d.fields[4].key, "connect_action");
}
