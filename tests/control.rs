use yamaha_rcp::{
    check_status, get_device_info, get_features, get_signal_info, get_zone_program_list,
    get_zone_status, net_usb_get_list_info, net_usb_get_play_info, net_usb_set_list_control,
    net_usb_set_playback, net_usb_set_repeat, net_usb_set_search_string, net_usb_set_shuffle,
    net_usb_toggle_repeat, net_usb_toggle_shuffle, parse_response, reply_body, request_text,
    search_request, set_3d_surround, set_balance, set_dialogue_level, set_dialogue_lift,
    set_direct, set_dts_dialogue_control, set_enhancer, set_extra_bass, set_input, set_mute,
    set_pure_direct, set_sleep, set_sound_program, set_subwoofer_volume, set_tone_bass,
    set_tone_treble, set_volume_down, set_volume_up, toggle_zone_power, ApiError,
    InternalError, ListControl, Method, Playback, Repeat, Request, ResponseCode, Shuffle,
};

fn is_get(r: &Request, host: &str, path: &str) -> bool {
    r.host == host && r.method == Method::Get && r.path == path && r.body.is_none()
}

#[test]
fn fixed_requests() {
    let ip = "192.168.1.20";
    assert!(is_get(&get_device_info(ip), ip, "/v1/system/getDeviceInfo"));
    assert!(is_get(&get_features(ip), ip, "/v1/system/getFeatures"));
    assert!(is_get(&net_usb_get_play_info(ip), ip, "/v1/netusb/getPlayInfo"));
    assert!(is_get(&net_usb_toggle_repeat(ip), ip, "/v1/netusb/toggleRepeat"));
    assert!(is_get(&net_usb_toggle_shuffle(ip), ip, "/v1/netusb/toggleShuffle"));
}

#[test]
fn zone_requests() {
    let ip = "10.0.0.5";
    assert!(is_get(&get_zone_status(ip, "main"), ip, "/v1/main/getStatus"));
    assert!(is_get(&get_zone_program_list(ip, "zone2"), ip, "/v1/zone2/getSoundProgramList"));
    assert!(is_get(&get_signal_info(ip, "main"), ip, "/v1/main/getSignalInfo"));
    assert!(is_get(&toggle_zone_power(ip, "main"), ip, "/v1/main/setPower?power=toggle"));
    assert!(is_get(&set_volume_up(ip, "main"), ip, "/v1/main/setVolume?volume=up"));
    assert!(is_get(&set_volume_down(ip, "main"), ip, "/v1/main/setVolume?volume=down"));
}

#[test]
fn zone_requests_with_values() {
    let ip = "10.0.0.5";
    assert!(is_get(&set_sleep(ip, "main", 120), ip, "/v1/main/setSleep?sleep=120"));
    assert!(is_get(&set_sleep(ip, "main", 0), ip, "/v1/main/setSleep?sleep=0"));
    assert!(is_get(&set_sleep(ip, "main", u32::MAX), ip, "/v1/main/setSleep?sleep=4294967295"));
    assert!(is_get(&set_mute(ip, "main", true), ip, "/v1/main/setMute?enable=true"));
    assert!(is_get(&set_mute(ip, "main", false), ip, "/v1/main/setMute?enable=false"));
    assert!(is_get(&set_input(ip, "main", "hdmi1"), ip, "/v1/main/setInput?input=hdmi1"));
    assert!(is_get(&set_sound_program(ip, "main", "straight"), ip, "/v1/main/setSoundProgram?program=straight"));
    assert!(is_get(&set_3d_surround(ip, "main", true), ip, "/v1/main/set3dSurround?enable=true"));
    assert!(is_get(&set_direct(ip, "main", false), ip, "/v1/main/setDirect?enable=false"));
    assert!(is_get(&set_pure_direct(ip, "main", true), ip, "/v1/main/setPureDirect?enable=true"));
    assert!(is_get(&set_enhancer(ip, "main", true), ip, "/v1/main/setEnhancer?enable=true"));
    assert!(is_get(&set_extra_bass(ip, "main", false), ip, "/v1/main/setExtraBass?enable=false"));
    assert!(is_get(&set_balance(ip, "main", -3), ip, "/v1/main/setBalance?value=-3"));
    assert!(is_get(&set_balance(ip, "main", i32::MIN), ip, "/v1/main/setBalance?value=-2147483648"));
    assert!(is_get(&set_subwoofer_volume(ip, "main", 4), ip, "/v1/main/setSubwooferVolume?volume=4"));
    assert!(is_get(&set_dialogue_lift(ip, "main", 2), ip, "/v1/main/setDialogueLift?value=2"));
    assert!(is_get(&set_dialogue_level(ip, "main", 0), ip, "/v1/main/setDialogueLevel?value=0"));
    assert!(is_get(&set_dts_dialogue_control(ip, "main", 5), ip, "/v1/main/setDtsDialogueControl?value=5"));
    assert!(is_get(&set_tone_bass(ip, "main", -6), ip, "/v1/main/setToneControl?mode=manual&bass=-6"));
    assert!(is_get(&set_tone_treble(ip, "main", 12), ip, "/v1/main/setToneControl?mode=manual&treble=12"));
}

#[test]
fn net_usb_mode_requests() {
    let ip = "10.0.0.5";
    assert!(is_get(&net_usb_set_playback(ip, Playback::PlayPause), ip, "/v1/netusb/setPlayback?playback=play_pause"));
    assert!(is_get(&net_usb_set_playback(ip, Playback::FastReverseStart), ip, "/v1/netusb/setPlayback?playback=fast_reverse_start"));
    assert!(is_get(&net_usb_set_repeat(ip, Repeat::All), ip, "/v1/netusb/setRepeat?mode=all"));
    assert!(is_get(&net_usb_set_shuffle(ip, Shuffle::Albums), ip, "/v1/netusb/setShuffle?mode=albums"));
}

#[test]
fn list_requests() {
    let ip = "10.0.0.5";
    assert!(is_get(
        &net_usb_get_list_info(ip, "server", 0, 8, "en"),
        ip,
        "/v1/netusb/getListInfo?input=server&index=0&size=8&lang=en"
    ));
    assert!(is_get(
        &net_usb_set_list_control(ip, "main", ListControl::Select, None, None),
        ip,
        "/v1/netusb/setListControl?list_id=main&type=select"
    ));
    assert!(is_get(
        &net_usb_set_list_control(ip, "main", ListControl::Play, Some(3), Some("zone2")),
        ip,
        "/v1/netusb/setListControl?list_id=main&type=play&index=3&zone=zone2"
    ));
    assert!(is_get(
        &net_usb_set_list_control(ip, "main", ListControl::Return, None, Some("main")),
        ip,
        "/v1/netusb/setListControl?list_id=main&type=return&zone=main"
    ));
}

#[test]
fn search_request_quotes_its_texts() {
    let r = net_usb_set_search_string("10.0.0.5", "main", "say \"hi\"", Some(2)).unwrap();
    assert_eq!(r.method, Method::Post);
    assert_eq!(r.path, "/v1/netusb/setSearchString");
    assert_eq!(r.body.as_deref(), Some("{\"list_id\":\"main\",\"string\":\"say \\\"hi\\\"\",\"index\":2}"));
    let none = net_usb_set_search_string("10.0.0.5", "main", "abc", None).unwrap();
    assert_eq!(none.body.as_deref(), Some("{\"list_id\":\"main\",\"string\":\"abc\",\"index\":null}"));
    let direct = search_request("h", "\"l\"", "\"t\"", Some(0));
    assert_eq!(direct.body.as_deref(), Some("{\"list_id\":\"l\",\"string\":\"t\",\"index\":0}"));
}

#[test]
fn request_text_of_get() {
    let r = set_volume_up("10.0.0.5", "main");
    assert_eq!(
        request_text(&r),
        "GET /YamahaExtendedControl/v1/main/setVolume?volume=up HTTP/1.1\r\nHost: 10.0.0.5\r\nConnection: close\r\n\r\n"
    );
}

#[test]
fn request_text_of_post_counts_bytes() {
    let r = search_request("10.0.0.5", "\"m\"", "\"é\"", None);
    let body = "{\"list_id\":\"m\",\"string\":\"é\",\"index\":null}";
    assert_eq!(
        request_text(&r),
        format!(
            "POST /YamahaExtendedControl/v1/netusb/setSearchString HTTP/1.1\r\nHost: 10.0.0.5\r\nConnection: close\r\nContent-Type: application/json\r\nContent-Length: {}\r\n\r\n{}",
            body.len(),
            body
        )
    );
    assert_eq!(body.len(), 42);
}

#[test]
fn reply_body_after_headers() {
    assert_eq!(reply_body("HTTP/1.1 200 OK\r\nA: b\r\n\r\n{\"response_code\":0}"), "{\"response_code\":0}");
    assert_eq!(reply_body("HTTP/1.1 200 OK\r\nA: b\r\n"), "");
}

#[test]
fn status_codes() {
    assert!(check_status(Some(0)).is_ok());
    assert!(matches!(check_status(Some(3)), Err(ApiError::ResponseError(ResponseCode::InvalidRequest))));
    assert!(matches!(check_status(Some(7)), Err(ApiError::ResponseError(ResponseCode::OtherErrors))));
    assert!(matches!(check_status(None), Err(ApiError::InternalError(InternalError::DeserializationError(_)))));
}

#[test]
fn parse_response_envelope() {
    let ok = parse_response("{\"response_code\":0,\"sound_program_list\":[\"straight\"]}").unwrap();
    assert_eq!(ok["sound_program_list"][0], "straight");
    assert!(matches!(
        parse_response("{\"response_code\":5}"),
        Err(ApiError::ResponseError(ResponseCode::Guarded))
    ));
    assert!(matches!(
        parse_response("{\"other\":1}"),
        Err(ApiError::InternalError(InternalError::DeserializationError(_)))
    ));
    assert!(matches!(
        parse_response("not json"),
        Err(ApiError::InternalError(InternalError::DeserializationError(_)))
    ));
    assert!(matches!(
        parse_response(""),
        Err(ApiError::InternalError(InternalError::DeserializationError(_)))
    ));
}

#[test]
fn response_code_table() {
    assert_eq!(ResponseCode::from(0), ResponseCode::Successful);
    assert_eq!(ResponseCode::from(99), ResponseCode::FirmwareUpdating);
    assert_eq!(ResponseCode::from(115), ResponseCode::SimultaneousLoginsLimit);
    assert_eq!(ResponseCode::from(201), ResponseCode::UnlinkingInProgress);
    assert_eq!(ResponseCode::from(7), ResponseCode::OtherErrors);
    assert_eq!(ResponseCode::from(202), ResponseCode::OtherErrors);
    assert_eq!(ResponseCode::LinkingInProgress.code(), 200);
    assert_eq!(ResponseCode::Guarded.description(), "Guarded (Operation not allowed)");
    assert_eq!(ResponseCode::ReadOnlyMode.description(), "Read-Only Mode");
    assert_eq!(ResponseCode::TimeOut.description(), "Request Timed Out");
}

#[test]
fn mode_names_round_trip() {
    assert_eq!(Playback::FastForwardEnd.name(), "fast_forward_end");
    assert_eq!(Playback::from_name("play_pause"), Some(Playback::PlayPause));
    assert_eq!(Playback::from_name("PlayPause"), None);
    assert_eq!(Repeat::from_name("one"), Some(Repeat::One));
    assert_eq!(Shuffle::Songs.name(), "songs");
    assert_eq!(Shuffle::from_name("on"), Some(Shuffle::On));
    assert_eq!(ListControl::Return.name(), "return");
    assert_eq!(ListControl::from_name(""), None);
}

#[test]
fn status_beyond_u32_is_other_error() {
    assert!(matches!(
        check_status(Some(1u64 << 32)),
        Err(ApiError::ResponseError(ResponseCode::OtherErrors))
    ));
    assert!(matches!(
        check_status(Some((1u64 << 32) + 3)),
        Err(ApiError::ResponseError(ResponseCode::OtherErrors))
    ));
    assert!(matches!(
        parse_response("{\"response_code\":4294967296}"),
        Err(ApiError::ResponseError(ResponseCode::OtherErrors))
    ));
}

#[test]
fn status_that_is_no_unsigned_integer_is_a_decoding_error() {
    for body in ["{\"response_code\":-1}", "{\"response_code\":\"0\"}", "[0]", "{\"response_code\":1.5}"] {
        assert!(matches!(
            parse_response(body),
            Err(ApiError::InternalError(InternalError::DeserializationError(_)))
        ));
    }
}

#[test]
fn search_text_control_characters_are_escaped() {
    let r = net_usb_set_search_string("h", "a\\b", "x\ny\u{1}\t\u{7f}é", None).unwrap();
    assert_eq!(
        r.body.as_deref(),
        Some("{\"list_id\":\"a\\\\b\",\"string\":\"x\\ny\\u0001\\t\u{7f}é\",\"index\":null}")
    );
}
