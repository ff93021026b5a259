//! Requests of the receivers' control interface, their wire text, and the
//! status envelope of the replies.
//!
//! Each request function names what to ask of which device; sending it and
//! reading the reply is left to the caller, who hands the reply text back to
//! [`reply_body`] and [`parse_response`].
use vstd::prelude::*;
use vstd::utf8::encode_utf8;
use crate::enums::{ListControl, Playback, Repeat, Shuffle};
use crate::error::{response_code_for, ApiError, InternalError, ResponseCode};
use crate::text::{bool_str, bool_text, chars_of, decimal, decimal_string, find, find_from, signed_decimal, signed_decimal_string, string_of};

verus! {

/// Relied on as an opaque value: a parsed JSON document of serde_json.
#[verifier::external_type_specification]
#[verifier::external_body]
pub struct ExJsonValue(serde_json::Value);

pub open spec fn hex_digit(d: nat) -> char {
    seq!['0', '1', '2', '3', '4', '5', '6', '7', '8', '9', 'a', 'b', 'c', 'd', 'e', 'f'][d as int]
}

/// How serde_json writes one character inside a string literal: quote and
/// backslash escaped, the control characters with a short escape where JSON
/// has one and as `\u00XX` otherwise, every other character as itself.
pub open spec fn json_escape(c: char) -> Seq<char> {
    let u = c as u32;
    if c == '"' {
        seq!['\\', '"']
    } else if c == '\\' {
        seq!['\\', '\\']
    } else if u == 0x08 {
        seq!['\\', 'b']
    } else if u == 0x09 {
        seq!['\\', 't']
    } else if u == 0x0A {
        seq!['\\', 'n']
    } else if u == 0x0C {
        seq!['\\', 'f']
    } else if u == 0x0D {
        seq!['\\', 'r']
    } else if u < 0x20 {
        seq!['\\', 'u', '0', '0', hex_digit((u / 16) as nat), hex_digit((u % 16) as nat)]
    } else {
        seq![c]
    }
}

pub open spec fn json_escaped(s: Seq<char>) -> Seq<char>
    decreases s.len(),
{
    if s.len() == 0 {
        seq![]
    } else {
        json_escaped(s.drop_last()) + json_escape(s.last())
    }
}

/// The JSON string literal that serde_json writes for `s`.
pub open spec fn json_string(s: Seq<char>) -> Seq<char> {
    seq!['"'] + json_escaped(s) + seq!['"']
}

/// Whether serde_json's parser reads `s` as one JSON document (besides the
/// grammar, it refuses nesting deeper than 128 levels).
pub uninterp spec fn json_accepts(s: Seq<char>) -> bool;

/// The unsigned integer that member `key` of the JSON object in `s` holds,
/// if `s` parses, is an object, has that member and the member is one.
pub uninterp spec fn json_u64_member(s: Seq<char>, key: Seq<char>) -> Option<u64>;

/// Relies on `serde_json::to_string` on a `str`: it writes into a `Vec`, which
/// cannot fail, the quoted and escaped text of `s`.
#[verifier::external_body]
fn json_quote(s: &str) -> (r: Result<String, serde_json::Error>)
    ensures
        r is Ok,
        r matches Ok(q) ==> q@ == json_string(s@),
{
    serde_json::to_string(s)
}

/// Relies on `serde_json::from_str` into a `Value`: it succeeds on what the
/// parser accepts.
#[verifier::external_body]
fn parse_json(s: &str) -> (r: Result<serde_json::Value, serde_json::Error>)
    ensures
        r is Ok == json_accepts(s@),
{
    serde_json::from_str(s)
}

/// Relies on `serde_json::from_str` into a `Value`, then `Value::get` with a
/// string key and `Value::as_u64`: the unsigned integer member `key` of `s`.
#[verifier::external_body]
fn json_u64_field(s: &str, key: &str) -> (r: Option<u64>)
    ensures
        r == json_u64_member(s@, key@),
{
    serde_json::from_str::<serde_json::Value>(s).ok().and_then(|v| v.get(key).and_then(|m| m.as_u64()))
}

/// Relies on `serde::de::Error::custom` for `serde_json::Error`: an error with message `msg`.
#[verifier::external_body]
fn json_error(msg: &str) -> (r: serde_json::Error) {
    <serde_json::Error as serde::de::Error>::custom(msg)
}

/// The HTTP method of a request.
#[derive(Clone, Copy, Debug, PartialEq, Eq, Structural)]
pub enum Method {
    Get,
    Post,
}

/// A control request: the device to send it to, the method, the path under
/// the API root, and the JSON body of a `POST`.
pub struct Request {
    pub host: String,
    pub method: Method,
    pub path: String,
    pub body: Option<String>,
}

pub type RequestView = (Seq<char>, Method, Seq<char>, Option<Seq<char>>);

impl Request {
    pub open spec fn view(&self) -> RequestView {
        (
            self.host@,
            self.method,
            self.path@,
            match self.body {
                Some(b) => Some(b@),
                None => None,
            },
        )
    }
}

/// A body-less `GET` of `path` on `host`.
pub open spec fn get_of(host: Seq<char>, path: Seq<char>) -> RequestView {
    (host, Method::Get, path, None)
}

pub open spec fn zone_path(zone: Seq<char>, action: Seq<char>) -> Seq<char> {
    "/v1/"@ + zone + action
}

pub open spec fn number_param(key: Seq<char>, v: Option<u32>) -> Seq<char> {
    match v {
        Some(n) => key + decimal(n as nat),
        None => seq![],
    }
}

pub open spec fn text_param(key: Seq<char>, v: Option<Seq<char>>) -> Seq<char> {
    match v {
        Some(t) => key + t,
        None => seq![],
    }
}

pub open spec fn list_info_path(input: Seq<char>, index: u32, size: u32, lang: Seq<char>) -> Seq<char> {
    "/v1/netusb/getListInfo?input="@ + input + "&index="@ + decimal(index as nat) + "&size="@
        + decimal(size as nat) + "&lang="@ + lang
}

pub open spec fn list_control_path(
    list_id: Seq<char>,
    control: ListControl,
    index: Option<u32>,
    zone: Option<Seq<char>>,
) -> Seq<char> {
    "/v1/netusb/setListControl?list_id="@ + list_id + "&type="@ + control.name_spec()
        + number_param("&index="@, index) + text_param("&zone="@, zone)
}

pub open spec fn index_json(index: Option<u32>) -> Seq<char> {
    match index {
        Some(n) => decimal(n as nat),
        None => "null"@,
    }
}

/// The JSON body of a search, from its already quoted list id and text.
pub open spec fn search_body(quoted_list_id: Seq<char>, quoted_text: Seq<char>, index: Option<u32>) -> Seq<char> {
    "{\"list_id\":"@ + quoted_list_id + ",\"string\":"@ + quoted_text + ",\"index\":"@ + index_json(index)
        + "}"@
}

pub open spec fn method_text(m: Method) -> Seq<char> {
    match m {
        Method::Get => "GET"@,
        Method::Post => "POST"@,
    }
}

/// The HTTP/1.1 text of a request; a body goes with its type and its length in bytes.
pub open spec fn request_text_of(r: RequestView) -> Seq<char> {
    method_text(r.1) + " /YamahaExtendedControl"@ + r.2 + " HTTP/1\x2e1\r\nHost: "@ + r.0
        + "\r\nConnection: close\r\n"@ + match r.3 {
        Some(b) => "Content-Type: application/json\r\nContent-Length: "@ + decimal(
            (encode_utf8(b).len() as usize) as nat,
        ) + "\r\n\r\n"@ + b,
        None => "\r\n"@,
    }
}

/// The body of a reply: what follows the first blank line, or nothing.
pub open spec fn reply_body_of(response: Seq<char>) -> Seq<char> {
    match find_from(response, seq!['\r', '\n', '\r', '\n'], 0) {
        Some(k) => response.subrange(k + 4 as int, response.len() as int),
        None => seq![],
    }
}

fn get(ip: &str, path: String) -> (r: Request)
    ensures
        r.view() == get_of(ip@, path@),
{
    Request { host: String::from_str(ip), method: Method::Get, path, body: None }
}

fn fixed(path: &str) -> (r: String)
    ensures
        r@ == path@,
{
    String::from_str(path)
}

fn zone_action(zone: &str, action: &str) -> (r: String)
    ensures
        r@ == zone_path(zone@, action@),
{
    let mut r = String::from_str("/v1/");
    r.append(zone);
    r.append(action);
    r
}

fn joined(a: String, b: &str) -> (r: String)
    ensures
        r@ == a@ + b@,
{
    let mut a = a;
    a.append(b);
    a
}

/// The request for the device's identity and firmware details.
pub fn get_device_info(ip: &str) -> (r: Request)
    ensures
        r.view() == get_of(ip@, "/v1/system/getDeviceInfo"@),
{
    get(ip, fixed("/v1/system/getDeviceInfo"))
}

/// The request for the device's feature catalogue.
pub fn get_features(ip: &str) -> (r: Request)
    ensures
        r.view() == get_of(ip@, "/v1/system/getFeatures"@),
{
    get(ip, fixed("/v1/system/getFeatures"))
}

/// The request for what the network/USB source is playing.
pub fn net_usb_get_play_info(ip: &str) -> (r: Request)
    ensures
        r.view() == get_of(ip@, "/v1/netusb/getPlayInfo"@),
{
    get(ip, fixed("/v1/netusb/getPlayInfo"))
}

/// The request that steps the repeat mode.
pub fn net_usb_toggle_repeat(ip: &str) -> (r: Request)
    ensures
        r.view() == get_of(ip@, "/v1/netusb/toggleRepeat"@),
{
    get(ip, fixed("/v1/netusb/toggleRepeat"))
}

/// The request that steps the shuffle mode.
pub fn net_usb_toggle_shuffle(ip: &str) -> (r: Request)
    ensures
        r.view() == get_of(ip@, "/v1/netusb/toggleShuffle"@),
{
    get(ip, fixed("/v1/netusb/toggleShuffle"))
}

/// The request for a zone's status.
pub fn get_zone_status(ip: &str, zone: &str) -> (r: Request)
    ensures
        r.view() == get_of(ip@, zone_path(zone@, "/getStatus"@)),
{
    get(ip, zone_action(zone, "/getStatus"))
}

/// The request for a zone's sound programs.
pub fn get_zone_program_list(ip: &str, zone: &str) -> (r: Request)
    ensures
        r.view() == get_of(ip@, zone_path(zone@, "/getSoundProgramList"@)),
{
    get(ip, zone_action(zone, "/getSoundProgramList"))
}

/// The request for a zone's input signal details.
pub fn get_signal_info(ip: &str, zone: &str) -> (r: Request)
    ensures
        r.view() == get_of(ip@, zone_path(zone@, "/getSignalInfo"@)),
{
    get(ip, zone_action(zone, "/getSignalInfo"))
}

/// The request that toggles a zone's power.
pub fn toggle_zone_power(ip: &str, zone: &str) -> (r: Request)
    ensures
        r.view() == get_of(ip@, zone_path(zone@, "/setPower?power=toggle"@)),
{
    get(ip, zone_action(zone, "/setPower?power=toggle"))
}

/// The request that raises a zone's volume one step.
pub fn set_volume_up(ip: &str, zone: &str) -> (r: Request)
    ensures
        r.view() == get_of(ip@, zone_path(zone@, "/setVolume?volume=up"@)),
{
    get(ip, zone_action(zone, "/setVolume?volume=up"))
}

/// The request that lowers a zone's volume one step.
pub fn set_volume_down(ip: &str, zone: &str) -> (r: Request)
    ensures
        r.view() == get_of(ip@, zone_path(zone@, "/setVolume?volume=down"@)),
{
    get(ip, zone_action(zone, "/setVolume?volume=down"))
}

/// The request that sets a zone's sleep timer, in minutes.
pub fn set_sleep(ip: &str, zone: &str, time: u32) -> (r: Request)
    ensures
        r.view() == get_of(ip@, zone_path(zone@, "/setSleep?sleep="@) + decimal(time as nat)),
{
    get(ip, joined(zone_action(zone, "/setSleep?sleep="), decimal_string(time as u64).as_str()))
}

/// The request that mutes or unmutes a zone.
pub fn set_mute(ip: &str, zone: &str, mute: bool) -> (r: Request)
    ensures
        r.view() == get_of(ip@, zone_path(zone@, "/setMute?enable="@) + bool_text(mute)),
{
    get(ip, joined(zone_action(zone, "/setMute?enable="), bool_str(mute)))
}

/// The request that selects a zone's input.
pub fn set_input(ip: &str, zone: &str, input: &str) -> (r: Request)
    ensures
        r.view() == get_of(ip@, zone_path(zone@, "/setInput?input="@) + input@),
{
    get(ip, joined(zone_action(zone, "/setInput?input="), input))
}

/// The request that selects a zone's sound program.
pub fn set_sound_program(ip: &str, zone: &str, program: &str) -> (r: Request)
    ensures
        r.view() == get_of(ip@, zone_path(zone@, "/setSoundProgram?program="@) + program@),
{
    get(ip, joined(zone_action(zone, "/setSoundProgram?program="), program))
}

/// The request that switches a zone's 3D surround.
pub fn set_3d_surround(ip: &str, zone: &str, enable: bool) -> (r: Request)
    ensures
        r.view() == get_of(ip@, zone_path(zone@, "/set3dSurround?enable="@) + bool_text(enable)),
{
    get(ip, joined(zone_action(zone, "/set3dSurround?enable="), bool_str(enable)))
}

/// The request that switches a zone's direct mode.
pub fn set_direct(ip: &str, zone: &str, direct: bool) -> (r: Request)
    ensures
        r.view() == get_of(ip@, zone_path(zone@, "/setDirect?enable="@) + bool_text(direct)),
{
    get(ip, joined(zone_action(zone, "/setDirect?enable="), bool_str(direct)))
}

/// The request that switches a zone's pure direct mode.
pub fn set_pure_direct(ip: &str, zone: &str, direct: bool) -> (r: Request)
    ensures
        r.view() == get_of(ip@, zone_path(zone@, "/setPureDirect?enable="@) + bool_text(direct)),
{
    get(ip, joined(zone_action(zone, "/setPureDirect?enable="), bool_str(direct)))
}

/// The request that switches a zone's enhancer.
pub fn set_enhancer(ip: &str, zone: &str, enhancer: bool) -> (r: Request)
    ensures
        r.view() == get_of(ip@, zone_path(zone@, "/setEnhancer?enable="@) + bool_text(enhancer)),
{
    get(ip, joined(zone_action(zone, "/setEnhancer?enable="), bool_str(enhancer)))
}

/// The request that sets a zone's balance.
pub fn set_balance(ip: &str, zone: &str, balance: i32) -> (r: Request)
    ensures
        r.view() == get_of(ip@, zone_path(zone@, "/setBalance?value="@) + signed_decimal(balance as int)),
{
    get(ip, joined(zone_action(zone, "/setBalance?value="), signed_decimal_string(balance).as_str()))
}

/// The request that switches a zone's extra bass.
pub fn set_extra_bass(ip: &str, zone: &str, bass: bool) -> (r: Request)
    ensures
        r.view() == get_of(ip@, zone_path(zone@, "/setExtraBass?enable="@) + bool_text(bass)),
{
    get(ip, joined(zone_action(zone, "/setExtraBass?enable="), bool_str(bass)))
}

/// The request that sets a zone's subwoofer volume.
pub fn set_subwoofer_volume(ip: &str, zone: &str, volume: i32) -> (r: Request)
    ensures
        r.view() == get_of(ip@, zone_path(zone@, "/setSubwooferVolume?volume="@) + signed_decimal(volume as int)),
{
    get(ip, joined(zone_action(zone, "/setSubwooferVolume?volume="), signed_decimal_string(volume).as_str()))
}

/// The request that sets a zone's dialogue lift.
pub fn set_dialogue_lift(ip: &str, zone: &str, value: i32) -> (r: Request)
    ensures
        r.view() == get_of(ip@, zone_path(zone@, "/setDialogueLift?value="@) + signed_decimal(value as int)),
{
    get(ip, joined(zone_action(zone, "/setDialogueLift?value="), signed_decimal_string(value).as_str()))
}

/// The request that sets a zone's dialogue level.
pub fn set_dialogue_level(ip: &str, zone: &str, value: i32) -> (r: Request)
    ensures
        r.view() == get_of(ip@, zone_path(zone@, "/setDialogueLevel?value="@) + signed_decimal(value as int)),
{
    get(ip, joined(zone_action(zone, "/setDialogueLevel?value="), signed_decimal_string(value).as_str()))
}

/// The request that sets a zone's DTS dialogue control.
pub fn set_dts_dialogue_control(ip: &str, zone: &str, value: i32) -> (r: Request)
    ensures
        r.view() == get_of(ip@, zone_path(zone@, "/setDtsDialogueControl?value="@) + signed_decimal(value as int)),
{
    get(ip, joined(zone_action(zone, "/setDtsDialogueControl?value="), signed_decimal_string(value).as_str()))
}

/// The request that sets a zone's bass in manual tone mode.
pub fn set_tone_bass(ip: &str, zone: &str, bass: i32) -> (r: Request)
    ensures
        r.view() == get_of(ip@, zone_path(zone@, "/setToneControl?mode=manual&bass="@) + signed_decimal(bass as int)),
{
    get(ip, joined(zone_action(zone, "/setToneControl?mode=manual&bass="), signed_decimal_string(bass).as_str()))
}

/// The request that sets a zone's treble in manual tone mode.
pub fn set_tone_treble(ip: &str, zone: &str, treble: i32) -> (r: Request)
    ensures
        r.view() == get_of(ip@, zone_path(zone@, "/setToneControl?mode=manual&treble="@) + signed_decimal(treble as int)),
{
    get(ip, joined(zone_action(zone, "/setToneControl?mode=manual&treble="), signed_decimal_string(treble).as_str()))
}

/// The request that sends a playback command.
pub fn net_usb_set_playback(ip: &str, playback: Playback) -> (r: Request)
    ensures
        r.view() == get_of(ip@, "/v1/netusb/setPlayback?playback="@ + playback.name_spec()),
{
    get(ip, joined(fixed("/v1/netusb/setPlayback?playback="), playback.name()))
}

/// The request that sets the repeat mode.
pub fn net_usb_set_repeat(ip: &str, mode: Repeat) -> (r: Request)
    ensures
        r.view() == get_of(ip@, "/v1/netusb/setRepeat?mode="@ + mode.name_spec()),
{
    get(ip, joined(fixed("/v1/netusb/setRepeat?mode="), mode.name()))
}

/// The request that sets the shuffle mode.
pub fn net_usb_set_shuffle(ip: &str, mode: Shuffle) -> (r: Request)
    ensures
        r.view() == get_of(ip@, "/v1/netusb/setShuffle?mode="@ + mode.name_spec()),
{
    get(ip, joined(fixed("/v1/netusb/setShuffle?mode="), mode.name()))
}

/// The request for one page of a network/USB source's list: `size`
/// entries from `index` on, in language `lang`.
pub fn net_usb_get_list_info(ip: &str, input: &str, index: u32, size: u32, lang: &str) -> (r:
    Request)
    ensures
        r.view() == get_of(ip@, list_info_path(input@, index, size, lang@)),
{
    let mut p = fixed("/v1/netusb/getListInfo?input=");
    p.append(input);
    p.append("&index=");
    p.append(decimal_string(index as u64).as_str());
    p.append("&size=");
    p.append(decimal_string(size as u64).as_str());
    p.append("&lang=");
    p.append(lang);
    get(ip, p)
}

/// The request that acts on a list entry; the entry's index and the zone
/// to play in are added when given.
pub fn net_usb_set_list_control(
    ip: &str,
    list_id: &str,
    control_type: ListControl,
    index: Option<u32>,
    zone: Option<&str>,
) -> (r: Request)
    ensures
        r.view() == get_of(
            ip@,
            list_control_path(
                list_id@,
                control_type,
                index,
                match zone {
                    Some(z) => Some(z@),
                    None => None,
                },
            ),
        ),
{
    let mut p = fixed("/v1/netusb/setListControl?list_id=");
    p.append(list_id);
    p.append("&type=");
    p.append(control_type.name());
    let ghost base = p@;
    match index {
        Some(i) => {
            p.append("&index=");
            p.append(decimal_string(i as u64).as_str());
        },
        None => {},
    }
    assert(p@ =~= base + number_param("&index="@, index));
    let ghost with_index = p@;
    match zone {
        Some(z) => {
            p.append("&zone=");
            p.append(z);
        },
        None => {},
    }
    assert(p@ =~= with_index + text_param(
        "&zone="@,
        match zone {
            Some(z) => Some(z@),
            None => None,
        },
    ));
    get(ip, p)
}

/// The search request, from the list id and search text already written as
/// JSON string literals.
pub fn search_request(ip: &str, quoted_list_id: &str, quoted_text: &str, index: Option<u32>) -> (r:
    Request)
    ensures
        r.view() == (
            ip@,
            Method::Post,
            "/v1/netusb/setSearchString"@,
            Some(search_body(quoted_list_id@, quoted_text@, index)),
        ),
{
    let mut body = fixed("{\"list_id\":");
    body.append(quoted_list_id);
    body.append(",\"string\":");
    body.append(quoted_text);
    body.append(",\"index\":");
    let ghost before = body@;
    match index {
        Some(i) => body.append(decimal_string(i as u64).as_str()),
        None => body.append("null"),
    }
    assert(body@ =~= before + index_json(index));
    body.append("}");
    Request {
        host: String::from_str(ip),
        method: Method::Post,
        path: fixed("/v1/netusb/setSearchString"),
        body: Some(body),
    }
}

/// The request that searches a list of the network/USB source for
/// `search_text`; writing a string as JSON cannot fail, so this always
/// succeeds.
pub fn net_usb_set_search_string(ip: &str, list_id: &str, search_text: &str, index: Option<u32>) -> (r:
    Result<Request, ApiError>)
    ensures
        r is Ok,
        r matches Ok(q) ==> q.view() == (
            ip@,
            Method::Post,
            "/v1/netusb/setSearchString"@,
            Some(search_body(json_string(list_id@), json_string(search_text@), index)),
        ),
{
    let quoted_list_id = match json_quote(list_id) {
        Ok(q) => q,
        Err(e) => return Err(ApiError::InternalError(InternalError::DeserializationError(e))),
    };
    let quoted_text = match json_quote(search_text) {
        Ok(q) => q,
        Err(e) => return Err(ApiError::InternalError(InternalError::DeserializationError(e))),
    };
    Ok(search_request(ip, quoted_list_id.as_str(), quoted_text.as_str(), index))
}

/// The HTTP/1.1 text of `req`, asking the device to close the connection
/// after replying.
pub fn request_text(req: &Request) -> (r: String)
    ensures
        r@ == request_text_of(req.view()),
{
    let mut t = match req.method {
        Method::Get => fixed("GET"),
        Method::Post => fixed("POST"),
    };
    t.append(" /YamahaExtendedControl");
    t.append(req.path.as_str());
    t.append(" HTTP/1\x2e1\r\nHost: ");
    t.append(req.host.as_str());
    t.append("\r\nConnection: close\r\n");
    let ghost head = t@;
    match &req.body {
        Some(b) => {
            t.append("Content-Type: application/json\r\nContent-Length: ");
            let n = b.as_str().len();
            t.append(decimal_string(n as u64).as_str());
            t.append("\r\n\r\n");
            t.append(b.as_str());
        },
        None => {
            t.append("\r\n");
        },
    }
    assert(t@ =~= request_text_of(req.view()));
    t
}

/// The body of a reply text: what follows its first blank line, or nothing
/// when the headers never end.
pub fn reply_body(response: &str) -> (r: String)
    ensures
        r@ == reply_body_of(response@),
{
    let t = chars_of(response);
    let blank = vec!['\r', '\n', '\r', '\n'];
    assert(blank@ =~= seq!['\r', '\n', '\r', '\n']);
    match find(t.as_slice(), blank.as_slice(), 0) {
        Some(k) => {
            proof {
                crate::text::lemma_find_from(t@, blank@, 0);
            }
            let n = t.len();
            string_of(&t.as_slice()[k + 4..n])
        },
        None => String::new(),
    }
}

/// The status that a reply's numeric code stands for; codes beyond the
/// range of `u32` are unknown codes.
pub open spec fn status_for(c: u64) -> ResponseCode {
    if c > 0xFFFF_FFFF {
        ResponseCode::OtherErrors
    } else {
        response_code_for(c as u32)
    }
}

/// What a reply's status code means: success for 0, a device error for any
/// other code, and a decoding error when the reply carries none.
pub fn check_status(code: Option<u64>) -> (r: Result<(), ApiError>)
    ensures
        match code {
            None => r matches Err(ApiError::InternalError(InternalError::DeserializationError(_))),
            Some(c) => if c == 0 {
                r is Ok
            } else {
                r == Err::<(), ApiError>(ApiError::ResponseError(status_for(c)))
            },
        },
{
    match code {
        None => Err(
            ApiError::InternalError(InternalError::DeserializationError(json_error("Missing response_code"))),
        ),
        Some(c) => if c == 0 {
            Ok(())
        } else if c > 0xFFFF_FFFF {
            Err(ApiError::ResponseError(ResponseCode::OtherErrors))
        } else {
            Err(ApiError::ResponseError(ResponseCode::from(c as u32)))
        },
    }
}

/// The JSON document of a reply body, once its `response_code` says success:
/// a decoding error when the body does not parse or has no unsigned
/// `response_code`, a device error for a code other than 0.
pub fn parse_response(body: &str) -> (r: Result<serde_json::Value, ApiError>)
    ensures
        !json_accepts(body@) ==> r matches Err(
            ApiError::InternalError(InternalError::DeserializationError(_)),
        ),
        json_accepts(body@) ==> match json_u64_member(body@, "response_code"@) {
            None => r matches Err(ApiError::InternalError(InternalError::DeserializationError(_))),
            Some(c) => if c == 0 {
                r is Ok
            } else {
                r matches Err(ApiError::ResponseError(rc)) && rc == status_for(c)
            },
        },
{
    let v = match parse_json(body) {
        Ok(v) => v,
        Err(e) => return Err(ApiError::InternalError(InternalError::DeserializationError(e))),
    };
    let code = json_u64_field(body, "response_code");
    match check_status(code) {
        Ok(()) => Ok(v),
        Err(e) => Err(e),
    }
}

} // verus!
