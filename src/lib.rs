//! Discovery of networked audio receivers on the local network, and the
//! request layer of their control interface.
//!
//! [`discover`] holds the decisions of a discovery run, [`parse`] the
//! tolerant scanning of responses, [`api`] the control requests and the
//! status envelope of their replies.
pub mod api;
pub mod discover;
pub mod enums;
pub mod error;
pub mod parse;
pub mod structs;
pub mod text;

pub use crate::api::{
    Method, Request, check_status, get_device_info, get_features, get_signal_info,
    get_zone_program_list, get_zone_status, net_usb_get_list_info, net_usb_get_play_info,
    net_usb_set_list_control, net_usb_set_playback, net_usb_set_repeat,
    net_usb_set_search_string, net_usb_set_shuffle, net_usb_toggle_repeat,
    net_usb_toggle_shuffle, parse_response, reply_body, request_text, search_request,
    set_3d_surround, set_balance, set_dialogue_level, set_dialogue_lift, set_direct,
    set_dts_dialogue_control, set_enhancer, set_extra_bass, set_input, set_mute,
    set_pure_direct, set_sleep, set_sound_program, set_subwoofer_volume, set_tone_bass,
    set_tone_treble, set_volume_down, set_volume_up, toggle_zone_power,
};
pub use crate::discover::{
    BindingStrategy, Candidate, DescriptionRequest, DeviceDescription, IpAddress, NetInterface,
    Probe, Resolution, YamahaDevice, bindings, description_request, discovery_query,
    discovery_target, merge_candidates, parse_description, response_body, select_devices,
};
pub use crate::enums::{ListControl, Playback, Repeat, Shuffle};
pub use crate::error::{ApiError, InternalError, ResponseCode};
pub use crate::parse::{extract_header, extract_host_port, extract_path, extract_xml};
pub use crate::structs::{
    AnalyticsInfo, AudioSignal, Ccs, McRole, NetUsb, NetUsbMcPlaylist, NetUsbPlayInfo,
    NetUsbPreset, NetUsbQobuz, NetUsbQueue, NetUsbRecentInfo, NetUsbTidal, SignalInfo,
    SonosZone, System, SystemBluetooth, SystemInput, ToneControl, Tuner, TunerPreset,
    TunerRangeStep, WorksWithSonos, ZoneProgramList,
};
