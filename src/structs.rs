//! Data that control replies carry.
use vstd::prelude::*;

verus! {

/// Analytics identity of a device.
#[derive(Clone, Debug, Default)]
pub struct AnalyticsInfo {
    pub uuid: String,
}

/// A zone's tone settings.
#[derive(Clone, Debug, Default)]
pub struct ToneControl {
    pub mode: String,
    pub bass: u32,
    pub treble: u32,
}

/// The sound programs a zone offers.
#[derive(Clone, Debug, Default)]
pub struct ZoneProgramList {
    pub sound_program_list: Vec<String>,
}

/// The signal a zone receives.
#[derive(Clone, Debug, Default)]
pub struct SignalInfo {
    pub audio: AudioSignal,
}

/// The audio part of a zone's input signal.
#[derive(Clone, Debug, Default)]
pub struct AudioSignal {
    pub error: u32,
    pub format: String,
    pub fs: String,
    pub bitrate: u32,
    pub bit: String,
}

/// System-wide features.
#[derive(Clone, Debug, Default)]
pub struct System {
    pub func_list: Vec<String>,
    pub zone_num: i32,
    pub input_list: Vec<SystemInput>,
    pub bluetooth: Option<SystemBluetooth>,
    pub web_control_url: Option<String>,
    pub party_volume_list: Option<Vec<String>>,
    pub hdmi_standby_through_list: Option<Vec<String>>,
    pub works_with_sonos: Option<WorksWithSonos>,
}

/// One input of the system and what it allows.
#[derive(Clone, Debug, Default)]
pub struct SystemInput {
    pub id: String,
    pub distribution_enable: bool,
    pub rename_enable: bool,
    pub account_enable: bool,
    pub play_info_type: String,
}

/// Bluetooth features.
#[derive(Clone, Debug, Default)]
pub struct SystemBluetooth {
    pub update_cancelable: bool,
    pub tx_connectivity_type_max: Option<i32>,
}

/// Sonos integration features.
#[derive(Clone, Debug, Default)]
pub struct WorksWithSonos {
    pub zone: Vec<SonosZone>,
}

/// A zone usable from Sonos and its inputs.
#[derive(Clone, Debug, Default)]
pub struct SonosZone {
    pub id: String,
    pub input_list: Vec<String>,
}

/// Tuner features.
#[derive(Clone, Debug, Default)]
pub struct Tuner {
    pub func_list: Vec<String>,
    pub range_step: Vec<TunerRangeStep>,
    pub preset: TunerPreset,
}

/// The range and step of one tuner band.
#[derive(Clone, Debug, Default)]
pub struct TunerRangeStep {
    pub id: String,
    pub min: i32,
    pub max: i32,
    pub step: i32,
}

/// Tuner preset features.
#[derive(Clone, Debug, Default)]
pub struct TunerPreset {
    pub preset_type: String,
    pub num: i32,
}

/// Network/USB source features.
#[derive(Clone, Debug, Default)]
pub struct NetUsb {
    pub func_list: Vec<String>,
    pub preset: NetUsbPreset,
    pub recent_info: NetUsbRecentInfo,
    pub play_queue: NetUsbQueue,
    pub mc_playlist: NetUsbMcPlaylist,
    pub net_radio_type: String,
    pub tidal: Option<NetUsbTidal>,
    pub qobuz: Option<NetUsbQobuz>,
}

/// Network/USB presets.
#[derive(Clone, Debug, Default)]
pub struct NetUsbPreset {
    pub num: i32,
}

/// Network/USB recent items.
#[derive(Clone, Debug, Default)]
pub struct NetUsbRecentInfo {
    pub num: i32,
}

/// Network/USB play queue.
#[derive(Clone, Debug, Default)]
pub struct NetUsbQueue {
    pub size: i32,
}

/// MusicCast playlists.
#[derive(Clone, Debug, Default)]
pub struct NetUsbMcPlaylist {
    pub size: i32,
    pub num: i32,
}

/// Tidal login mode.
#[derive(Clone, Debug, Default)]
pub struct NetUsbTidal {
    pub mode: String,
}

/// Qobuz login type.
#[derive(Clone, Debug, Default)]
pub struct NetUsbQobuz {
    pub login_type: String,
}

/// Pairings a MusicCast surround role supports.
#[derive(Clone, Debug, Default)]
pub struct McRole {
    pub surround_pair: Option<bool>,
    pub stereo_pair: Option<bool>,
    pub subwoofer_pair: Option<bool>,
    pub surround_pair_l_or_r: Option<bool>,
    pub surround_pair_lr: Option<bool>,
}

/// Whether the device supports CCS.
#[derive(Clone, Debug, Default)]
pub struct Ccs {
    pub supported: bool,
}

/// What the network/USB source is playing.
#[derive(Clone, Debug, Default)]
pub struct NetUsbPlayInfo {
    pub input: String,
    pub play_queue_type: Option<String>,
    pub playback: String,
    pub repeat: String,
    pub shuffle: String,
    pub repeat_available: Option<Vec<String>>,
    pub shuffle_available: Option<Vec<String>>,
    pub play_time: i32,
    pub total_time: i32,
    pub artist: String,
    pub album: String,
    pub track: String,
    pub albumart_url: String,
    pub albumart_id: i32,
    pub usb_devicetype: String,
    pub auto_stopped: Option<bool>,
    pub attribute: u32,
}

} // verus!
