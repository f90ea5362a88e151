//! Facts about a Hikvision device: firmware, pan and tilt, clock, lens.

use vstd::prelude::*;

use crate::dublicates;

verus! {

/// The firmware versions that are told apart.
#[derive(Debug, Clone, Copy, PartialEq, Eq, Structural)]
pub enum FirmwareVerison {
    V573,
    V502,
    V514,
    V55820,
    V55800,
}

/// The facts that a device reports of itself.
#[derive(Debug, PartialEq, Clone)]
pub struct DeviceInfo {
    pub device_name: String,
    pub device_id: String,
    pub device_description: String,
    pub device_location: String,
    pub system_contact: String,
    pub model: String,
    pub serial_number: String,
    pub mac_address: String,
    pub firmware_verison: FirmwareVerison,
    pub firmware_released_date: String,
    pub i_beacon_version: String,
    pub encoder_version: String,
    pub encoder_released_date: String,
    pub boot_version: String,
    pub boot_released_date: String,
    pub hardware_version: String,
    pub device_type: String,
    pub telecontrol_id: String,
    pub support_beep: String,
    pub support_video_loss: String,
    pub sub_channel_enabled: bool,
    pub thr_channel_enabled: bool,
    pub fourth_channel_enabled: bool,
    pub fifth_channel_enabled: bool,
    pub transparent_enabled: String,
    pub customized_info: String,
}

#[derive(Debug, Clone, PartialEq)]
pub struct ControlAddress {
    pub enabled: bool,
    pub address: Option<String>,
}

#[derive(Debug, Clone, PartialEq)]
pub struct PTZRs485Para {
    pub baud_rate: i32,
    pub data_bits: i32,
    pub parity_type: String,
    pub stop_bits: i32,
    pub flow_ctrl: String,
}

/// The channel by which a camera pans and tilts.
#[derive(Debug, Clone, PartialEq)]
pub struct PTZChannel {
    pub id: bool,
    pub enabled: bool,
    pub serial_number: Option<i32>,
    pub video_input_id: i32,
    pub pax_max_speed: Option<i32>,
    pub tilt_max_speed: Option<i32>,
    pub preset_speed: Option<i32>,
    pub auto_patrol_speed: Option<i32>,
    pub key_board_control_speed: Option<String>,
    pub control_protocol: Option<String>,
    pub control_address: Option<ControlAddress>,
    pub default_preset_id: Option<String>,
    pub ptz_rs_485_para: Option<PTZRs485Para>,
    pub manual_control_speed: Option<String>,
}

/// The speed at which the focus is driven; 0 stops it.
#[derive(Debug, Clone, Copy, PartialEq, Eq, Structural)]
pub struct FocusData {
    pub focus: i32,
}

/// The clock settings of a camera.
#[derive(Debug, PartialEq, Clone)]
pub struct Time {
    pub time_mode: dublicates::TimeMode,
    pub local_time: String,
    pub time_zone: String,
    pub satellite_interval: Option<i32>,
    pub platform_no: Option<i32>,
}

#[derive(Debug, Clone, Copy, PartialEq, Eq, Structural)]
pub enum AddresingFormatType {
    IPADDRESS,
    HOSTNAME,
}

/// A time server that a camera asks for the time.
#[derive(Debug, PartialEq, Clone)]
pub struct NTPServer {
    pub id: i32,
    pub addresing_format_type: AddresingFormatType,
    pub host_name: Option<String>,
    pub ip_address: Option<String>,
    pub ip6_address: Option<String>,
    pub port_no: Option<i32>,
    pub synchronize_interval: Option<i32>,
}

impl Default for FirmwareVerison {
    /// The firmware that a camera is taken to run while its own is not
    /// known.
    fn default() -> (version: Self)
        ensures
            version == FirmwareVerison::V502,
    {
        FirmwareVerison::V502
    }
}

impl FirmwareVerison {
    /// Whether a camera with this firmware switches its projectors by the
    /// projector lines alone. Every firmware does but V5.1.4.
    pub open spec fn spec_default_switch(self) -> bool {
        self != FirmwareVerison::V514
    }

    pub fn default_switch(self) -> (by_lines: bool)
        ensures
            by_lines == self.spec_default_switch(),
    {
        match self {
            FirmwareVerison::V514 => false,
            _ => true,
        }
    }
}

impl DeviceInfo {
    /// The facts of a device of which nothing is known: no text, no
    /// further channel, and the firmware that is taken for granted.
    pub open spec fn is_blank(&self) -> bool {
        &&& self.device_name@.len() == 0
        &&& self.device_id@.len() == 0
        &&& self.device_description@.len() == 0
        &&& self.device_location@.len() == 0
        &&& self.system_contact@.len() == 0
        &&& self.model@.len() == 0
        &&& self.serial_number@.len() == 0
        &&& self.mac_address@.len() == 0
        &&& self.firmware_verison == FirmwareVerison::V502
        &&& self.firmware_released_date@.len() == 0
        &&& self.i_beacon_version@.len() == 0
        &&& self.encoder_version@.len() == 0
        &&& self.encoder_released_date@.len() == 0
        &&& self.boot_version@.len() == 0
        &&& self.boot_released_date@.len() == 0
        &&& self.hardware_version@.len() == 0
        &&& self.device_type@.len() == 0
        &&& self.telecontrol_id@.len() == 0
        &&& self.support_beep@.len() == 0
        &&& self.support_video_loss@.len() == 0
        &&& !self.sub_channel_enabled
        &&& !self.thr_channel_enabled
        &&& !self.fourth_channel_enabled
        &&& !self.fifth_channel_enabled
        &&& self.transparent_enabled@.len() == 0
        &&& self.customized_info@.len() == 0
    }
}

impl Default for DeviceInfo {
    fn default() -> (info: Self)
        ensures
            info.is_blank(),
    {
        DeviceInfo {
            device_name: String::new(),
            device_id: String::new(),
            device_description: String::new(),
            device_location: String::new(),
            system_contact: String::new(),
            model: String::new(),
            serial_number: String::new(),
            mac_address: String::new(),
            firmware_verison: FirmwareVerison::V502,
            firmware_released_date: String::new(),
            i_beacon_version: String::new(),
            encoder_version: String::new(),
            encoder_released_date: String::new(),
            boot_version: String::new(),
            boot_released_date: String::new(),
            hardware_version: String::new(),
            device_type: String::new(),
            telecontrol_id: String::new(),
            support_beep: String::new(),
            support_video_loss: String::new(),
            sub_channel_enabled: false,
            thr_channel_enabled: false,
            fourth_channel_enabled: false,
            fifth_channel_enabled: false,
            transparent_enabled: String::new(),
            customized_info: String::new(),
        }
    }
}

} // verus!
