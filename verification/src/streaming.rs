//! The streaming channel of a Hikvision camera.

use vstd::prelude::*;

use crate::domain::FpsValue;

verus! {

#[derive(Debug, Clone, Copy, PartialEq, Eq, Structural)]
pub enum VideoEncoding {
    H264,
    H265,
}

#[derive(Debug, Clone, Copy, PartialEq, Eq, Structural)]
pub enum VideoScanType {
    INTERLACED,
    PROGRESSIVE,
}

#[derive(Debug, Clone, Copy, PartialEq, Eq, Structural)]
pub enum VideoCodeType {
    MJPEG,
    MPEG4,
}

#[derive(Debug, Clone, Copy, PartialEq, Eq, Structural)]
pub enum VideoQualityControlType {
    CBR,
    VBR,
}

#[derive(Debug, Clone, Copy, PartialEq, Eq, Structural)]
pub enum SVCMode {
    CLOSE,
    MANUAL,
    AUTO,
}

/// Scalable video coding.
#[derive(Debug, PartialEq, Clone)]
pub struct SVC {
    pub enabled: Option<bool>,
    pub svc_mode: Option<SVCMode>,
}

#[derive(Debug, Clone, Copy, PartialEq, Eq, Structural)]
pub enum SVACProfile {
    Baseline,
    Main,
    High,
    Extended,
}

#[derive(Debug, Clone, Copy, PartialEq, Eq, Structural)]
pub enum H264Profile {
    Baseline,
    Main,
    High,
    Extended,
}

/// The video settings of a streaming channel. The frame rate is held in
/// hundredths of a frame per second.
#[derive(Debug, PartialEq, Clone)]
pub struct Video {
    pub enabled: bool,
    pub video_input_channel_id: u8,
    pub video_scan_type: Option<VideoScanType>,
    pub video_codec_type: VideoEncoding,
    pub video_resolution_width: i32,
    pub video_resolution_height: i32,
    pub video_position_x: Option<i32>,
    pub video_position_y: Option<i32>,
    pub video_quality_control_type: Option<String>,
    pub constant_bit_rate: Option<i32>,
    pub key_frame_interval: Option<i32>,
    pub mirror_enabled: Option<bool>,
    pub rotation_degree: Option<i32>,
    pub snap_shot_image_type: Option<String>,
    pub fixed_quality: i32,
    pub vbr_upper_cap: Option<i32>,
    pub max_frame_rate: FpsValue,
    pub svc: Option<SVC>,
    pub h264_profile: Option<H264Profile>,
    pub svac_profile: Option<SVACProfile>,
    pub gov_length: Option<u32>,
    pub smoothing: Option<u32>,
    pub smart_codec: Option<SmartCodec>,
}

/// The codec that adapts to the scene.
#[derive(Debug, Clone, PartialEq)]
pub struct SmartCodec {
    pub enabled: bool,
}

#[derive(Debug, Clone, Copy, PartialEq, Eq, Structural)]
pub enum RtpTransportType {
    UDP,
    TCP,
}

#[derive(Debug, Clone)]
pub struct Unicast {
    pub enabled: bool,
    pub interface_id: Option<String>,
    pub rtp_transport_type: Option<RtpTransportType>,
}

#[derive(Debug, Clone)]
pub struct Multicast {
    pub enabled: bool,
    pub dest_ip_address: Option<String>,
    pub video_dest_port_no: Option<i32>,
}

#[derive(Debug, Clone, Copy, PartialEq, Eq, Structural)]
pub enum CertificateType {
    DIGEST,
    BASIC,
}

#[derive(Debug, Clone)]
pub struct Security {
    pub enabled: bool,
    pub certificate_type: Option<CertificateType>,
}

#[derive(Debug, Clone, Copy, PartialEq, Eq, Structural)]
pub enum StreaminTransport {
    RTSP,
    RTP,
    HTTP,
}

#[derive(Debug, Clone)]
pub struct ControlProtocol {
    pub streaming_transport: Vec<StreaminTransport>,
}

#[derive(Debug, Clone)]
pub struct ControlProtocolList {
    pub control_protocol: Option<Vec<ControlProtocol>>,
}

/// How a stream is transported.
#[derive(Debug, Clone)]
pub struct Transport {
    pub rtsp_port_no: u32,
    pub max_packet_size: u32,
    pub control_protocol_list: Option<ControlProtocolList>,
    pub unicast: Option<Unicast>,
    pub multicast: Option<Multicast>,
    pub security: Option<Security>,
}

/// A streaming channel of a camera.
#[derive(Debug, Clone)]
pub struct StreamingChannel {
    pub id: u32,
    pub channel_name: String,
    pub enabled: bool,
    pub video: Video,
}

} // verus!
