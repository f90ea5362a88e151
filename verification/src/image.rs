//! The image channel of a Hikvision camera and its sub-resources.

use vstd::prelude::*;

use crate::daynight::{ImageIcrE, IrcutFilter};
use crate::dublicates;

verus! {

#[derive(Debug, Clone, PartialEq)]
pub struct Defog {
    pub enabled: bool,
}

/// The two-dimensional noise reduction.
#[derive(Debug, Clone, PartialEq)]
pub struct NoiseReduce2D {
    pub noise_reduce_2d_enable: bool,
    pub noise_reduce_2d_level: i32,
}

#[derive(Debug, Clone, Copy, PartialEq, Eq, Structural)]
pub enum FlipAngle {
    _90,
    _180,
    _270,
}

#[derive(Debug, Clone, Copy, PartialEq, Eq, Structural)]
pub enum ImageFlipStyle {
    LEFTRIGHT,
    UPDOWN,
    CENTER,
    AUTO,
}

#[derive(Debug, Clone, PartialEq)]
pub struct ImageFlip {
    pub enabled: bool,
    pub image_flip_style: Option<ImageFlipStyle>,
    pub flip_angle: Option<FlipAngle>,
}

#[derive(Debug, Clone, Copy, PartialEq, Eq, Structural)]
pub enum WDRMode {
    OPEN,
    CLOSE,
    AUTO,
}

#[derive(Debug, Clone, PartialEq)]
pub struct WDR {
    pub mode: WDRMode,
    pub wdr_level: Option<i32>,
    pub wdr_contrast_level: Option<i32>,
    pub wdr_level1: Option<i32>,
}

#[derive(Debug, Clone, Copy, PartialEq, Eq, Structural)]
pub enum BLCMode {
    UP,
    DOWN,
    LEFT,
    RIGHT,
    CENTER,
    MULTIAREA,
    Region,
    AUTO,
}

#[derive(Debug, Clone, PartialEq)]
pub struct RegionCoordinates {
    pub position_x: i32,
    pub position_y: i32,
}

#[derive(Debug, Clone, PartialEq)]
pub struct RegionCoordinatesList {
    pub region_coordinates: Vec<RegionCoordinates>,
}

#[derive(Debug, Clone, PartialEq)]
pub struct BLCRegion {
    pub id: i32,
    pub region_coordinates_list: Vec<RegionCoordinatesList>,
}

#[derive(Debug, Clone, PartialEq)]
pub struct BLCRegionList {
    pub blc_region: Option<Vec<BLCRegion>>,
}

#[derive(Debug, Clone, PartialEq)]
pub struct BLC {
    pub enabled: bool,
    pub blc_mode: Option<BLCMode>,
    pub blc_level: Option<i32>,
    pub blc_region_list: Option<BLCRegionList>,
}

/// The levels of a noise reduction in its advanced mode.
#[derive(Debug, Clone, PartialEq)]
pub struct AdvancedMode {
    pub frame_noise_reduce_level: i32,
    pub inter_frame_noise_reduce_level: i32,
}

/// The level of a noise reduction in its general mode.
#[derive(Debug, Clone, PartialEq)]
pub struct GeneralMode {
    pub general_level: i32,
}

/// The noise reduction of a viewing camera.
#[derive(Debug, Clone, PartialEq)]
pub struct NoiseReduce {
    pub mode: NoiseReduceMode,
    pub general_mode: Option<GeneralMode>,
    pub advanced_mode: Option<AdvancedMode>,
}

/// The ways in which the white balance can be found.
#[derive(Debug, Clone, Copy, PartialEq, Eq, Structural)]
pub enum WhiteBalanceStyle {
    AUTO,
    MANUAL,
    INDOOR,
    OUTDOOR,
    AUTOTRACE,
    ONECE,
    SODIUMLIGHT,
    MERCURYLIGHT,
    AUTO0,
    AUTO1,
    AUTO2,
    FLUORESCENT,
    NATURALLIGHT,
    WARM,
    INCANDESCENT,
}

/// How the white balance is found.
#[derive(Debug, Clone, PartialEq)]
pub struct WhiteBalance {
    pub white_balance_style: WhiteBalanceStyle,
    pub white_balance_level: Option<i32>,
    pub white_blance_red: Option<i32>,
    pub white_blance_blue: Option<i32>,
}

/// The ways in which the exposure can be controlled.
#[derive(Debug, Clone, Copy, PartialEq, Eq, Structural)]
pub enum ExposureType {
    AUTO,
    IRISFIRST,
    SHUTTERFIRST,
    GAINFIRST,
    MANUAL,
    PLRIS,
    T5280PQ1,
    T5289PQ1,
    T1140PQ1,
    T2712PQ1,
    HV1250PMPIR,
    PLRISGENERAL,
}

#[derive(Debug, Clone, Copy, PartialEq, Eq, Structural)]
pub enum OverexposeSuppressType {
    AUTO,
    MANUAL,
}

/// The suppression of overexposure by the infrared light.
#[derive(Debug, Clone, PartialEq)]
pub struct OverexposeSuppress {
    pub enabled: bool,
    pub ost: Option<OverexposeSuppressType>,
    pub distance_level: Option<i32>,
    pub short_ir_distance_level: Option<i32>,
    pub long_ir_distance_level: Option<i32>,
}

#[derive(Debug, Clone, PartialEq)]
pub struct Plris {
    pub plris_type: Option<OverexposeSuppressType>,
    pub iris_level: Option<i32>,
}

#[derive(Debug, Clone, PartialEq)]
pub struct PlrisGeneral {
    pub iris_level: Option<i32>,
}

#[derive(Debug, Clone, PartialEq)]
pub struct FaceExposure {
    pub enabled: Option<bool>,
    pub sensitivity: Option<i32>,
}

/// How the exposure is controlled.
#[derive(Debug, Clone, PartialEq)]
pub struct Exposure {
    pub exposure_type: ExposureType,
    pub auto_iris_level: Option<i32>,
    pub overexpose_suppress: Option<OverexposeSuppress>,
    pub plris: Option<Plris>,
    pub plris_general: Option<PlrisGeneral>,
    pub exposure_level: Option<i32>,
    pub face_exposure: Option<FaceExposure>,
}

/// The gamma correction.
#[derive(Debug, Clone, PartialEq)]
pub struct GammaCorrection {
    pub gamma_correction_enabled: bool,
    pub gamma_correction_level: i32,
}

/// The sharpness of the picture.
#[derive(Debug, Clone, PartialEq)]
pub struct Sharpness {
    pub sharpness_mode: Option<OverexposeSuppressType>,
    pub sharpness_level: i32,
}

#[derive(Debug, Clone, Copy, PartialEq, Eq, Structural)]
pub enum PowerLineFrequencyMode {
    _50HZ,
    _60HZ,
}

#[derive(Debug, Clone, PartialEq)]
pub struct PowerLineFrequency {
    pub power_line_frequency_mode: Option<PowerLineFrequencyMode>,
}

#[derive(Debug, Clone, Copy, PartialEq, Eq, Structural)]
pub enum ImageModeType {
    STANDARD,
    INDOOR,
    OUTDOOR,
    DIMLIGHT,
}

#[derive(Debug, Clone, PartialEq)]
pub struct Recommendation {
    pub brightness_level: Option<i32>,
    pub contrast_level: Option<i32>,
    pub sharpness_level: Option<i32>,
    pub saturation_level: Option<i32>,
    pub hue_level: Option<i32>,
    pub de_noise_level: Option<i32>,
}

#[derive(Debug, Clone, PartialEq)]
pub struct ImageMode {
    pub imt: ImageModeType,
    pub recommendation: Option<Recommendation>,
}

/// The enhancement of brightness.
#[derive(Debug, Clone, PartialEq)]
pub struct BrightEnhance {
    pub bright_enhance_level: i32,
}

#[derive(Debug, Clone, PartialEq)]
pub struct ImageModeList {
    pub image_mode: Vec<ImageMode>,
}

#[derive(Debug, Clone, PartialEq)]
pub struct TimeRange {
    pub begin_time: String,
    pub end_time: String,
}

#[derive(Debug, Clone, PartialEq)]
pub struct Schedule {
    pub schedule_type: ScheduleType,
    pub time_range: TimeRange,
}

#[derive(Debug, Clone, Copy, PartialEq, Eq, Structural)]
pub enum ScheduleType {
    DAY,
    NIGHT,
}

#[derive(Debug, Clone, Copy, PartialEq, Eq, Structural)]
pub enum ISPModeType {
    AUTO,
    SCHEDULE,
}

#[derive(Debug, Clone, PartialEq)]
pub struct ISPMode {
    pub mode: ISPModeType,
    pub schedule: Option<Schedule>,
}

/// The exposure time, as the camera writes it, and its limits.
#[derive(Debug, Clone, PartialEq)]
pub struct Shutter {
    pub shutter_level: String,
    pub max_shutter_level_limit: Option<String>,
    pub min_shutter_level_limit: Option<String>,
}

#[derive(Debug, Clone, PartialEq)]
pub struct PTZ {
    pub enabled: bool,
}

#[derive(Debug, Clone, PartialEq)]
pub struct FocusConfiguration {
    pub focus_style: Option<String>,
    pub focus_limited: Option<i32>,
}

#[derive(Debug, Clone, PartialEq)]
pub struct LensInitialization {
    pub enabled: bool,
}

#[derive(Debug, Clone, PartialEq)]
pub struct DSS {
    pub enabled: bool,
    pub dss_level: Option<String>,
}

#[derive(Debug, Clone, PartialEq)]
pub struct IrLight {
    pub mode: Option<String>,
}

#[derive(Debug, Clone, PartialEq)]
pub struct ZoomLimit {
    pub zoom_limit_ratio: Option<i32>,
}

#[derive(Debug, Clone, PartialEq)]
pub struct Iris {
    pub iris_level: Option<i32>,
    pub max_iris_level_limit: Option<i32>,
    pub min_iris_level_limit: Option<i32>,
}

#[derive(Debug, Clone, PartialEq)]
pub struct ImageFreeze {
    pub enabled: bool,
}

#[derive(Debug, Clone, PartialEq)]
pub struct Proportionalpan {
    pub enabled: bool,
}

#[derive(Debug, Clone, PartialEq)]
pub struct LaserLight {
    pub mode: Option<String>,
    pub brightness_level: Option<i32>,
    pub laserangle: Option<i32>,
}

#[derive(Debug, Clone, PartialEq)]
pub struct EIS {
    pub enabled: bool,
}

#[derive(Debug, Clone, Copy, PartialEq, Eq, Structural)]
pub enum ShutterLevel {
    _1,
    _2,
    _3,
    _6,
    _12,
    _25,
    _50,
    _75,
    _100,
    _120,
    _125,
    _150,
    _175,
    _215,
    _225,
    _300,
    _400,
    _425,
    _600,
    _1000,
    _1250,
    _1750,
    _2500,
    _3500,
    _6000,
    _10000,
}

#[derive(Debug, Clone, Copy, PartialEq, Eq, Structural)]
pub enum GrayScaleMode {
    INDOOR,
    OUTDOOR,
}

/// The range of gray values of the picture.
#[derive(Debug, Clone, PartialEq)]
pub struct GrayScale {
    pub gray_scale_mode: GrayScaleMode,
}

/// Brightness, contrast and saturation of the picture.
#[derive(Debug, Clone, PartialEq)]
pub struct Color {
    pub brightness_level: i32,
    pub contrast_level: i32,
    pub saturation_level: i32,
    pub hue_level: Option<i32>,
    pub gray_scale: Option<GrayScale>,
    pub night_mode: Option<bool>,
}

#[derive(Debug, Clone, PartialEq)]
pub struct GainWindow {
    pub region_coordinates_list: Option<RegionCoordinatesList>,
}

/// The gain of the sensor.
#[derive(Debug, Clone, PartialEq)]
pub struct Gain {
    pub gain_level: i32,
    pub gain_window: Option<GainWindow>,
}

#[derive(Debug, Clone, PartialEq)]
pub struct ImageMultishut {
    pub double_shut_enable: bool,
    pub codec_type: String,
}

#[derive(Debug, Clone, PartialEq)]
pub struct JPEGParam {
    pub jpeg_size: Option<i32>,
    pub merge_jpeg_size: Option<i32>,
    pub exif_information_enabled: Option<bool>,
}

#[derive(Debug, Clone, PartialEq)]
pub struct GrayRange {
    pub gray_value_type: String,
}

#[derive(Debug, Clone, PartialEq)]
pub struct SnapColor {
    pub brightness_level: i32,
    pub contrast_level: i32,
}

#[derive(Debug, Clone, PartialEq)]
pub struct SnapShutter {
    pub snap_shutter_level: i32,
}

#[derive(Debug, Clone, PartialEq)]
pub struct SnapWhiteBalance {
    pub white_balance_level: i32,
}

#[derive(Debug, Clone, PartialEq)]
pub struct SnapGain {
    pub snap_gain_level: i32,
    pub light_snap_gain_level: i32,
}

#[derive(Debug, Clone, PartialEq)]
pub struct CarWindowEnhancement {
    pub enabled: bool,
    pub brighten_level: i32,
    pub defog_level: i32,
}

#[derive(Debug, Clone, PartialEq)]
pub struct ITCImageSnap {
    pub snap_color: Option<SnapColor>,
    pub snap_shutter: Option<SnapShutter>,
    pub snap_gain: Option<SnapGain>,
    pub car_window_enhancement: Option<CarWindowEnhancement>,
    pub snap_white_balance: Option<SnapWhiteBalance>,
}

#[derive(Debug, Clone, PartialEq)]
pub struct AdvancedModeExt {
    pub spatial_level: i32,
    pub temporal_level: i32,
}

#[derive(Debug, Clone, PartialEq)]
pub struct RecordNoiseReduceExt {
    pub mode: NoiseReduceMode,
    pub general_mode: GeneralMode,
    pub advanced_mode: dublicates::AdvancedMode,
}

#[derive(Debug, Clone, PartialEq)]
pub struct RecordGain {
    pub gain_level: i32,
}

#[derive(Debug, Clone, PartialEq)]
pub struct RecordShutter {
    pub shutter_level: i32,
}

#[derive(Debug, Clone, PartialEq)]
pub struct RecordColor {
    pub brightness_level: i32,
    pub contrast_level: i32,
}

#[derive(Debug, Clone, PartialEq)]
pub struct ImageRecord {
    pub record_color: Option<RecordColor>,
    pub record_shutter: Option<RecordShutter>,
    pub record_gain: Option<RecordGain>,
    pub record_noise_reduce_ext: Option<RecordNoiseReduceExt>,
}

#[derive(Debug, Clone, Copy, PartialEq, Eq, Structural)]
pub enum DehazeMode {
    OPEN,
    CLOSE,
    AUTO,
}

#[derive(Debug, Clone, PartialEq)]
pub struct CaptureMode {
    pub mode: Option<String>,
}

/// The mode of a noise reduction.
#[derive(Debug, Clone, Copy, PartialEq, Eq, Structural)]
pub enum NoiseReduceMode {
    CLOSE,
    GENERAL,
    ADVANCED,
}

/// The noise reduction of a registering camera.
#[derive(Debug, Clone, PartialEq)]
pub struct NoiseReduceExt {
    pub mode: NoiseReduceMode,
    pub general_mode: GeneralMode,
    pub advanced_mode: dublicates::AdvancedMode,
}

#[derive(Debug, Clone, Copy, PartialEq, Eq, Structural)]
pub enum TempRangeMode {
    AUTOMATIC,
    MANUAL,
}

#[derive(Debug, Clone, PartialEq)]
pub struct TempRange {
    pub mode: Option<TempRangeMode>,
    pub temperature_upper_limit: Option<i32>,
    pub temperature_lower_limit: Option<i32>,
}

#[derive(Debug, Clone, PartialEq)]
pub struct Dehaze {
    pub dehaze_mode: Option<DehazeMode>,
    pub dehaze_level: Option<i32>,
}

/// The brightness compensation for licence plates.
#[derive(Debug, Clone, PartialEq)]
pub struct PlateBright {
    pub plate_bright_enabled: Option<bool>,
    pub plate_bright_sensitivity: Option<i32>,
    pub correct_factor_enabled: Option<bool>,
    pub correct_factor: Option<i32>,
}

/// The compensation of highlights.
#[derive(Debug, Clone, PartialEq)]
pub struct HLC {
    pub enabled: bool,
    pub hlc_level: i32,
}

/// The image channel of a camera: one sub-resource for each aspect of the
/// picture, of which a camera reports those that it has.
#[derive(Debug, Clone, PartialEq)]
pub struct ImageChannel {
    pub id: i32,
    pub enabled: bool,
    pub video_input_id: Option<i32>,
    pub defog: Option<Defog>,
    pub noise_reduce_2d: Option<NoiseReduce2D>,
    pub focus_configuration: Option<FocusConfiguration>,
    pub lens_initialization: Option<LensInitialization>,
    pub image_flip: Option<ImageFlip>,
    pub image_freeze: Option<ImageFreeze>,
    pub wdr: Option<WDR>,
    pub blc: Option<BLC>,
    pub noise_reduce: Option<NoiseReduce>,
    pub image_enhancement: Option<String>,
    pub dss: Option<DSS>,
    pub white_balance: Option<WhiteBalance>,
    pub exposure: Option<Exposure>,
    pub sharpness: Option<Sharpness>,
    pub gamma_correction: Option<GammaCorrection>,
    pub power_line_frequency: Option<PowerLineFrequency>,
    pub color: Option<Color>,
    pub ircut_filter: Option<IrcutFilter>,
    pub image_mode_list: Option<ImageModeList>,
    pub bright_enhance: Option<BrightEnhance>,
    pub isp_mode: Option<ISPMode>,
    pub shutter: Option<Shutter>,
    pub gain: Option<Gain>,
    pub image_icr_e: Option<ImageIcrE>,
    pub image_multi_shut: Option<ImageMultishut>,
    pub plate_bright: Option<PlateBright>,
    pub jpeg_param: Option<JPEGParam>,
    pub dark_enhance: Option<String>,
    pub hdr: Option<String>,
    pub lse: Option<String>,
    pub mce: Option<String>,
    pub svce: Option<String>,
    pub section_ctrl: Option<String>,
    pub auto_contrast: Option<String>,
    pub gray_range: Option<GrayRange>,
    pub lse_detail: Option<String>,
    pub itc_image_snap: Option<ITCImageSnap>,
    pub image_record: Option<ImageRecord>,
    pub scene: Option<Scene>,
    pub eptz: Option<String>,
    pub eis: Option<EIS>,
    pub hlc: Option<HLC>,
    pub zoom_limit: Option<ZoomLimit>,
    pub corridor: Option<String>,
    pub dehaze: Option<Dehaze>,
    pub image_mode: Option<ImageModeType>,
    pub enable_image_loss_detection: Option<bool>,
    pub capture_mode: Option<CaptureMode>,
    pub ir_light: Option<IrLight>,
    pub lens_distortion_correction: Option<String>,
    pub exposure_sync: Option<String>,
    pub brightness_sudden_change_suppression: Option<String>,
    pub temp_range: Option<TempRange>,
    pub noise_reduce_ext: Option<NoiseReduceExt>,
    pub ptz: Option<PTZ>,
    pub iris: Option<Iris>,
    pub proportionalpan: Option<Proportionalpan>,
}

#[derive(Debug, Clone, PartialEq)]
pub struct Scene {
    pub mode: Option<String>,
}

} // verus!
