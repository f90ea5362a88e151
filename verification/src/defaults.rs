//! The settings recommended for a Hikvision camera, by the role it plays.
//!
//! The recommended values are fixed; they replace what the camera reports
//! in the sub-resources that it has, and leave the rest as reported.

use vstd::prelude::*;
use vstd::string::StringExecFns;

use crate::domain::CameraRole;
use crate::image::{
    BrightEnhance, Color, Exposure, ExposureType, Gain, GammaCorrection, GeneralMode, GrayScale,
    GrayScaleMode, ImageChannel, NoiseReduce, NoiseReduce2D, NoiseReduceExt, NoiseReduceMode,
    OverexposeSuppress, PlateBright, Sharpness, Shutter, WhiteBalance, WhiteBalanceStyle, HLC,
};
use crate::streaming::{H264Profile, SVCMode, SmartCodec, StreamingChannel, Video, SVC};

verus! {

/// The shutter level of a camera that registers passages.
pub open spec fn register_shutter_level() -> Seq<char> {
    "2000"@
}

/// The shutter level of a camera that views a scene.
pub open spec fn view_shutter_level() -> Seq<char> {
    "1/500"@
}

/// `after` is `before` with its level replaced by `level`; an absent shutter
/// stays absent.
pub open spec fn shutter_set(before: Option<Shutter>, after: Option<Shutter>, level: Seq<char>) -> bool {
    match before {
        Some(b) => after matches Some(a) && a.shutter_level@ == level && a.max_shutter_level_limit
            == b.max_shutter_level_limit && a.min_shutter_level_limit == b.min_shutter_level_limit,
        None => after is None,
    }
}

pub open spec fn register_color(color: Option<Color>) -> Option<Color> {
    match color {
        Some(c) => Some(
            Color {
                saturation_level: 50,
                night_mode: Some(true),
                brightness_level: 75,
                contrast_level: 18,
                ..c
            },
        ),
        None => None,
    }
}

pub open spec fn view_color(color: Option<Color>) -> Option<Color> {
    match color {
        Some(c) => Some(
            Color {
                brightness_level: 62,
                saturation_level: 50,
                contrast_level: 44,
                gray_scale: Some(GrayScale { gray_scale_mode: GrayScaleMode::OUTDOOR }),
                ..c
            },
        ),
        None => None,
    }
}

pub open spec fn sharpness_at(sharpness: Option<Sharpness>, level: i32) -> Option<Sharpness> {
    match sharpness {
        Some(s) => Some(Sharpness { sharpness_level: level, ..s }),
        None => None,
    }
}

pub open spec fn gain_at(gain: Option<Gain>, level: i32) -> Option<Gain> {
    match gain {
        Some(g) => Some(Gain { gain_level: level, ..g }),
        None => None,
    }
}

pub open spec fn register_white_balance(balance: Option<WhiteBalance>) -> Option<WhiteBalance> {
    match balance {
        Some(w) => Some(WhiteBalance { white_balance_style: WhiteBalanceStyle::AUTO1, ..w }),
        None => None,
    }
}

pub open spec fn register_bright_enhance(enhance: Option<BrightEnhance>) -> Option<BrightEnhance> {
    match enhance {
        Some(_) => Some(BrightEnhance { bright_enhance_level: 70 }),
        None => None,
    }
}

pub open spec fn register_plate_bright(plate: Option<PlateBright>) -> Option<PlateBright> {
    match plate {
        Some(p) => Some(
            PlateBright {
                plate_bright_enabled: Some(true),
                plate_bright_sensitivity: Some(5),
                ..p
            },
        ),
        None => None,
    }
}

pub open spec fn register_gamma(gamma: Option<GammaCorrection>) -> Option<GammaCorrection> {
    match gamma {
        Some(_) => Some(
            GammaCorrection { gamma_correction_enabled: true, gamma_correction_level: 30 },
        ),
        None => None,
    }
}

pub open spec fn register_noise_2d(noise: Option<NoiseReduce2D>) -> Option<NoiseReduce2D> {
    match noise {
        Some(_) => Some(NoiseReduce2D { noise_reduce_2d_enable: true, noise_reduce_2d_level: 55 }),
        None => None,
    }
}

pub open spec fn register_noise_ext(noise: Option<NoiseReduceExt>) -> Option<NoiseReduceExt> {
    match noise {
        Some(n) => Some(
            NoiseReduceExt {
                mode: NoiseReduceMode::GENERAL,
                general_mode: GeneralMode { general_level: 100 },
                ..n
            },
        ),
        None => None,
    }
}

pub open spec fn view_exposure(exposure: Option<Exposure>) -> Option<Exposure> {
    match exposure {
        Some(e) => Some(
            Exposure {
                exposure_type: ExposureType::AUTO,
                auto_iris_level: Some(100),
                overexpose_suppress: Some(
                    OverexposeSuppress {
                        enabled: false,
                        ost: None,
                        distance_level: None,
                        short_ir_distance_level: None,
                        long_ir_distance_level: None,
                    },
                ),
                ..e
            },
        ),
        None => None,
    }
}

pub open spec fn view_hlc(hlc: Option<HLC>) -> Option<HLC> {
    match hlc {
        Some(_) => Some(HLC { enabled: true, hlc_level: 50 }),
        None => None,
    }
}

pub open spec fn view_noise(noise: Option<NoiseReduce>) -> Option<NoiseReduce> {
    match noise {
        Some(n) => Some(
            NoiseReduce {
                mode: NoiseReduceMode::GENERAL,
                general_mode: Some(GeneralMode { general_level: 51 }),
                ..n
            },
        ),
        None => None,
    }
}

/// `after` is `before` with the values recommended for `role` in each
/// sub-resource that `before` has.
pub open spec fn recommended_image(role: CameraRole, before: ImageChannel, after: ImageChannel) -> bool {
    match role {
        CameraRole::Register => {
            &&& shutter_set(before.shutter, after.shutter, register_shutter_level())
            &&& after == ImageChannel {
                color: register_color(before.color),
                sharpness: sharpness_at(before.sharpness, 60),
                white_balance: register_white_balance(before.white_balance),
                bright_enhance: register_bright_enhance(before.bright_enhance),
                plate_bright: register_plate_bright(before.plate_bright),
                gamma_correction: register_gamma(before.gamma_correction),
                shutter: after.shutter,
                gain: gain_at(before.gain, 30),
                noise_reduce_2d: register_noise_2d(before.noise_reduce_2d),
                noise_reduce_ext: register_noise_ext(before.noise_reduce_ext),
                ..before
            }
        },
        CameraRole::View => {
            &&& shutter_set(before.shutter, after.shutter, view_shutter_level())
            &&& after == ImageChannel {
                color: view_color(before.color),
                sharpness: sharpness_at(before.sharpness, 50),
                exposure: view_exposure(before.exposure),
                shutter: after.shutter,
                gain: gain_at(before.gain, 65),
                hlc: view_hlc(before.hlc),
                noise_reduce: view_noise(before.noise_reduce),
                ..before
            }
        },
        CameraRole::Other => after == before,
    }
}

fn shutter_with_level(shutter: Option<Shutter>, level: &str) -> (tuned: Option<Shutter>)
    ensures
        shutter_set(shutter, tuned, level@),
{
    match shutter {
        Some(s) => Some(
            Shutter {
                shutter_level: String::from_str(level),
                max_shutter_level_limit: s.max_shutter_level_limit,
                min_shutter_level_limit: s.min_shutter_level_limit,
            },
        ),
        None => None,
    }
}

fn sharpness_with_level(sharpness: Option<Sharpness>, level: i32) -> (tuned: Option<Sharpness>)
    ensures
        tuned == sharpness_at(sharpness, level),
{
    match sharpness {
        Some(s) => Some(Sharpness { sharpness_mode: s.sharpness_mode, sharpness_level: level }),
        None => None,
    }
}

fn gain_with_level(gain: Option<Gain>, level: i32) -> (tuned: Option<Gain>)
    ensures
        tuned == gain_at(gain, level),
{
    match gain {
        Some(g) => Some(Gain { gain_level: level, gain_window: g.gain_window }),
        None => None,
    }
}

/// The image channel `channel` with the values recommended for `role`.
pub fn recommend_image(role: CameraRole, channel: ImageChannel) -> (tuned: ImageChannel)
    ensures
        recommended_image(role, channel, tuned),
{
    let mut ic = channel;
    match role {
        CameraRole::Register => {
            ic.color = match ic.color {
                Some(c) => Some(
                    Color {
                        brightness_level: 75,
                        contrast_level: 18,
                        saturation_level: 50,
                        hue_level: c.hue_level,
                        gray_scale: c.gray_scale,
                        night_mode: Some(true),
                    },
                ),
                None => None,
            };
            ic.sharpness = sharpness_with_level(ic.sharpness, 60);
            ic.white_balance = match ic.white_balance {
                Some(w) => Some(
                    WhiteBalance {
                        white_balance_style: WhiteBalanceStyle::AUTO1,
                        white_balance_level: w.white_balance_level,
                        white_blance_red: w.white_blance_red,
                        white_blance_blue: w.white_blance_blue,
                    },
                ),
                None => None,
            };
            ic.bright_enhance = match ic.bright_enhance {
                Some(_) => Some(BrightEnhance { bright_enhance_level: 70 }),
                None => None,
            };
            ic.plate_bright = match ic.plate_bright {
                Some(p) => Some(
                    PlateBright {
                        plate_bright_enabled: Some(true),
                        plate_bright_sensitivity: Some(5),
                        correct_factor_enabled: p.correct_factor_enabled,
                        correct_factor: p.correct_factor,
                    },
                ),
                None => None,
            };
            ic.gamma_correction = match ic.gamma_correction {
                Some(_) => Some(
                    GammaCorrection { gamma_correction_enabled: true, gamma_correction_level: 30 },
                ),
                None => None,
            };
            ic.shutter = shutter_with_level(ic.shutter, "2000");
            ic.gain = gain_with_level(ic.gain, 30);
            ic.noise_reduce_2d = match ic.noise_reduce_2d {
                Some(_) => Some(
                    NoiseReduce2D { noise_reduce_2d_enable: true, noise_reduce_2d_level: 55 },
                ),
                None => None,
            };
            ic.noise_reduce_ext = match ic.noise_reduce_ext {
                Some(n) => Some(
                    NoiseReduceExt {
                        mode: NoiseReduceMode::GENERAL,
                        general_mode: GeneralMode { general_level: 100 },
                        advanced_mode: n.advanced_mode,
                    },
                ),
                None => None,
            };
        },
        CameraRole::View => {
            ic.color = match ic.color {
                Some(c) => Some(
                    Color {
                        brightness_level: 62,
                        contrast_level: 44,
                        saturation_level: 50,
                        hue_level: c.hue_level,
                        gray_scale: Some(GrayScale { gray_scale_mode: GrayScaleMode::OUTDOOR }),
                        night_mode: c.night_mode,
                    },
                ),
                None => None,
            };
            ic.sharpness = sharpness_with_level(ic.sharpness, 50);
            ic.exposure = match ic.exposure {
                Some(e) => Some(
                    Exposure {
                        exposure_type: ExposureType::AUTO,
                        auto_iris_level: Some(100),
                        overexpose_suppress: Some(
                            OverexposeSuppress {
                                enabled: false,
                                ost: None,
                                distance_level: None,
                                short_ir_distance_level: None,
                                long_ir_distance_level: None,
                            },
                        ),
                        plris: e.plris,
                        plris_general: e.plris_general,
                        exposure_level: e.exposure_level,
                        face_exposure: e.face_exposure,
                    },
                ),
                None => None,
            };
            ic.shutter = shutter_with_level(ic.shutter, "1/500");
            ic.gain = gain_with_level(ic.gain, 65);
            ic.hlc = match ic.hlc {
                Some(_) => Some(HLC { enabled: true, hlc_level: 50 }),
                None => None,
            };
            ic.noise_reduce = match ic.noise_reduce {
                Some(n) => Some(
                    NoiseReduce {
                        mode: NoiseReduceMode::GENERAL,
                        general_mode: Some(GeneralMode { general_level: 51 }),
                        advanced_mode: n.advanced_mode,
                    },
                ),
                None => None,
            };
        },
        CameraRole::Other => {},
    }
    ic
}

/// The quality control of a camera that views a scene: a constant bit rate.
pub open spec fn view_quality_control() -> Seq<char> {
    "cbr"@
}

/// `after` is `before` with the values recommended for `role` in its video
/// settings.
pub open spec fn recommended_video(role: CameraRole, before: StreamingChannel, after: StreamingChannel) -> bool {
    &&& after == StreamingChannel { video: after.video, ..before }
    &&& match role {
        CameraRole::View => {
            &&& after.video.video_quality_control_type matches Some(control) && control@
                == view_quality_control()
            &&& after.video == Video {
                max_frame_rate: 1000,
                video_resolution_width: 2592,
                video_resolution_height: 1944,
                video_quality_control_type: after.video.video_quality_control_type,
                constant_bit_rate: Some(8192),
                gov_length: Some(10),
                h264_profile: Some(H264Profile::Baseline),
                svc: Some(SVC { enabled: Some(false), svc_mode: None }),
                smoothing: Some(1),
                smart_codec: Some(SmartCodec { enabled: false }),
                ..before.video
            }
        },
        CameraRole::Register => after.video == Video {
            max_frame_rate: 1000,
            video_resolution_width: 4096,
            video_resolution_height: 2160,
            svc: Some(SVC { enabled: None, svc_mode: Some(SVCMode::CLOSE) }),
            gov_length: Some(10),
            ..before.video
        },
        CameraRole::Other => after.video == before.video,
    }
}

/// The streaming channel `channel` with the values recommended for `role`.
pub fn recommend_video(role: CameraRole, channel: StreamingChannel) -> (tuned: StreamingChannel)
    ensures
        recommended_video(role, channel, tuned),
{
    let mut sc = channel;
    match role {
        CameraRole::View => {
            sc.video.max_frame_rate = 1000;
            sc.video.video_resolution_width = 2592;
            sc.video.video_resolution_height = 1944;
            sc.video.video_quality_control_type = Some(String::from_str("cbr"));
            sc.video.constant_bit_rate = Some(8192);
            sc.video.gov_length = Some(10);
            sc.video.h264_profile = Some(H264Profile::Baseline);
            sc.video.svc = Some(SVC { enabled: Some(false), svc_mode: None });
            sc.video.smoothing = Some(1);
            sc.video.smart_codec = Some(SmartCodec { enabled: false });
        },
        CameraRole::Register => {
            sc.video.max_frame_rate = 1000;
            sc.video.video_resolution_width = 4096;
            sc.video.video_resolution_height = 2160;
            sc.video.svc = Some(SVC { enabled: None, svc_mode: Some(SVCMode::CLOSE) });
            sc.video.gov_length = Some(10);
        },
        CameraRole::Other => {},
    }
    sc
}

} // verus!
