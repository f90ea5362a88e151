use ip_cameras::configuration::{AdditionalConfiguration, HikvisionConfiguration};
use ip_cameras::daynight::{
    ICRCtrl, ICRCtrlMode, ImageIcrE, IrcutFilter, IrcutFilterTypes, ManualMode, SPSettings,
};
use ip_cameras::device::{DeviceInfo, FirmwareVerison, FocusData, PTZChannel, Time};
use ip_cameras::domain::CameraRole;
use ip_cameras::dublicates;
use ip_cameras::error::{ErrorKind, IpCamerasError};
use ip_cameras::exchange::{settle, Call, HikPayload, Part, Payload, Stage, Step};
use ip_cameras::focus::{Direction, FocusContinuous};
use ip_cameras::handler::ApiHandler;
use ip_cameras::hikvision::{derive_lines, has_line, send, HikvisionHttp};
use ip_cameras::image::{
    BrightEnhance, Color, Exposure, ExposureType, Gain, GammaCorrection, GeneralMode,
    GrayScaleMode, ImageChannel, NoiseReduce, NoiseReduce2D, NoiseReduceExt, NoiseReduceMode,
    PlateBright, Sharpness, Shutter, WhiteBalance, WhiteBalanceStyle, HLC,
};
use ip_cameras::request::Method;
use ip_cameras::signal::{SyncSignalOutput, SyncSignalOutputList};
use ip_cameras::status::{Response, StatusCode};
use ip_cameras::streaming::{
    H264Profile, SVCMode, SmartCodec, StreamingChannel, Video, VideoEncoding, SVC,
};

fn hikvision_camera(role: CameraRole) -> HikvisionHttp {
    HikvisionHttp { host: Some("10.1.2.6".to_string()), camera_role: role, ..Default::default() }
}

fn hikvision_asked<T>(step: Step<T>) -> Call {
    match step {
        Step::Ask(call) => call,
        _ => panic!("the step asks nothing"),
    }
}

fn stages<T>(step: Step<T>) -> Vec<Stage> {
    match step {
        Step::Run(stages) => stages,
        _ => panic!("the step runs no stage"),
    }
}

fn written(part: &Part) -> (&str, &HikPayload) {
    match part {
        Part::Write(Call { url, payload: Payload::Hik(payload), method: Method::PUT, headers: None }) => (url.as_str(), payload),
        _ => panic!("the part writes nothing"),
    }
}

fn hikvision_response(code: u8) -> Response {
    Response {
        request_url: String::new(),
        status_code: code,
        status_string: String::new(),
        sub_status_string: None,
        id: None,
        sub_status_code: StatusCode::OK,
        error_code: None,
        error_msg: None,
        additional_err: None,
    }
}

fn blank_image() -> ImageChannel {
    ImageChannel {
        id: 1,
        enabled: true,
        video_input_id: None,
        defog: None,
        noise_reduce_2d: None,
        focus_configuration: None,
        lens_initialization: None,
        image_flip: None,
        image_freeze: None,
        wdr: None,
        blc: None,
        noise_reduce: None,
        image_enhancement: None,
        dss: None,
        white_balance: None,
        exposure: None,
        sharpness: None,
        gamma_correction: None,
        power_line_frequency: None,
        color: None,
        ircut_filter: None,
        image_mode_list: None,
        bright_enhance: None,
        isp_mode: None,
        shutter: None,
        gain: None,
        image_icr_e: None,
        image_multi_shut: None,
        plate_bright: None,
        jpeg_param: None,
        dark_enhance: None,
        hdr: None,
        lse: None,
        mce: None,
        svce: None,
        section_ctrl: None,
        auto_contrast: None,
        gray_range: None,
        lse_detail: None,
        itc_image_snap: None,
        image_record: None,
        scene: None,
        eptz: None,
        eis: None,
        hlc: None,
        zoom_limit: None,
        corridor: None,
        dehaze: None,
        image_mode: None,
        enable_image_loss_detection: None,
        capture_mode: None,
        ir_light: None,
        lens_distortion_correction: None,
        exposure_sync: None,
        brightness_sudden_change_suppression: None,
        temp_range: None,
        noise_reduce_ext: None,
        ptz: None,
        iris: None,
        proportionalpan: None,
    }
}

fn full_image() -> ImageChannel {
    ImageChannel {
        color: Some(Color {
            brightness_level: 1,
            contrast_level: 2,
            saturation_level: 3,
            hue_level: Some(4),
            gray_scale: None,
            night_mode: None,
        }),
        sharpness: Some(Sharpness { sharpness_mode: None, sharpness_level: 5 }),
        white_balance: Some(WhiteBalance {
            white_balance_style: WhiteBalanceStyle::MANUAL,
            white_balance_level: Some(6),
            white_blance_red: Some(7),
            white_blance_blue: None,
        }),
        bright_enhance: Some(BrightEnhance { bright_enhance_level: 8 }),
        plate_bright: Some(PlateBright {
            plate_bright_enabled: None,
            plate_bright_sensitivity: None,
            correct_factor_enabled: Some(true),
            correct_factor: Some(9),
        }),
        gamma_correction: Some(GammaCorrection { gamma_correction_enabled: false, gamma_correction_level: 10 }),
        shutter: Some(Shutter {
            shutter_level: "1/25".to_string(),
            max_shutter_level_limit: Some("1/10".to_string()),
            min_shutter_level_limit: None,
        }),
        gain: Some(Gain { gain_level: 11, gain_window: None }),
        noise_reduce_2d: Some(NoiseReduce2D { noise_reduce_2d_enable: false, noise_reduce_2d_level: 12 }),
        noise_reduce_ext: Some(NoiseReduceExt {
            mode: NoiseReduceMode::CLOSE,
            general_mode: GeneralMode { general_level: 13 },
            advanced_mode: dublicates::AdvancedMode { spatial_level: 14, temporal_level: 15 },
        }),
        exposure: Some(Exposure {
            exposure_type: ExposureType::MANUAL,
            auto_iris_level: None,
            overexpose_suppress: None,
            plris: None,
            plris_general: None,
            exposure_level: Some(16),
            face_exposure: None,
        }),
        hlc: Some(HLC { enabled: false, hlc_level: 17 }),
        noise_reduce: Some(NoiseReduce { mode: NoiseReduceMode::CLOSE, general_mode: None, advanced_mode: None }),
        ..blank_image()
    }
}

fn hikvision_video() -> StreamingChannel {
    StreamingChannel {
        id: 1,
        channel_name: "main".to_string(),
        enabled: true,
        video: Video {
            enabled: true,
            video_input_channel_id: 1,
            video_scan_type: None,
            video_codec_type: VideoEncoding::H264,
            video_resolution_width: 1920,
            video_resolution_height: 1080,
            video_position_x: None,
            video_position_y: None,
            video_quality_control_type: Some("vbr".to_string()),
            constant_bit_rate: None,
            key_frame_interval: Some(50),
            mirror_enabled: None,
            rotation_degree: None,
            snap_shot_image_type: Some("JPEG".to_string()),
            fixed_quality: 60,
            vbr_upper_cap: Some(4096),
            max_frame_rate: 2500,
            svc: None,
            h264_profile: None,
            svac_profile: None,
            gov_length: None,
            smoothing: None,
            smart_codec: None,
        },
    }
}

fn ptz_channel() -> PTZChannel {
    PTZChannel {
        id: true,
        enabled: true,
        serial_number: None,
        video_input_id: 1,
        pax_max_speed: None,
        tilt_max_speed: None,
        preset_speed: None,
        auto_patrol_speed: None,
        key_board_control_speed: None,
        control_protocol: None,
        control_address: None,
        default_preset_id: None,
        ptz_rs_485_para: None,
        manual_control_speed: None,
    }
}

fn outputs(n: u8) -> SyncSignalOutputList {
    SyncSignalOutputList { sync_signal_output_list: (1..=n).map(SyncSignalOutput::unset).collect() }
}

fn failure() -> IpCamerasError {
    IpCamerasError::Reqwest { message: "unreachable".to_string() }
}

#[test]
fn a_new_adapter_knows_nothing_of_its_camera() {
    let c = HikvisionHttp::default();
    assert_eq!(c.camera_role, CameraRole::View);
    assert_eq!(c.projectors.projectors_lines, vec![5, 7]);
    assert_eq!(c.camera_version.firmware_verison, FirmwareVerison::V502);
    assert!(!c.is_ptz);
    assert_eq!(c.focus.current_interval, 1);
    assert!(c.focus.current_direction);
    assert_eq!(c.timeout, 4);
    assert_eq!(c.host(), "127.0.0.1");
    assert_eq!(c.auth(), ("admin", "Admin777"));
}

#[test]
fn projector_lines_follow_the_outputs_and_the_firmware() {
    assert_eq!(derive_lines(7, FirmwareVerison::V502), vec![5, 7]);
    assert_eq!(derive_lines(7, FirmwareVerison::V514), vec![5, 7, 1]);
    assert_eq!(derive_lines(6, FirmwareVerison::V573), vec![5]);
    assert_eq!(derive_lines(5, FirmwareVerison::V514), vec![5, 1]);
    assert_eq!(derive_lines(4, FirmwareVerison::V55820), Vec::<u8>::new());
    assert_eq!(derive_lines(0, FirmwareVerison::V514), vec![1]);
    assert_eq!(derive_lines(9, FirmwareVerison::V55800), vec![5, 7]);
}

#[test]
fn only_firmware_v514_gets_the_marker_line() {
    for firmware in [FirmwareVerison::V573, FirmwareVerison::V502, FirmwareVerison::V55820, FirmwareVerison::V55800] {
        assert!(firmware.default_switch());
        assert!(!has_line(&derive_lines(7, firmware), 1));
    }
    assert!(!FirmwareVerison::V514.default_switch());
    assert!(has_line(&derive_lines(7, FirmwareVerison::V514), 1));
    assert_eq!(FirmwareVerison::default(), FirmwareVerison::V502);
}

#[test]
fn the_initialisation_discovers_firmware_pan_and_tilt_and_lines() {
    let mut c = hikvision_camera(CameraRole::Register);
    assert_eq!(hikvision_asked(c.init()).url, "http://10.1.2.6/ISAPI/System/deviceInfo");
    let info = DeviceInfo { firmware_verison: FirmwareVerison::V514, ..Default::default() };
    assert_eq!(hikvision_asked(c.init_version(Ok(info))).url, "http://10.1.2.6/ISAPI/PTZCtrl/channels/1");
    assert_eq!(c.camera_version.firmware_verison, FirmwareVerison::V514);
    assert_eq!(hikvision_asked(c.init_ptz(Err(failure()))).url, "http://10.1.2.6/ISAPI/ITC/syncSignalOutput");
    assert!(!c.is_ptz);
    assert!(matches!(c.init_projectors(Ok(outputs(7))), Step::Done(Ok(()))));
    assert_eq!(c.projectors.projectors_lines, vec![5, 7, 1]);
}

#[test]
fn a_failed_firmware_reading_falls_back_to_v502() {
    let mut c = hikvision_camera(CameraRole::Register);
    c.camera_version.firmware_verison = FirmwareVerison::V573;
    assert!(matches!(c.init_version(Err(failure())), Step::Ask(_)));
    assert_eq!(c.camera_version.firmware_verison, FirmwareVerison::V502);
}

#[test]
fn a_camera_that_pans_and_tilts_keeps_its_lines() {
    let mut c = hikvision_camera(CameraRole::Register);
    assert!(matches!(c.init_ptz(Ok(ptz_channel())), Step::Done(Ok(()))));
    assert!(c.is_ptz);
    assert_eq!(c.projectors.projectors_lines, vec![5, 7]);
}

#[test]
fn a_viewing_camera_without_pan_and_tilt_cannot_list_its_outputs() {
    let mut c = hikvision_camera(CameraRole::View);
    assert!(matches!(c.init_ptz(Err(failure())), Step::Done(Err(IpCamerasError::NotAvialiableApi))));
    assert!(!c.is_ptz);
}

#[test]
fn a_failure_to_list_the_outputs_ends_the_initialisation() {
    let mut c = hikvision_camera(CameraRole::Other);
    assert!(matches!(c.init_projectors(Err(failure())), Step::Done(Err(IpCamerasError::Reqwest { .. }))));
    assert_eq!(c.projectors.projectors_lines, vec![5, 7]);
    assert!(matches!(c.init_projectors(Ok(outputs(5))), Step::Done(Ok(()))));
    assert_eq!(c.projectors.projectors_lines, vec![5]);
}

#[test]
fn the_spotlight_toggle_of_a_viewing_camera_asks_nothing() {
    let c = hikvision_camera(CameraRole::View);
    assert!(matches!(c.switch_spotlight(true), Step::Done(Ok(()))));
    assert!(matches!(c.switch_spotlight(false), Step::Done(Ok(()))));
    assert!(matches!(c.get_spotlight_state(), Step::Done(Ok(false))));
}

#[test]
fn a_fixed_camera_drives_its_lines_and_its_filter_control() {
    let mut c = hikvision_camera(CameraRole::Register);
    c.projectors.projectors_lines = vec![5, 1];
    let run = stages(c.switch_spotlight(true));
    assert_eq!(run.len(), 1);
    assert!(!run[0].lenient);
    assert_eq!(run[0].parts.len(), 2);
    let (url, payload) = written(&run[0].parts[0]);
    assert_eq!(url, "http://10.1.2.6/ISAPI/ITC/syncSignalOutput");
    match payload {
        HikPayload::SyncSignalOutputList(list) => {
            assert_eq!(list.sync_signal_output_list, vec![SyncSignalOutput::set(5), SyncSignalOutput::set(1)])
        }
        _ => panic!("the first part drives no lines"),
    }
    let (url, payload) = written(&run[0].parts[1]);
    assert_eq!(url, "http://10.1.2.6/ISAPI/Image/channels/1/icr");
    match payload {
        HikPayload::ImageIcrE(control) => {
            assert_eq!(control.icr_ctrl.icr_ctrl_mode, ICRCtrlMode::Manual);
            assert_eq!(control.icr_ctrl.manual_mode, Some(ManualMode { manual_preset_val: IrcutFilterTypes::Night }));
            assert!(control.icr_ctrl.time_mode.is_none());
            assert!(control.icr_ctrl.auto_mode.is_none());
        }
        _ => panic!("the second part sets no filter control"),
    }
    let run = stages(c.switch_spotlight(false));
    match written(&run[0].parts[0]).1 {
        HikPayload::SyncSignalOutputList(list) => {
            assert_eq!(list.sync_signal_output_list, vec![SyncSignalOutput::unset(5), SyncSignalOutput::unset(1)])
        }
        _ => panic!("the first part drives no lines"),
    }
    match written(&run[0].parts[1]).1 {
        HikPayload::ImageIcrE(control) => {
            assert_eq!(control.icr_ctrl.manual_mode, Some(ManualMode { manual_preset_val: IrcutFilterTypes::Day }))
        }
        _ => panic!("the second part sets no filter control"),
    }
}

#[test]
fn a_camera_that_pans_and_tilts_gets_its_filter_setting() {
    let mut c = hikvision_camera(CameraRole::Other);
    c.is_ptz = true;
    let run = stages(c.switch_spotlight(true));
    assert_eq!(run[0].parts.len(), 1);
    let (url, payload) = written(&run[0].parts[0]);
    assert_eq!(url, "http://10.1.2.6/ISAPI/Image/channels/1/ircutFilter");
    match payload {
        HikPayload::IrcutFilter(filter) => assert_eq!(
            *filter,
            IrcutFilter {
                ircut_filter_type: IrcutFilterTypes::Night,
                night_to_day_filter_level: Some(2),
                night_to_day_filter_time: None,
            }
        ),
        _ => panic!("the part sets no filter"),
    }
    assert_eq!(hikvision_asked(c.get_spotlight_state()).url, "http://10.1.2.6/ISAPI/Image/channels/1/ircutFilter");
    c.is_ptz = false;
    assert_eq!(hikvision_asked(c.get_spotlight_state()).url, "http://10.1.2.6/ISAPI/Image/channels/1/icr");
}

#[test]
fn the_spotlight_state_is_the_night_position_of_the_filter() {
    for (position, on) in [(IrcutFilterTypes::Night, true), (IrcutFilterTypes::Day, false), (IrcutFilterTypes::Auto, false)] {
        let filter = IrcutFilter { ircut_filter_type: position, night_to_day_filter_level: None, night_to_day_filter_time: None };
        assert_eq!(HikvisionHttp::spotlight_from_filter(filter), on);
        let control = ImageIcrE {
            icr_ctrl: ICRCtrl {
                icr_ctrl_mode: ICRCtrlMode::Manual,
                manual_mode: Some(ManualMode { manual_preset_val: position }),
                time_mode: None,
                auto_mode: None,
            },
        };
        assert_eq!(HikvisionHttp::spotlight_from_icr(control), on);
    }
    for enabled in [true, false] {
        assert_eq!(HikvisionHttp::spotlight_from_filter(IrcutFilter::from(SPSettings::from(enabled))), enabled);
        assert_eq!(HikvisionHttp::spotlight_from_icr(ImageIcrE::from(SPSettings::from(enabled))), enabled);
        assert_eq!(bool::from(SPSettings::from(enabled)), enabled);
        assert_eq!(bool::from(IrcutFilterTypes::from(enabled)), enabled);
    }
    assert!(!SPSettings::default().enabled);
}

#[test]
fn a_write_is_judged_by_the_status_of_the_answer() {
    assert!(send(Ok(hikvision_response(0))).is_ok());
    assert!(send(Ok(hikvision_response(1))).is_ok());
    assert!(matches!(send(Ok(hikvision_response(2))), Err(IpCamerasError::Std { kind: ErrorKind::InvalidData })));
    assert!(matches!(send(Ok(hikvision_response(4))), Err(IpCamerasError::Std { kind: ErrorKind::InvalidData })));
    assert!(matches!(send(Err(failure())), Err(IpCamerasError::Reqwest { .. })));
}

#[test]
fn the_first_failure_wins() {
    assert!(settle(vec![]).is_ok());
    assert!(settle(vec![Ok(()), Ok(())]).is_ok());
    assert!(matches!(settle(vec![Ok(()), Err(IpCamerasError::Fps), Err(IpCamerasError::NotSet)]), Err(IpCamerasError::Fps)));
    assert!(matches!(settle(vec![Err(IpCamerasError::NotSet), Ok(()), Err(IpCamerasError::Fps)]), Err(IpCamerasError::NotSet)));
    assert!(matches!(settle(vec![Ok(()), Ok(()), Part::refusal()]), Err(IpCamerasError::NotAvialiableApi)));
    let strict = Stage { parts: vec![], lenient: false };
    assert!(matches!(strict.answer(vec![Err(IpCamerasError::Fps)]), Err(IpCamerasError::Fps)));
    let lenient = Stage { parts: vec![], lenient: true };
    assert!(lenient.answer(vec![Err(IpCamerasError::Fps)]).is_ok());
}

#[test]
fn the_frame_rate_is_held_in_hundredths() {
    let c = hikvision_camera(CameraRole::View);
    assert_eq!(hikvision_asked(c.get_fps()).url, "http://10.1.2.6/ISAPI/Streaming/channels/1");
    assert_eq!(hikvision_asked(c.set_fps(12)).url, "http://10.1.2.6/ISAPI/Streaming/channels/1");
    assert_eq!(HikvisionHttp::fps_from_channel(&hikvision_video()), 25);
    let mut odd = hikvision_video();
    odd.video.max_frame_rate = 1299;
    assert_eq!(HikvisionHttp::fps_from_channel(&odd), 12);
    let call = c.fps_write(hikvision_video(), 12);
    assert_eq!(call.url, "http://10.1.2.6/ISAPI/Streaming/channels/1");
    assert_eq!(call.method, Method::PUT);
    match call.payload {
        Payload::Hik(HikPayload::StreamingChannel(sc)) => {
            assert_eq!(sc.video.max_frame_rate, 1200);
            assert_eq!(sc.video.video_resolution_width, 1920);
            assert_eq!(sc.channel_name, "main");
        }
        _ => panic!("the call writes no streaming channel"),
    }
}

#[test]
fn a_continuous_focus_is_remembered_as_it_was_set() {
    let mut c = hikvision_camera(CameraRole::View);
    let movement = FocusContinuous { direction: Direction::Forward, interval: 3 };
    let first = hikvision_asked(c.set_focus_continuous(movement));
    assert_eq!(first.url, "http://10.1.2.6/ISAPI/System/Video/inputs/channels/1/focus");
    assert!(matches!(first.payload, Payload::Hik(HikPayload::FocusData(FocusData { focus: 60 }))));
    let second = c.focus_stop().unwrap();
    assert_eq!(second.url, "http://10.1.2.6/ISAPI/System/Video/inputs/channels/1/focus");
    assert!(matches!(second.payload, Payload::Hik(HikPayload::FocusData(FocusData { focus: 0 }))));
    c.finish_focus_continuous(movement);
    match c.get_focus_continuous() {
        Step::Done(Ok(read)) => assert_eq!(read, movement),
        _ => panic!("the movement is read without a call"),
    }
    let back = FocusContinuous { direction: Direction::Backward, interval: 7 };
    assert!(matches!(hikvision_asked(c.set_focus_continuous(back)).payload, Payload::Hik(HikPayload::FocusData(FocusData { focus: -60 }))));
    c.finish_focus_continuous(back);
    assert!(matches!(c.get_focus_continuous(), Step::Done(Ok(FocusContinuous { direction: Direction::Backward, interval: 7 }))));
}

#[test]
fn a_new_adapter_reads_a_forward_movement_of_interval_one() {
    let c = hikvision_camera(CameraRole::Register);
    assert!(matches!(c.get_focus_continuous(), Step::Done(Ok(FocusContinuous { direction: Direction::Forward, interval: 1 }))));
    match c.get_focus_capabilities() {
        Step::Done(Ok(caps)) => {
            let continuous = caps.continuous.unwrap();
            assert_eq!((continuous.min_interval, continuous.max_interval), (1, 1));
            assert!(caps.absolute.is_none());
            assert!(caps.relative.is_none());
        }
        _ => panic!("the capabilities need no call"),
    }
}

#[test]
fn only_a_viewing_camera_drives_its_focus() {
    let movement = FocusContinuous { direction: Direction::Forward, interval: 1 };
    for role in [CameraRole::Register, CameraRole::Other] {
        let c = hikvision_camera(role);
        assert!(matches!(c.set_focus_continuous(movement), Step::Done(Err(IpCamerasError::NotAvialiableApi))));
        assert!(matches!(c.focus_stop(), Err(IpCamerasError::NotAvialiableApi)));
    }
}

#[test]
fn a_registering_camera_writes_nine_image_resources() {
    let stage = hikvision_camera(CameraRole::Register).send_image_channel(full_image());
    assert!(!stage.lenient);
    let urls: Vec<&str> = stage.parts.iter().map(|p| written(p).0).collect();
    assert_eq!(
        urls,
        vec![
            "http://10.1.2.6/ISAPI/Image/channels/1/color",
            "http://10.1.2.6/ISAPI/Image/channels/1/sharpness",
            "http://10.1.2.6/ISAPI/Image/channels/1/gain",
            "http://10.1.2.6/ISAPI/Image/channels/1/shutter",
            "http://10.1.2.6/ISAPI/Image/channels/1/whiteBalance",
            "http://10.1.2.6/ISAPI/Image/channels/1/noiseReduceExt",
            "http://10.1.2.6/ISAPI/Image/channels/1/gammaCorrection",
            "http://10.1.2.6/ISAPI/Image/channels/1/NoiseReduce2D",
            "http://10.1.2.6/ISAPI/Image/channels/1/brightEnhance",
        ]
    );
    assert!(matches!(written(&stage.parts[0]).1, HikPayload::Color(c) if c.brightness_level == 1));
    assert!(matches!(written(&stage.parts[2]).1, HikPayload::Gain(g) if g.gain_level == 11));
    assert!(matches!(written(&stage.parts[3]).1, HikPayload::Shutter(s) if s.shutter_level == "1/25"));
    assert!(matches!(written(&stage.parts[8]).1, HikPayload::BrightEnhance(b) if b.bright_enhance_level == 8));
}

#[test]
fn a_viewing_camera_writes_seven_image_resources() {
    let stage = hikvision_camera(CameraRole::View).send_image_channel(full_image());
    assert!(!stage.lenient);
    let urls: Vec<&str> = stage.parts.iter().map(|p| written(p).0).collect();
    assert_eq!(
        urls,
        vec![
            "http://10.1.2.6/ISAPI/Image/channels/1/color",
            "http://10.1.2.6/ISAPI/Image/channels/1/sharpness",
            "http://10.1.2.6/ISAPI/Image/channels/1/gain",
            "http://10.1.2.6/ISAPI/Image/channels/1/shutter",
            "http://10.1.2.6/ISAPI/Image/channels/1/exposure",
            "http://10.1.2.6/ISAPI/Image/channels/1/HLC",
            "http://10.1.2.6/ISAPI/Image/channels/1/noiseReduce",
        ]
    );
    assert!(matches!(written(&stage.parts[5]).1, HikPayload::HLC(h) if h.hlc_level == 17));
}

#[test]
fn any_other_camera_writes_four_and_reports_no_failure() {
    let stage = hikvision_camera(CameraRole::Other).send_image_channel(full_image());
    assert!(stage.lenient);
    assert_eq!(stage.parts.len(), 4);
    assert!(stage.answer(vec![Err(IpCamerasError::Fps), Ok(()), Ok(()), Ok(())]).is_ok());
}

#[test]
fn a_missing_resource_is_a_part_that_is_unsupported() {
    let mut image = full_image();
    image.sharpness = None;
    image.bright_enhance = None;
    let stage = hikvision_camera(CameraRole::Register).send_image_channel(image);
    assert_eq!(stage.parts.len(), 9);
    assert!(matches!(stage.parts[1], Part::Unsupported));
    assert!(matches!(stage.parts[8], Part::Unsupported));
    assert!(matches!(stage.parts[0], Part::Write(_)));
    let outcomes = stage
        .parts
        .iter()
        .map(|p| match p {
            Part::Write(_) => send(Ok(hikvision_response(1))),
            Part::Unsupported => Part::refusal(),
        })
        .collect();
    assert!(matches!(stage.answer(outcomes), Err(IpCamerasError::NotAvialiableApi)));
    let blank = hikvision_camera(CameraRole::View).send_image_channel(blank_image());
    assert_eq!(blank.parts.len(), 7);
    assert!(blank.parts.iter().all(|p| matches!(p, Part::Unsupported)));
}

#[test]
fn the_recommended_image_of_a_registering_camera() {
    let tuned = hikvision_camera(CameraRole::Register).default_general_settings(full_image());
    let color = tuned.color.clone().unwrap();
    assert_eq!((color.saturation_level, color.brightness_level, color.contrast_level), (50, 75, 18));
    assert_eq!(color.night_mode, Some(true));
    assert_eq!(color.hue_level, Some(4));
    assert_eq!(color.gray_scale, None);
    assert_eq!(tuned.sharpness.clone().unwrap().sharpness_level, 60);
    let balance = tuned.white_balance.clone().unwrap();
    assert_eq!(balance.white_balance_style, WhiteBalanceStyle::AUTO1);
    assert_eq!(balance.white_balance_level, Some(6));
    assert_eq!(tuned.bright_enhance.clone().unwrap().bright_enhance_level, 70);
    let plate = tuned.plate_bright.clone().unwrap();
    assert_eq!((plate.plate_bright_enabled, plate.plate_bright_sensitivity), (Some(true), Some(5)));
    assert_eq!((plate.correct_factor_enabled, plate.correct_factor), (Some(true), Some(9)));
    assert_eq!(tuned.gamma_correction, Some(GammaCorrection { gamma_correction_enabled: true, gamma_correction_level: 30 }));
    let shutter = tuned.shutter.clone().unwrap();
    assert_eq!(shutter.shutter_level, "2000");
    assert_eq!(shutter.max_shutter_level_limit.as_deref(), Some("1/10"));
    assert_eq!(tuned.gain.clone().unwrap().gain_level, 30);
    assert_eq!(tuned.noise_reduce_2d, Some(NoiseReduce2D { noise_reduce_2d_enable: true, noise_reduce_2d_level: 55 }));
    let ext = tuned.noise_reduce_ext.clone().unwrap();
    assert_eq!(ext.mode, NoiseReduceMode::GENERAL);
    assert_eq!(ext.general_mode.general_level, 100);
    assert_eq!(ext.advanced_mode.spatial_level, 14);
    assert_eq!(tuned.exposure, full_image().exposure);
    assert_eq!(tuned.hlc, full_image().hlc);
    assert_eq!(tuned.noise_reduce, full_image().noise_reduce);
}

#[test]
fn the_recommended_image_of_a_viewing_camera() {
    let tuned = hikvision_camera(CameraRole::View).default_general_settings(full_image());
    let color = tuned.color.clone().unwrap();
    assert_eq!((color.brightness_level, color.saturation_level, color.contrast_level), (62, 50, 44));
    assert_eq!(color.gray_scale.unwrap().gray_scale_mode, GrayScaleMode::OUTDOOR);
    assert_eq!(color.night_mode, None);
    assert_eq!(tuned.sharpness.clone().unwrap().sharpness_level, 50);
    let exposure = tuned.exposure.clone().unwrap();
    assert_eq!(exposure.exposure_type, ExposureType::AUTO);
    assert_eq!(exposure.auto_iris_level, Some(100));
    let suppress = exposure.overexpose_suppress.unwrap();
    assert!(!suppress.enabled);
    assert!(suppress.ost.is_none() && suppress.distance_level.is_none());
    assert_eq!(exposure.exposure_level, Some(16));
    assert_eq!(tuned.shutter.clone().unwrap().shutter_level, "1/500");
    assert_eq!(tuned.gain.clone().unwrap().gain_level, 65);
    assert_eq!(tuned.hlc, Some(HLC { enabled: true, hlc_level: 50 }));
    let noise = tuned.noise_reduce.clone().unwrap();
    assert_eq!(noise.mode, NoiseReduceMode::GENERAL);
    assert_eq!(noise.general_mode, Some(GeneralMode { general_level: 51 }));
    assert_eq!(tuned.white_balance, full_image().white_balance);
    assert_eq!(tuned.bright_enhance, full_image().bright_enhance);
}

#[test]
fn recommended_values_fill_no_missing_resource() {
    assert_eq!(hikvision_camera(CameraRole::Register).default_general_settings(blank_image()), blank_image());
    assert_eq!(hikvision_camera(CameraRole::View).default_general_settings(blank_image()), blank_image());
    assert_eq!(hikvision_camera(CameraRole::Other).default_general_settings(full_image()), full_image());
}

#[test]
fn the_recommended_video_by_role() {
    let view = hikvision_camera(CameraRole::View).default_video_settings(hikvision_video()).video;
    assert_eq!(view.max_frame_rate, 1000);
    assert_eq!((view.video_resolution_width, view.video_resolution_height), (2592, 1944));
    assert_eq!(view.video_quality_control_type.as_deref(), Some("cbr"));
    assert_eq!(view.constant_bit_rate, Some(8192));
    assert_eq!(view.gov_length, Some(10));
    assert_eq!(view.h264_profile, Some(H264Profile::Baseline));
    assert_eq!(view.svc, Some(SVC { enabled: Some(false), svc_mode: None }));
    assert_eq!(view.smoothing, Some(1));
    assert_eq!(view.smart_codec, Some(SmartCodec { enabled: false }));
    assert_eq!(view.key_frame_interval, Some(50));
    let register = hikvision_camera(CameraRole::Register).default_video_settings(hikvision_video()).video;
    assert_eq!(register.max_frame_rate, 1000);
    assert_eq!((register.video_resolution_width, register.video_resolution_height), (4096, 2160));
    assert_eq!(register.svc, Some(SVC { enabled: None, svc_mode: Some(SVCMode::CLOSE) }));
    assert_eq!(register.gov_length, Some(10));
    assert_eq!(register.video_quality_control_type.as_deref(), Some("vbr"));
    assert_eq!(register.constant_bit_rate, None);
    let other = hikvision_camera(CameraRole::Other).default_video_settings(hikvision_video());
    assert_eq!(other.video, hikvision_video().video);
    assert_eq!(other.channel_name, "main");
}

#[test]
fn the_configuration_names_the_remembered_lines() {
    let mut c = hikvision_camera(CameraRole::Register);
    c.id = 42;
    c.projectors.projectors_lines = vec![7, 1];
    let configuration = c.additional_configuration(None);
    assert_eq!(configuration.id, 42);
    assert_eq!(configuration.default_settings, Some(false));
    assert_eq!(configuration.is_day_now, None);
    let settings = configuration.hikvision.unwrap();
    assert!(settings.internal_projector);
    assert!(!settings.external_projector);
    assert!(!settings.default_switch);
    assert!(settings.image_channel.is_none() && settings.streaming_channel.is_none());
    c.projectors.projectors_lines = vec![5];
    let settings = c.prepare_hikvision_configuration(Some((full_image(), hikvision_video())));
    assert!(settings.external_projector && !settings.internal_projector && settings.default_switch);
    assert_eq!(settings.image_channel, Some(full_image()));
}

#[test]
fn the_configuration_tolerates_channels_that_cannot_be_read() {
    let c = hikvision_camera(CameraRole::Register);
    assert_eq!(hikvision_asked(c.get_additional_configuration()).url, "http://10.1.2.6/ISAPI/Image/channels/1");
    let (kept, step) = c.configuration_after_image(Err(failure()));
    assert!(kept.is_none());
    match step {
        Step::Done(Ok(configuration)) => assert!(configuration.hikvision.unwrap().image_channel.is_none()),
        _ => panic!("the configuration is made without the channels"),
    }
    let (kept, step) = c.configuration_after_image(Ok(full_image()));
    assert_eq!(hikvision_asked(step).url, "http://10.1.2.6/ISAPI/Streaming/channels/1");
    let without = c.configuration_after_video(kept.clone().unwrap(), Err(failure())).hikvision.unwrap();
    assert!(without.image_channel.is_none() && without.streaming_channel.is_none());
    let with = c.configuration_after_video(kept.unwrap(), Ok(hikvision_video())).hikvision.unwrap();
    assert_eq!(with.image_channel, Some(full_image()));
    assert_eq!(with.streaming_channel.unwrap().video, hikvision_video().video);
}

#[test]
fn the_recommended_configuration_is_made_and_not_written() {
    let mut c = hikvision_camera(CameraRole::View);
    c.id = 7;
    assert_eq!(hikvision_asked(c.get_default_configuration()).url, "http://10.1.2.6/ISAPI/Image/channels/1");
    let configuration = c.default_configuration(full_image(), hikvision_video());
    assert_eq!(configuration.id, 7);
    assert_eq!(configuration.default_settings, Some(true));
    let settings = configuration.hikvision.unwrap();
    assert!(settings.external_projector && settings.internal_projector && settings.default_switch);
    assert_eq!(settings.image_channel.unwrap().gain.unwrap().gain_level, 65);
    assert_eq!(settings.streaming_channel.unwrap().video.max_frame_rate, 1000);
}

#[test]
fn writing_recommended_settings_starts_with_the_streaming_channel() {
    let mut c = hikvision_camera(CameraRole::Register);
    let mut configuration = AdditionalConfiguration::new(1);
    configuration.default_settings = Some(true);
    configuration.hikvision = Some(HikvisionConfiguration { external_projector: false, ..Default::default() });
    assert_eq!(hikvision_asked(c.set_additional_configuration(configuration)).url, "http://10.1.2.6/ISAPI/Streaming/channels/1");
    assert_eq!(c.projectors.projectors_lines, vec![5, 7]);
    let write = c.default_video_write(hikvision_video());
    assert_eq!(write.url, "http://10.1.2.6/ISAPI/Streaming/channels/1");
    assert_eq!(write.method, Method::PUT);
    assert!(matches!(write.payload, Payload::Hik(HikPayload::StreamingChannel(sc)) if sc.video.video_resolution_width == 4096));
    let stage = c.default_image_stage(full_image());
    assert_eq!(stage.parts.len(), 9);
    assert!(matches!(written(&stage.parts[2]).1, HikPayload::Gain(g) if g.gain_level == 30));
}

#[test]
fn writing_a_configuration_remembers_the_lines_it_names() {
    let mut c = hikvision_camera(CameraRole::View);
    let mut configuration = AdditionalConfiguration::new(1);
    configuration.hikvision = Some(HikvisionConfiguration {
        external_projector: false,
        internal_projector: true,
        default_switch: true,
        image_channel: Some(full_image()),
        streaming_channel: Some(hikvision_video()),
    });
    let run = stages(c.set_additional_configuration(configuration));
    assert_eq!(c.projectors.projectors_lines, vec![7]);
    assert_eq!(run.len(), 2);
    assert_eq!(run[0].parts.len(), 7);
    assert_eq!(run[1].parts.len(), 1);
    assert_eq!(written(&run[1].parts[0]).0, "http://10.1.2.6/ISAPI/Streaming/channels/1");
    assert!(!run[1].lenient);
}

#[test]
fn a_configuration_without_the_default_switch_leaves_the_lines() {
    let mut c = hikvision_camera(CameraRole::Register);
    c.projectors.projectors_lines = vec![5, 7, 1];
    let mut configuration = AdditionalConfiguration::empty(1);
    configuration.hikvision = Some(HikvisionConfiguration {
        external_projector: false,
        internal_projector: false,
        default_switch: false,
        image_channel: None,
        streaming_channel: Some(hikvision_video()),
    });
    let run = stages(c.set_additional_configuration(configuration));
    assert_eq!(c.projectors.projectors_lines, vec![5, 7, 1]);
    assert_eq!(run.len(), 1);
    assert_eq!(run[0].parts.len(), 1);
    let mut both_off = AdditionalConfiguration::empty(1);
    both_off.hikvision = Some(HikvisionConfiguration {
        external_projector: false,
        internal_projector: false,
        default_switch: true,
        image_channel: None,
        streaming_channel: None,
    });
    assert!(stages(c.set_additional_configuration(both_off)).is_empty());
    assert!(c.projectors.projectors_lines.is_empty());
}

#[test]
fn a_configuration_without_hikvision_settings_writes_nothing() {
    let mut c = hikvision_camera(CameraRole::Register);
    assert!(matches!(c.set_additional_configuration(AdditionalConfiguration::new(1)), Step::Done(Ok(()))));
    assert!(matches!(c.set_additional_configuration(AdditionalConfiguration::empty(1)), Step::Done(Ok(()))));
    assert_eq!(c.projectors.projectors_lines, vec![5, 7]);
}

#[test]
fn the_clock_is_switched_to_network_time() {
    let time = Time {
        time_mode: dublicates::TimeMode::MANUAL,
        local_time: "2024-01-02T03:04:05".to_string(),
        time_zone: "CST-3:00:00".to_string(),
        satellite_interval: None,
        platform_no: Some(1),
    };
    let (time, server) = HikvisionHttp::default_time_settings(time);
    assert_eq!(time.time_mode, dublicates::TimeMode::NTP);
    assert_eq!(time.local_time, "2024-01-02T03:04:05");
    assert_eq!(server.id, 1);
    assert_eq!(server.ip_address.as_deref(), Some("172.16.16.10"));
    assert_eq!(server.synchronize_interval, Some(60));
    assert_eq!(server.port_no, Some(123));
    let c = hikvision_camera(CameraRole::Register);
    assert_eq!(c.retrieve_time_settings().url, "http://10.1.2.6/ISAPI/System/time");
    let stage = c.send_time_settings((time, server));
    assert_eq!(written(&stage.parts[0]).0, "http://10.1.2.6/ISAPI/System/time");
    assert_eq!(written(&stage.parts[1]).0, "http://10.1.2.6/ISAPI/System/time/ntpServers/1");
}

#[test]
fn operations_outside_the_adapter_are_unsupported() {
    let c = hikvision_camera(CameraRole::Register);
    for _ in 0..2 {
        assert!(matches!(c.get_focus_absolute(), Step::Done(Err(IpCamerasError::NotAvialiableApi))));
        assert!(matches!(c.set_focus_absolute("1"), Step::Done(Err(IpCamerasError::NotAvialiableApi))));
        assert!(matches!(c.get_focus_relative(), Step::Done(Err(IpCamerasError::NotAvialiableApi))));
        assert!(matches!(c.set_date_time(ip_cameras::clock::Timestamp { secs: 0, nanos: 0 }), Step::Done(Err(IpCamerasError::NotAvialiableApi))));
    }
}
