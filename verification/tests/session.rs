use ip_cameras::camera::CameraModelHttp;
use ip_cameras::clock::Timestamp;
use ip_cameras::configuration::AdditionalConfiguration;
use ip_cameras::daynight::{IrcutFilter, IrcutFilterTypes};
use ip_cameras::device::{DeviceInfo, FirmwareVerison};
use ip_cameras::domain::{CameraModelName, CameraRole, OnvifParams, Resource};
use ip_cameras::error::{ErrorKind, IpCamerasError};
use ip_cameras::exchange::{Call, Payload};
use ip_cameras::focus::{Direction, FocusContinuous, FocusValue};
use ip_cameras::request::Method;
use ip_cameras::session::{Action, Expect, OnvifRequest, Operation, Outcome, Pending, Reply};
use ip_cameras::signal::{SyncSignalOutput, SyncSignalOutputList};
use ip_cameras::status::{Response, StatusCode};
use ip_cameras::streaming::{StreamingChannel, Video, VideoEncoding};

/// What was asked of the camera and of the clock while an operation ran.
#[derive(Debug, PartialEq)]
enum Event {
    Call(Method, String),
    Sleep(u64),
}

fn session_camera(model_name: CameraModelName, role: CameraRole) -> CameraModelHttp {
    CameraModelHttp::from_resource(Resource {
        id: 3,
        model_name,
        role,
        onvif: Some(OnvifParams { host: Some("cam".to_string()), username: None, password: None }),
    })
}

fn status(code: u8) -> Reply {
    Reply::Status(Response {
        request_url: String::new(),
        status_code: code,
        status_string: String::new(),
        sub_status_string: None,
        id: None,
        sub_status_code: StatusCode::OK,
        error_code: None,
        error_msg: None,
        additional_err: None,
    })
}

fn session_video(hundredths: u64) -> StreamingChannel {
    StreamingChannel {
        id: 1,
        channel_name: "main".to_string(),
        enabled: true,
        video: Video {
            enabled: true,
            video_input_channel_id: 1,
            video_scan_type: None,
            video_codec_type: VideoEncoding::H265,
            video_resolution_width: 1280,
            video_resolution_height: 720,
            video_position_x: None,
            video_position_y: None,
            video_quality_control_type: None,
            constant_bit_rate: None,
            key_frame_interval: None,
            mirror_enabled: None,
            rotation_degree: None,
            snap_shot_image_type: None,
            fixed_quality: 60,
            vbr_upper_cap: None,
            max_frame_rate: hundredths,
            svc: None,
            h264_profile: None,
            svac_profile: None,
            gov_length: None,
            smoothing: None,
            smart_codec: None,
        },
    }
}

fn failed() -> Reply {
    Reply::Failed(IpCamerasError::Reqwest { message: "unreachable".to_string() })
}

/// Carries `operation` out against a camera that answers each call by
/// `answer`, and tells what was asked on the way.
fn drive(
    camera: &mut CameraModelHttp,
    operation: Operation,
    answer: &mut dyn FnMut(&Call, Expect) -> Reply,
) -> (Result<Outcome, IpCamerasError>, Vec<Event>) {
    let mut events = Vec::new();
    let mut action = camera.begin(operation);
    loop {
        let (pending, reply) = match action {
            Action::Done(result) => return (result, events),
            Action::Onvif(..) => panic!("the operation is handed to the ONVIF client"),
            Action::Ask(call, expect, pending) => {
                events.push(Event::Call(call.method, call.url.clone()));
                (pending, answer(&call, expect))
            }
            Action::Read(texts, pending) => {
                let numbers = texts
                    .iter()
                    .map(|t| t.parse::<f32>().ok().map(|v| FocusValue { bits: v.to_bits() }))
                    .collect();
                (pending, Reply::Numbers(numbers))
            }
            Action::Sleep(millis, pending) => {
                events.push(Event::Sleep(millis));
                (pending, Reply::Woken)
            }
        };
        assert!(pending.within_limits(&reply));
        action = camera.resume(pending, reply);
    }
}

fn calls(events: &[Event]) -> usize {
    events.iter().filter(|e| matches!(e, Event::Call(..))).count()
}

#[test]
fn the_dahua_focus_is_read_with_three_requests_when_the_third_is_normal() {
    let mut c = session_camera(CameraModelName::Dahua, CameraRole::View);
    let mut polls = 0;
    let (result, events) = drive(&mut c, Operation::GetFocusAbsolute, &mut |_, _| {
        polls += 1;
        Reply::Text(if polls == 3 {
            "status.Focus=0.25\nstatus.Status=Normal\n".to_string()
        } else {
            "status.Focus=0.5\nstatus.Status=Autofocus\n".to_string()
        })
    });
    assert!(matches!(result, Ok(Outcome::Focus(v)) if f32::from_bits(v.bits) == 0.25));
    assert_eq!(calls(&events), 3);
    let poll = Event::Call(Method::GET, "http://cam/cgi-bin/devVideoInput.cgi?action=getFocusStatus".to_string());
    assert_eq!(events, vec![
        Event::Call(Method::GET, "http://cam/cgi-bin/devVideoInput.cgi?action=getFocusStatus".to_string()),
        Event::Sleep(400),
        Event::Call(Method::GET, "http://cam/cgi-bin/devVideoInput.cgi?action=getFocusStatus".to_string()),
        Event::Sleep(400),
        poll,
    ]);
}

#[test]
fn the_dahua_focus_is_given_up_after_five_requests() {
    let mut c = session_camera(CameraModelName::Dahua, CameraRole::View);
    let (result, events) = drive(&mut c, Operation::GetFocusAbsolute, &mut |_, _| {
        Reply::Text("status.Focus=0.5\nstatus.Status=Autofocus\n".to_string())
    });
    assert!(matches!(result, Err(IpCamerasError::Std { kind: ErrorKind::InvalidData })));
    assert_eq!(calls(&events), 5);
    assert_eq!(events.iter().filter(|e| **e == Event::Sleep(400)).count(), 5);
    assert_eq!(events.last(), Some(&Event::Sleep(400)));
}

#[test]
fn a_failed_poll_ends_the_reading_without_a_retry() {
    let mut c = session_camera(CameraModelName::Dahua, CameraRole::View);
    let (result, events) = drive(&mut c, Operation::GetFocusAbsolute, &mut |_, _| failed());
    assert!(matches!(result, Err(IpCamerasError::Reqwest { .. })));
    assert_eq!(events.len(), 1);
}

#[test]
fn the_axis_focus_is_the_first_position_that_is_a_number() {
    let mut c = session_camera(CameraModelName::Axis, CameraRole::View);
    let (result, events) = drive(&mut c, Operation::GetFocusAbsolute, &mut |_, expect| {
        assert_eq!(expect, Expect::Text);
        Reply::Text("<r><opticsSetupState focusPosition=\"x\"/><opticsSetupState focusPosition=\"0.75\"/></r>".to_string())
    });
    assert!(matches!(result, Ok(Outcome::Focus(v)) if f32::from_bits(v.bits) == 0.75));
    assert_eq!(events, vec![Event::Call(Method::GET, "http://cam/axis-cgi/opticssetup.cgi?monitor=poll&source=1".to_string())]);
    let (result, _) = drive(&mut c, Operation::GetFocusAbsolute, &mut |_, _| Reply::Text("<r/>".to_string()));
    assert!(matches!(result, Err(IpCamerasError::Std { kind: ErrorKind::InvalidData })));
}

#[test]
fn the_axis_clock_is_set_by_two_calls_that_must_both_succeed() {
    let moment = Timestamp { secs: 1_704_164_645, nanos: 0 };
    let mut c = session_camera(CameraModelName::Axis, CameraRole::View);
    let mut payloads = Vec::new();
    let (result, events) = drive(&mut c, Operation::SetDateTime(moment), &mut |call, expect| {
        assert_eq!(expect, Expect::AxisAccepted);
        payloads.push(match &call.payload {
            Payload::AxisTimeZone(r) => r.params.time_zone.clone(),
            Payload::AxisDateTime(r) => r.params.date_time_text().unwrap(),
            _ => panic!("the call sets nothing"),
        });
        Reply::AxisAccepted
    });
    assert!(matches!(result, Ok(Outcome::Unit)));
    assert_eq!(calls(&events), 2);
    assert_eq!(payloads, vec!["UTC", "2024-01-02T03:04:05Z"]);
    let (result, events) = drive(&mut c, Operation::SetDateTime(moment), &mut |_, _| failed());
    assert!(matches!(result, Err(IpCamerasError::Reqwest { .. })));
    assert_eq!(calls(&events), 1);
}

#[test]
fn the_frame_rate_of_each_manufacturer_is_read_from_its_answer() {
    let mut axis = session_camera(CameraModelName::Axis, CameraRole::View);
    let (result, _) = drive(&mut axis, Operation::GetFps, &mut |_, _| Reply::Text("root.Image.I0.Stream.FPS=0025abc".to_string()));
    assert!(matches!(result, Ok(Outcome::Fps(25))));
    let (result, _) = drive(&mut axis, Operation::GetFps, &mut |_, _| Reply::Text("root.Image.I0.Stream.FPS=".to_string()));
    assert!(matches!(result, Err(IpCamerasError::Std { kind: ErrorKind::InvalidData })));
    let mut dahua = session_camera(CameraModelName::Dahua, CameraRole::View);
    let (result, _) = drive(&mut dahua, Operation::GetFps, &mut |_, _| Reply::Text("table.Encode[0].MainFormat[0].Video.FPS=12".to_string()));
    assert!(matches!(result, Ok(Outcome::Fps(12))));
    let (result, _) = drive(&mut dahua, Operation::GetFps, &mut |_, _| Reply::Text("nothing".to_string()));
    assert!(matches!(result, Err(IpCamerasError::Fps)));
    let mut hikvision = session_camera(CameraModelName::Hikvision, CameraRole::View);
    let (result, _) = drive(&mut hikvision, Operation::GetFps, &mut |_, expect| {
        assert_eq!(expect, Expect::Video);
        Reply::Video(session_video(2500))
    });
    assert!(matches!(result, Ok(Outcome::Fps(25))));
}

#[test]
fn the_hikvision_frame_rate_is_written_in_hundredths() {
    let mut c = session_camera(CameraModelName::Hikvision, CameraRole::Register);
    let mut written = None;
    let (result, events) = drive(&mut c, Operation::SetFps(12), &mut |call, expect| match expect {
        Expect::Video => Reply::Video(session_video(2500)),
        _ => {
            if let Payload::Hik(ip_cameras::exchange::HikPayload::StreamingChannel(sc)) = &call.payload {
                written = Some(sc.video.max_frame_rate);
            }
            status(1)
        }
    });
    assert!(matches!(result, Ok(Outcome::Unit)));
    assert_eq!(written, Some(1200));
    assert_eq!(events, vec![
        Event::Call(Method::GET, "http://cam/ISAPI/Streaming/channels/1".to_string()),
        Event::Call(Method::PUT, "http://cam/ISAPI/Streaming/channels/1".to_string()),
    ]);
    let (result, _) = drive(&mut c, Operation::SetFps(12), &mut |_, expect| match expect {
        Expect::Video => Reply::Video(session_video(2500)),
        _ => status(3),
    });
    assert!(matches!(result, Err(IpCamerasError::Std { kind: ErrorKind::InvalidData })));
    assert!(!c.allows(&Pending::HikFpsSet(u64::MAX), &Reply::Video(session_video(1))));
}

#[test]
fn the_stilsoft_switch_remembers_the_state_on_success_only() {
    let mut c = session_camera(CameraModelName::Stilsoft, CameraRole::View);
    let (result, events) = drive(&mut c, Operation::SwitchSpotlight(true), &mut |call, _| {
        Reply::Text(if call.method == Method::POST { "id: YWRtaW46YWRtaW43Nzc".to_string() } else { "Success".to_string() })
    });
    assert!(matches!(result, Ok(Outcome::Unit)));
    assert_eq!(events, vec![
        Event::Call(Method::POST, "http://cam/goform/setLoginParam".to_string()),
        Event::Call(Method::GET, "http://cam/ajax/image_profile?id=YWRtaW46YWRtaW4&value=2".to_string()),
    ]);
    let (state, none) = drive(&mut c, Operation::GetSpotlightState, &mut |_, _| panic!("the state is remembered"));
    assert!(matches!(state, Ok(Outcome::Flag(true))));
    assert!(none.is_empty());
    let (result, _) = drive(&mut c, Operation::SwitchSpotlight(false), &mut |call, _| {
        Reply::Text(if call.method == Method::POST { "id: YWRtaW46YWRtaW4".to_string() } else { "Denied".to_string() })
    });
    assert!(matches!(result, Err(IpCamerasError::Spotlight)));
    let (state, _) = drive(&mut c, Operation::GetSpotlightState, &mut |_, _| panic!("the state is remembered"));
    assert!(matches!(state, Ok(Outcome::Flag(true))));
    let (result, events) = drive(&mut c, Operation::SwitchSpotlight(false), &mut |_, _| Reply::Text("no session".to_string()));
    assert!(matches!(result, Err(IpCamerasError::Std { kind: ErrorKind::InvalidData })));
    assert_eq!(calls(&events), 1);
}

#[test]
fn the_stilsoft_frame_rate_goes_to_the_onvif_client() {
    let mut c = session_camera(CameraModelName::Stilsoft, CameraRole::View);
    match c.begin(Operation::SetFps(20)) {
        Action::Onvif(params, request) => {
            assert_eq!(params.host.as_deref(), Some("cam"));
            assert_eq!(request, OnvifRequest::SetFps(20));
        }
        _ => panic!("the frame rate is not handed over"),
    }
    assert!(matches!(c.begin(Operation::GetFps), Action::Onvif(_, OnvifRequest::GetFps)));
}

#[test]
fn the_hikvision_initialisation_discovers_the_camera() {
    let mut c = session_camera(CameraModelName::Hikvision, CameraRole::Register);
    let (result, events) = drive(&mut c, Operation::Init, &mut |_, expect| match expect {
        Expect::DeviceInfo => Reply::DeviceInfo(DeviceInfo { firmware_verison: FirmwareVerison::V514, ..Default::default() }),
        Expect::PtzChannel => failed(),
        Expect::Outputs => Reply::Outputs(SyncSignalOutputList {
            sync_signal_output_list: (1..=7).map(SyncSignalOutput::unset).collect(),
        }),
        _ => panic!("the initialisation asks for nothing else"),
    });
    assert!(matches!(result, Ok(Outcome::Unit)));
    assert_eq!(events, vec![
        Event::Call(Method::GET, "http://cam/ISAPI/System/deviceInfo".to_string()),
        Event::Call(Method::GET, "http://cam/ISAPI/PTZCtrl/channels/1".to_string()),
        Event::Call(Method::GET, "http://cam/ISAPI/ITC/syncSignalOutput".to_string()),
    ]);
    match &c {
        CameraModelHttp::Hikvision(h) => {
            assert_eq!(h.camera_version.firmware_verison, FirmwareVerison::V514);
            assert!(!h.is_ptz);
            assert_eq!(h.projectors.projectors_lines, vec![5, 7, 1]);
        }
        _ => panic!("another adapter"),
    }
}

#[test]
fn the_hikvision_initialisation_tolerates_an_unknown_firmware_only() {
    let mut c = session_camera(CameraModelName::Hikvision, CameraRole::Other);
    let (result, events) = drive(&mut c, Operation::Init, &mut |_, _| failed());
    assert!(matches!(result, Err(IpCamerasError::Reqwest { .. })));
    assert_eq!(calls(&events), 3);
    match &c {
        CameraModelHttp::Hikvision(h) => {
            assert_eq!(h.camera_version.firmware_verison, FirmwareVerison::V502);
            assert_eq!(h.projectors.projectors_lines, vec![5, 7]);
        }
        _ => panic!("another adapter"),
    }
    let mut view = session_camera(CameraModelName::Hikvision, CameraRole::View);
    let (result, events) = drive(&mut view, Operation::Init, &mut |_, _| failed());
    assert!(matches!(result, Err(IpCamerasError::NotAvialiableApi)));
    assert_eq!(calls(&events), 2);
}

#[test]
fn the_view_spotlight_toggle_issues_no_request() {
    let mut c = session_camera(CameraModelName::Hikvision, CameraRole::View);
    for enabled in [true, false] {
        let (result, events) = drive(&mut c, Operation::SwitchSpotlight(enabled), &mut |_, _| panic!("nothing is asked"));
        assert!(matches!(result, Ok(Outcome::Unit)));
        assert!(events.is_empty());
    }
}

#[test]
fn the_fixed_camera_spotlight_toggle_writes_both_parts_and_reports_the_first_failure() {
    let mut c = session_camera(CameraModelName::Hikvision, CameraRole::Register);
    let (result, events) = drive(&mut c, Operation::SwitchSpotlight(true), &mut |call, _| {
        if call.url.ends_with("syncSignalOutput") { failed() } else { status(4) }
    });
    assert!(matches!(result, Err(IpCamerasError::Reqwest { .. })));
    assert_eq!(events, vec![
        Event::Call(Method::PUT, "http://cam/ISAPI/ITC/syncSignalOutput".to_string()),
        Event::Call(Method::PUT, "http://cam/ISAPI/Image/channels/1/icr".to_string()),
    ]);
    let (result, events) = drive(&mut c, Operation::SwitchSpotlight(true), &mut |call, _| {
        if call.url.ends_with("syncSignalOutput") { status(1) } else { status(4) }
    });
    assert!(matches!(result, Err(IpCamerasError::Std { kind: ErrorKind::InvalidData })));
    assert_eq!(calls(&events), 2);
    let (result, _) = drive(&mut c, Operation::SwitchSpotlight(false), &mut |_, _| status(0));
    assert!(matches!(result, Ok(Outcome::Unit)));
}

#[test]
fn the_spotlight_state_of_a_camera_that_pans_is_its_filter() {
    let mut c = session_camera(CameraModelName::Hikvision, CameraRole::Register);
    if let CameraModelHttp::Hikvision(h) = &mut c {
        h.is_ptz = true;
    }
    let (result, events) = drive(&mut c, Operation::GetSpotlightState, &mut |_, expect| {
        assert_eq!(expect, Expect::Filter);
        Reply::Filter(IrcutFilter {
            ircut_filter_type: IrcutFilterTypes::Night,
            night_to_day_filter_level: None,
            night_to_day_filter_time: None,
        })
    });
    assert!(matches!(result, Ok(Outcome::Flag(true))));
    assert_eq!(events, vec![Event::Call(Method::GET, "http://cam/ISAPI/Image/channels/1/ircutFilter".to_string())]);
}

#[test]
fn a_continuous_focus_reads_back_as_it_was_set() {
    let mut c = session_camera(CameraModelName::Hikvision, CameraRole::View);
    let movement = FocusContinuous { direction: Direction::Forward, interval: 3 };
    let mut speeds = Vec::new();
    let (result, events) = drive(&mut c, Operation::SetFocusContinuous(movement), &mut |call, _| {
        if let Payload::Hik(ip_cameras::exchange::HikPayload::FocusData(d)) = &call.payload {
            speeds.push(d.focus);
        }
        status(1)
    });
    assert!(matches!(result, Ok(Outcome::Unit)));
    assert_eq!(speeds, vec![60, 0]);
    assert_eq!(calls(&events), 2);
    let (read, none) = drive(&mut c, Operation::GetFocusContinuous, &mut |_, _| panic!("nothing is asked"));
    assert!(matches!(read, Ok(Outcome::Continuous(m)) if m == movement));
    assert!(none.is_empty());
}

#[test]
fn a_failed_focus_write_leaves_the_remembered_movement() {
    let mut c = session_camera(CameraModelName::Hikvision, CameraRole::View);
    let movement = FocusContinuous { direction: Direction::Backward, interval: 9 };
    let (result, events) = drive(&mut c, Operation::SetFocusContinuous(movement), &mut |_, _| status(3));
    assert!(matches!(result, Err(IpCamerasError::Std { kind: ErrorKind::InvalidData })));
    assert_eq!(calls(&events), 1);
    let (read, _) = drive(&mut c, Operation::GetFocusContinuous, &mut |_, _| panic!("nothing is asked"));
    assert!(matches!(read, Ok(Outcome::Continuous(FocusContinuous { direction: Direction::Forward, interval: 1 }))));
}

#[test]
fn writing_recommended_settings_reads_and_writes_in_turn() {
    let mut c = session_camera(CameraModelName::Hikvision, CameraRole::Other);
    let mut configuration = AdditionalConfiguration::new(3);
    configuration.default_settings = Some(true);
    let (result, events) = drive(&mut c, Operation::SetAdditionalConfiguration(configuration), &mut |call, expect| match expect {
        Expect::Video => Reply::Video(session_video(2500)),
        Expect::Image => failed(),
        _ => {
            assert_eq!(call.method, Method::PUT);
            status(3)
        }
    });
    assert!(matches!(result, Err(IpCamerasError::Std { kind: ErrorKind::InvalidData })));
    assert_eq!(events, vec![
        Event::Call(Method::GET, "http://cam/ISAPI/Streaming/channels/1".to_string()),
        Event::Call(Method::PUT, "http://cam/ISAPI/Streaming/channels/1".to_string()),
        Event::Call(Method::GET, "http://cam/ISAPI/Image/channels/1".to_string()),
    ]);
    let mut configuration = AdditionalConfiguration::new(3);
    configuration.default_settings = Some(true);
    let (result, events) = drive(&mut c, Operation::SetAdditionalConfiguration(configuration), &mut |_, expect| match expect {
        Expect::Video => Reply::Video(session_video(2500)),
        Expect::Image => failed(),
        _ => status(1),
    });
    assert!(matches!(result, Err(IpCamerasError::Reqwest { .. })));
    assert_eq!(calls(&events), 3);
}

#[test]
fn the_configuration_is_made_without_channels_that_cannot_be_read() {
    let mut c = session_camera(CameraModelName::Hikvision, CameraRole::Register);
    let (result, events) = drive(&mut c, Operation::GetAdditionalConfiguration, &mut |_, _| failed());
    match result {
        Ok(Outcome::Configuration(configuration)) => {
            assert_eq!(configuration.id, 3);
            let settings = configuration.hikvision.unwrap();
            assert!(settings.image_channel.is_none() && settings.streaming_channel.is_none());
            assert!(settings.external_projector && settings.internal_projector && settings.default_switch);
        }
        _ => panic!("the configuration is made"),
    }
    assert_eq!(calls(&events), 1);
    let (result, _) = drive(&mut c, Operation::GetDefaultConfiguration, &mut |_, _| failed());
    assert!(matches!(result, Err(IpCamerasError::Reqwest { .. })));
}

#[test]
fn every_operation_of_the_unknown_camera_is_unsupported() {
    let mut c = CameraModelHttp::Unknown;
    let movement = FocusContinuous { direction: Direction::Forward, interval: 1 };
    for _ in 0..2 {
        let operations = vec![
            Operation::Init,
            Operation::GetFps,
            Operation::SetFps(1),
            Operation::SwitchSpotlight(true),
            Operation::GetSpotlightState,
            Operation::GetFocusCapabilities,
            Operation::GetFocusContinuous,
            Operation::SetFocusContinuous(movement),
            Operation::GetFocusAbsolute,
            Operation::SetFocusAbsolute("1".to_string()),
            Operation::GetFocusRelative,
            Operation::SetFocusRelative("1".to_string()),
            Operation::SetDateTime(Timestamp { secs: 0, nanos: 0 }),
            Operation::GetAdditionalConfiguration,
            Operation::SetAdditionalConfiguration(AdditionalConfiguration::new(1)),
            Operation::GetDefaultConfiguration,
        ];
        for operation in operations {
            assert!(matches!(c.begin(operation), Action::Done(Err(IpCamerasError::NotAvialiableApi))));
        }
    }
}

#[test]
fn an_answer_must_fit_what_is_pending() {
    let c = session_camera(CameraModelName::Axis, CameraRole::View);
    assert!(c.allows(&Pending::AxisFps, &Reply::Text("FPS=25".to_string())));
    assert!(!c.allows(&Pending::AxisFps, &Reply::Text("FPS=99999999999".to_string())));
    assert!(!c.allows(&Pending::AxisFps, &Reply::Woken));
    assert!(c.allows(&Pending::AxisFps, &failed()));
    assert!(!c.allows(&Pending::HikVersion, &failed()));
    assert!(!c.allows(&Pending::StilsoftLogin(true), &Reply::Text(String::new())));
    assert!(c.allows(&Pending::Accepted, &Reply::Woken));
    assert!(c.expects(&Pending::AxisFps, &Reply::Text("FPS=99999999999".to_string())));
    assert!(!Pending::AxisFps.within_limits(&Reply::Text("FPS=99999999999".to_string())));
    assert!(!c.expects(&Pending::AxisFps, &Reply::Woken));
    assert!(Pending::AxisFps.within_limits(&Reply::Woken));
    assert!(Pending::HikVersion.tolerates_failure());
    assert!(!Pending::HikOutputs.tolerates_failure());
}

#[test]
fn a_configuration_is_written_stage_by_stage() {
    let mut c = session_camera(CameraModelName::Hikvision, CameraRole::View);
    let mut configuration = AdditionalConfiguration::empty(3);
    configuration.hikvision = Some(ip_cameras::configuration::HikvisionConfiguration {
        external_projector: true,
        internal_projector: false,
        default_switch: true,
        image_channel: None,
        streaming_channel: Some(session_video(2500)),
    });
    let (result, events) = drive(&mut c, Operation::SetAdditionalConfiguration(configuration), &mut |_, expect| {
        assert_eq!(expect, Expect::Status);
        status(1)
    });
    assert!(matches!(result, Ok(Outcome::Unit)));
    assert_eq!(events, vec![Event::Call(Method::PUT, "http://cam/ISAPI/Streaming/channels/1".to_string())]);
    match &c {
        CameraModelHttp::Hikvision(h) => assert_eq!(h.projectors.projectors_lines, vec![5]),
        _ => panic!("another adapter"),
    }
}

#[test]
fn recommended_settings_are_written_to_every_resource_and_the_first_failure_is_reported() {
    let mut c = session_camera(CameraModelName::Hikvision, CameraRole::Other);
    let mut configuration = AdditionalConfiguration::new(3);
    configuration.default_settings = Some(true);
    let image = || ip_cameras::image::ImageChannel {
        id: 1,
        enabled: true,
        video_input_id: None,
        defog: None,
        noise_reduce_2d: None,
        focus_configuration: None,
        lens_initialization: None,
        image_flip: None,
        image_freeze: None,
        wdr: None,
        blc: None,
        noise_reduce: None,
        image_enhancement: None,
        dss: None,
        white_balance: None,
        exposure: None,
        sharpness: Some(ip_cameras::image::Sharpness { sharpness_mode: None, sharpness_level: 1 }),
        gamma_correction: None,
        power_line_frequency: None,
        color: None,
        ircut_filter: None,
        image_mode_list: None,
        bright_enhance: None,
        isp_mode: None,
        shutter: None,
        gain: Some(ip_cameras::image::Gain { gain_level: 1, gain_window: None }),
        image_icr_e: None,
        image_multi_shut: None,
        plate_bright: None,
        jpeg_param: None,
        dark_enhance: None,
        hdr: None,
        lse: None,
        mce: None,
        svce: None,
        section_ctrl: None,
        auto_contrast: None,
        gray_range: None,
        lse_detail: None,
        itc_image_snap: None,
        image_record: None,
        scene: None,
        eptz: None,
        eis: None,
        hlc: None,
        zoom_limit: None,
        corridor: None,
        dehaze: None,
        image_mode: None,
        enable_image_loss_detection: None,
        capture_mode: None,
        ir_light: None,
        lens_distortion_correction: None,
        exposure_sync: None,
        brightness_sudden_change_suppression: None,
        temp_range: None,
        noise_reduce_ext: None,
        ptz: None,
        iris: None,
        proportionalpan: None,
    };
    let (result, events) = drive(&mut c, Operation::SetAdditionalConfiguration(configuration), &mut |call, expect| match expect {
        Expect::Video => Reply::Video(session_video(2500)),
        Expect::Image => Reply::Image(image()),
        _ => {
            if call.url.ends_with("/Streaming/channels/1") { status(3) } else { failed() }
        }
    });
    assert!(matches!(result, Err(IpCamerasError::Std { kind: ErrorKind::InvalidData })));
    assert_eq!(events, vec![
        Event::Call(Method::GET, "http://cam/ISAPI/Streaming/channels/1".to_string()),
        Event::Call(Method::PUT, "http://cam/ISAPI/Streaming/channels/1".to_string()),
        Event::Call(Method::GET, "http://cam/ISAPI/Image/channels/1".to_string()),
        Event::Call(Method::PUT, "http://cam/ISAPI/Image/channels/1/sharpness".to_string()),
        Event::Call(Method::PUT, "http://cam/ISAPI/Image/channels/1/gain".to_string()),
    ]);
    let mut register = session_camera(CameraModelName::Hikvision, CameraRole::Register);
    let mut configuration = AdditionalConfiguration::new(3);
    configuration.default_settings = Some(true);
    let (result, events) = drive(&mut register, Operation::SetAdditionalConfiguration(configuration), &mut |_, expect| match expect {
        Expect::Video => Reply::Video(session_video(2500)),
        Expect::Image => Reply::Image(image()),
        _ => status(1),
    });
    assert!(matches!(result, Err(IpCamerasError::NotAvialiableApi)));
    assert_eq!(calls(&events), 5);
}

#[test]
fn an_answer_that_is_not_expected_ends_the_operation_as_not_set() {
    let mut axis = session_camera(CameraModelName::Axis, CameraRole::View);
    assert!(matches!(axis.resume(Pending::AxisFps, Reply::Woken), Action::Done(Err(IpCamerasError::NotSet))));
    assert!(matches!(axis.resume(Pending::AxisPorts, Reply::Text("x".to_string())), Action::Done(Err(IpCamerasError::NotSet))));
    assert!(matches!(axis.resume(Pending::HikVersion, failed()), Action::Done(Err(IpCamerasError::NotSet))));
    assert!(matches!(axis.resume(Pending::StilsoftLogin(true), Reply::Text("x".to_string())), Action::Done(Err(IpCamerasError::NotSet))));
    assert!(matches!(axis.resume(Pending::StilsoftLogin(true), failed()), Action::Done(Err(IpCamerasError::Reqwest { .. }))));
    let mut hikvision = session_camera(CameraModelName::Hikvision, CameraRole::Register);
    assert!(matches!(hikvision.resume(Pending::HikOutputs, Reply::Woken), Action::Done(Err(IpCamerasError::NotSet))));
    match &hikvision {
        CameraModelHttp::Hikvision(h) => assert_eq!(h.projectors.projectors_lines, vec![5, 7]),
        _ => panic!("another adapter"),
    }
}

#[test]
fn the_streaming_channel_is_written_however_the_image_channel_ended() {
    let blank = || ip_cameras::image::ImageChannel {
        id: 1,
        enabled: true,
        video_input_id: None,
        defog: None,
        noise_reduce_2d: None,
        focus_configuration: None,
        lens_initialization: None,
        image_flip: None,
        image_freeze: None,
        wdr: None,
        blc: None,
        noise_reduce: None,
        image_enhancement: None,
        dss: None,
        white_balance: None,
        exposure: None,
        sharpness: None,
        gamma_correction: None,
        power_line_frequency: None,
        color: None,
        ircut_filter: None,
        image_mode_list: None,
        bright_enhance: None,
        isp_mode: None,
        shutter: None,
        gain: None,
        image_icr_e: None,
        image_multi_shut: None,
        plate_bright: None,
        jpeg_param: None,
        dark_enhance: None,
        hdr: None,
        lse: None,
        mce: None,
        svce: None,
        section_ctrl: None,
        auto_contrast: None,
        gray_range: None,
        lse_detail: None,
        itc_image_snap: None,
        image_record: None,
        scene: None,
        eptz: None,
        eis: None,
        hlc: None,
        zoom_limit: None,
        corridor: None,
        dehaze: None,
        image_mode: None,
        enable_image_loss_detection: None,
        capture_mode: None,
        ir_light: None,
        lens_distortion_correction: None,
        exposure_sync: None,
        brightness_sudden_change_suppression: None,
        temp_range: None,
        noise_reduce_ext: None,
        ptz: None,
        iris: None,
        proportionalpan: None,
    };
    let configuration = |image: ip_cameras::image::ImageChannel| {
        let mut configuration = AdditionalConfiguration::empty(3);
        configuration.hikvision = Some(ip_cameras::configuration::HikvisionConfiguration {
            external_projector: true,
            internal_projector: true,
            default_switch: false,
            image_channel: Some(image),
            streaming_channel: Some(session_video(2500)),
        });
        configuration
    };
    let mut view = session_camera(CameraModelName::Hikvision, CameraRole::View);
    let (result, events) = drive(&mut view, Operation::SetAdditionalConfiguration(configuration(blank())), &mut |_, _| status(1));
    assert!(matches!(result, Err(IpCamerasError::NotAvialiableApi)));
    assert_eq!(events, vec![Event::Call(Method::PUT, "http://cam/ISAPI/Streaming/channels/1".to_string())]);
    let mut image = blank();
    image.gain = Some(ip_cameras::image::Gain { gain_level: 1, gain_window: None });
    let (result, events) = drive(&mut view, Operation::SetAdditionalConfiguration(configuration(image)), &mut |call, _| {
        if call.url.ends_with("/gain") { failed() } else { status(3) }
    });
    assert!(matches!(result, Err(IpCamerasError::NotAvialiableApi)));
    assert_eq!(events, vec![
        Event::Call(Method::PUT, "http://cam/ISAPI/Image/channels/1/gain".to_string()),
        Event::Call(Method::PUT, "http://cam/ISAPI/Streaming/channels/1".to_string()),
    ]);
    let mut other = session_camera(CameraModelName::Hikvision, CameraRole::Other);
    let (result, events) = drive(&mut other, Operation::SetAdditionalConfiguration(configuration(blank())), &mut |_, _| status(3));
    assert!(matches!(result, Err(IpCamerasError::Std { kind: ErrorKind::InvalidData })));
    assert_eq!(calls(&events), 1);
    let (result, _) = drive(&mut other, Operation::SetAdditionalConfiguration(configuration(blank())), &mut |_, _| status(1));
    assert!(matches!(result, Ok(Outcome::Unit)));
}

#[test]
fn the_initialisation_of_an_adapter_that_has_none_is_unsupported() {
    for model in [CameraModelName::Axis, CameraModelName::Dahua, CameraModelName::Stilsoft] {
        let mut c = session_camera(model, CameraRole::View);
        for _ in 0..2 {
            assert!(matches!(c.begin(Operation::Init), Action::Done(Err(IpCamerasError::NotAvialiableApi))));
        }
    }
}
