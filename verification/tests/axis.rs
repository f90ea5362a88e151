use ip_cameras::axis::{
    AxisHttp, PortState, ProjectorsData, ProjectorsItem, RequestParams, SetDateTimeRequest,
};
use ip_cameras::clock::Timestamp;
use ip_cameras::error::{ErrorKind, IpCamerasError};
use ip_cameras::exchange::{Call, Payload, Step};
use ip_cameras::focus::{FocusCapabilities, FocusValue};
use ip_cameras::handler::ApiHandler;
use ip_cameras::markup::{XmlAttribute, XmlElement, XmlNode};
use ip_cameras::request::{Header, Method};

fn axis_camera() -> AxisHttp {
    AxisHttp { host: Some("10.1.2.3".to_string()), ..Default::default() }
}

fn axis_asked<T>(step: Step<T>) -> Call {
    match step {
        Step::Ask(call) => call,
        _ => panic!("the step asks nothing"),
    }
}

fn item(port: &str, state: PortState, normal_state: PortState) -> ProjectorsItem {
    ProjectorsItem { port: port.to_string(), state, normal_state }
}

#[test]
fn integer_extraction_reads_25_from_padded_digits() {
    assert_eq!(AxisHttp::parse_int("root.Image.I0.Stream.FPS=0025abc"), Some(25));
}

#[test]
fn integer_extraction_is_none_for_a_key_without_digits() {
    assert_eq!(AxisHttp::parse_int("root.Image.I0.Stream.FPS="), None);
    assert_eq!(AxisHttp::parse_int("root.Image.I0.Stream.FPS=unlimited"), None);
}

#[test]
fn defaults_replace_the_missing_side_of_the_credentials_only() {
    let mut c = AxisHttp::default();
    assert_eq!(c.auth(), ("admin", "Admin777"));
    c.username = Some("root".to_string());
    assert_eq!(c.auth(), ("root", "Admin777"));
    c.password = Some("secret".to_string());
    assert_eq!(c.auth(), ("root", "secret"));
    c.username = None;
    assert_eq!(c.auth(), ("admin", "secret"));
}

#[test]
fn the_host_falls_back_to_the_loopback_address() {
    assert_eq!(AxisHttp::default().host(), "127.0.0.1");
    assert_eq!(axis_camera().host(), "10.1.2.3");
    assert_eq!(AxisHttp::default().timeout, 4);
}

#[test]
fn the_frame_rate_is_listed_by_the_parameter_interface() {
    let call = axis_asked(axis_camera().get_fps());
    assert_eq!(call.url, "http://10.1.2.3/axis-cgi/param.cgi?action=list&group=Image.I0.Stream.FPS");
    assert_eq!(call.method, Method::GET);
    assert!(matches!(call.payload, Payload::Empty));
    assert!(call.headers.is_none());
}

#[test]
fn the_frame_rate_is_read_from_the_reply() {
    assert_eq!(AxisHttp::fps_from_reply("root.Image.I0.Stream.FPS=25\n").unwrap(), 25);
    assert!(matches!(
        AxisHttp::fps_from_reply("Error"),
        Err(IpCamerasError::Std { kind: ErrorKind::InvalidData })
    ));
}

#[test]
fn the_frame_rate_is_updated_by_the_parameter_interface() {
    let call = axis_asked(axis_camera().set_fps(30));
    assert_eq!(call.url, "http://10.1.2.3/axis-cgi/param.cgi?action=update&Image.I0.Stream.FPS=30");
    assert!(AxisHttp::fps_set_from_reply("OK").is_ok());
    assert!(AxisHttp::fps_set_from_reply("OK\n").is_ok());
    assert!(matches!(
        AxisHttp::fps_set_from_reply("ok"),
        Err(IpCamerasError::Std { kind: ErrorKind::InvalidData })
    ));
    assert!(AxisHttp::fps_set_from_reply(" OK").is_err());
}

#[test]
fn the_spotlight_is_switched_through_port_two() {
    for enabled in [true, false] {
        let expected = if enabled { PortState::Closed } else { PortState::Open };
        let call = axis_asked(axis_camera().switch_spotlight(enabled));
        assert_eq!(call.url, "http://10.1.2.3/axis-cgi/io/portmanagement.cgi");
        assert_eq!(call.method, Method::POST);
        assert_eq!(call.headers, Some(vec![Header::JSON]));
        match call.payload {
            Payload::AxisPorts(request) => match request.method {
                RequestParams::SetPorts { ports } => {
                    assert_eq!(ports.len(), 1);
                    assert_eq!(ports[0].port, "2");
                    assert_eq!(ports[0].state, expected);
                    assert_eq!(ports[0].normal_state, expected);
                }
                _ => panic!("the request sets no ports"),
            },
            _ => panic!("the call carries no port request"),
        }
    }
}

#[test]
fn port_states_map_to_booleans_and_back() {
    assert_eq!(PortState::from(true), PortState::Closed);
    assert_eq!(PortState::from(false), PortState::Open);
    assert!(PortState::from(true).enabled());
    assert!(!PortState::from(false).enabled());
    for enabled in [true, false] {
        let port = AxisHttp::spotlight_port(enabled);
        let data = ProjectorsData {
            number_of_ports: 1,
            items: vec![item(port.port, port.state, port.normal_state)],
        };
        assert_eq!(AxisHttp::spotlight_state_from_reply(&data).unwrap(), enabled);
    }
}

#[test]
fn the_spotlight_state_asks_for_the_ports() {
    let call = axis_asked(axis_camera().get_spotlight_state());
    assert_eq!(call.url, "http://10.1.2.3/axis-cgi/io/portmanagement.cgi");
    assert_eq!(call.method, Method::POST);
    match call.payload {
        Payload::AxisPorts(request) => assert!(matches!(request.method, RequestParams::GetPorts)),
        _ => panic!("the call carries no port request"),
    }
}

#[test]
fn the_spotlight_is_on_only_when_port_two_is_closed_twice() {
    let data = |state, normal| ProjectorsData {
        number_of_ports: 2,
        items: vec![item("1", PortState::Closed, PortState::Closed), item("2", state, normal)],
    };
    assert!(AxisHttp::spotlight_state_from_reply(&data(PortState::Closed, PortState::Closed)).unwrap());
    assert!(!AxisHttp::spotlight_state_from_reply(&data(PortState::Closed, PortState::Open)).unwrap());
    assert!(!AxisHttp::spotlight_state_from_reply(&data(PortState::Open, PortState::Closed)).unwrap());
    assert!(!AxisHttp::spotlight_state_from_reply(&data(PortState::Open, PortState::Open)).unwrap());
}

#[test]
fn the_first_port_two_decides() {
    let data = ProjectorsData {
        number_of_ports: 2,
        items: vec![
            item("2", PortState::Open, PortState::Open),
            item("2", PortState::Closed, PortState::Closed),
        ],
    };
    assert!(!AxisHttp::spotlight_state_from_reply(&data).unwrap());
}

#[test]
fn a_missing_port_two_is_not_found() {
    let data = ProjectorsData {
        number_of_ports: 1,
        items: vec![item("1", PortState::Closed, PortState::Closed)],
    };
    assert!(matches!(
        AxisHttp::spotlight_state_from_reply(&data),
        Err(IpCamerasError::Std { kind: ErrorKind::NotFound })
    ));
}

#[test]
fn setting_the_clock_sets_the_time_zone_first() {
    let moment = Timestamp { secs: 1_704_164_645, nanos: 0 };
    let first = axis_asked(axis_camera().set_date_time(moment));
    assert_eq!(first.url, "http://10.1.2.3/axis-cgi/time.cgi");
    assert_eq!(first.method, Method::GET);
    assert_eq!(first.headers, Some(vec![Header::JSON]));
    match first.payload {
        Payload::AxisTimeZone(request) => {
            assert_eq!(request.method, "setTimeZone");
            assert_eq!(request.params.time_zone, "UTC");
            assert_eq!(request.api_version.text(), "1.0");
        }
        _ => panic!("the first call sets no time zone"),
    }
    let second = axis_camera().set_date_time_call(moment);
    assert_eq!(second.url, "http://10.1.2.3/axis-cgi/time.cgi");
    match second.payload {
        Payload::AxisDateTime(request) => {
            assert_eq!(request.method, "setDateTime");
            assert_eq!(request.params.date_time, moment);
            assert_eq!(request.params.date_time_text().unwrap(), "2024-01-02T03:04:05Z");
        }
        _ => panic!("the second call sets no date"),
    }
}

#[test]
fn a_date_out_of_range_is_not_written() {
    let request = SetDateTimeRequest { date_time: Timestamp { secs: i64::MAX, nanos: 0 } };
    assert_eq!(request.date_time_text(), None);
}

#[test]
fn focus_is_absolute_on_a_unit_scale() {
    match axis_camera().get_focus_capabilities() {
        Step::Done(Ok(caps)) => {
            assert_eq!(caps, FocusCapabilities::on_unit_scale());
            let absolute = caps.absolute.unwrap();
            assert_eq!(f32::from_bits(absolute.min.bits), 0.0);
            assert_eq!(f32::from_bits(absolute.max.bits), 1.0);
            assert_eq!(f32::from_bits(absolute.step.bits), 0.001);
            assert!(caps.relative.is_none());
            assert!(caps.continuous.is_none());
        }
        _ => panic!("the capabilities need no call"),
    }
}

#[test]
fn the_focus_is_polled_from_the_optics() {
    let call = axis_asked(axis_camera().get_focus_absolute());
    assert_eq!(call.url, "http://10.1.2.3/axis-cgi/opticssetup.cgi?monitor=poll&source=1");
    assert_eq!(call.method, Method::GET);
}

#[test]
fn focus_positions_are_read_from_the_optics_state() {
    let reply = "<?xml version=\"1.0\"?><opticsSetup><opticsSetupState focusPosition=\"0.4375\" zoomPosition=\"0\"/><other focusPosition=\"9\"/><opticsSetupState focusPosition=\"bad\" focusPosition2=\"1\"/></opticsSetup>";
    assert_eq!(AxisHttp::focus_positions_from_reply(reply), vec!["0.4375", "bad"]);
}

#[test]
fn a_reply_that_is_no_document_names_no_position() {
    assert!(AxisHttp::focus_positions_from_reply("not xml").is_empty());
    assert!(AxisHttp::focus_positions_from_reply("").is_empty());
    assert!(AxisHttp::focus_positions_from_reply("<a><opticsSetupState/></a>").is_empty());
}

#[test]
fn positions_before_a_broken_place_are_still_read() {
    let reply = "<a><opticsSetupState focusPosition=\"0.25\"/><b></a>";
    assert_eq!(AxisHttp::focus_positions_from_reply(reply), vec!["0.25"]);
}

#[test]
fn focus_positions_are_collected_from_nodes_in_their_order() {
    let attribute = |name: &str, value: &str| XmlAttribute { name: name.to_string(), value: value.to_string() };
    let nodes = vec![
        XmlNode::Other,
        XmlNode::Start(XmlElement {
            name: "opticsSetupState".to_string(),
            attributes: vec![attribute("zoom", "1"), attribute("focusPosition", "a"), attribute("focusPosition", "b")],
        }),
        XmlNode::Start(XmlElement { name: "opticsSetup".to_string(), attributes: vec![attribute("focusPosition", "c")] }),
        XmlNode::Broken,
        XmlNode::Start(XmlElement { name: "opticsSetupState".to_string(), attributes: vec![attribute("focusPosition", "d")] }),
    ];
    assert_eq!(AxisHttp::focus_positions(&nodes), vec!["a", "b", "d"]);
}

#[test]
fn the_first_position_that_is_a_number_is_the_focus() {
    let half = FocusValue { bits: 0.5f32.to_bits() };
    let one = FocusValue { bits: 1.0f32.to_bits() };
    assert_eq!(AxisHttp::focus_from_positions(&vec![None, Some(half), Some(one)]).unwrap(), half);
    assert_eq!(AxisHttp::focus_from_positions(&vec![Some(one)]).unwrap(), one);
    assert!(matches!(
        AxisHttp::focus_from_positions(&vec![None, None]),
        Err(IpCamerasError::Std { kind: ErrorKind::InvalidData })
    ));
    assert!(matches!(
        AxisHttp::focus_from_positions(&vec![]),
        Err(IpCamerasError::Std { kind: ErrorKind::InvalidData })
    ));
}

#[test]
fn the_focus_is_set_through_the_optics() {
    let call = axis_asked(axis_camera().set_focus_absolute("0.25"));
    assert_eq!(call.url, "http://10.1.2.3/axis-cgi/opticssetup.cgi?afocus=0.25&source=1");
    assert!(AxisHttp::focus_set_from_reply("ok").is_ok());
    assert!(matches!(
        AxisHttp::focus_set_from_reply("OK"),
        Err(IpCamerasError::Std { kind: ErrorKind::InvalidData })
    ));
}

#[test]
fn what_the_adapter_does_not_override_is_unsupported() {
    let c = axis_camera();
    for _ in 0..3 {
        assert!(matches!(c.get_focus_continuous(), Step::Done(Err(IpCamerasError::NotAvialiableApi))));
        assert!(matches!(c.get_focus_relative(), Step::Done(Err(IpCamerasError::NotAvialiableApi))));
        assert!(matches!(c.set_focus_relative("0.1"), Step::Done(Err(IpCamerasError::NotAvialiableApi))));
        assert!(matches!(c.get_additional_configuration(), Step::Done(Err(IpCamerasError::NotAvialiableApi))));
        assert!(matches!(c.get_default_configuration(), Step::Done(Err(IpCamerasError::NotAvialiableApi))));
    }
    assert!(matches!(c.init(), Step::Done(Err(IpCamerasError::NotAvialiableApi))));
}

#[test]
fn a_request_carries_the_resolved_credentials() {
    let request = axis_camera().request("http://10.1.2.3/x".to_string(), None, Method::GET, None);
    assert_eq!(request.auth, (Some("admin".to_string()), Some("Admin777".to_string())));
    assert_eq!(request.url, "http://10.1.2.3/x");
    assert!(request.uses_digest());
}
