use ip_cameras::camera::{normalize_host, CameraModelHttp};
use ip_cameras::clock::Timestamp;
use ip_cameras::configuration::AdditionalConfiguration;
use ip_cameras::domain::{CameraModelName, CameraRole, OnvifParams, Resource};
use ip_cameras::error::IpCamerasError;
use ip_cameras::exchange::Step;
use ip_cameras::focus::{Direction, FocusContinuous};
use ip_cameras::handler::Capability;

const ALL: [Capability; 16] = [
    Capability::Init,
    Capability::GetFps,
    Capability::SetFps,
    Capability::SwitchSpotlight,
    Capability::GetSpotlightState,
    Capability::GetFocusCapabilities,
    Capability::GetFocusContinuous,
    Capability::SetFocusContinuous,
    Capability::GetFocusAbsolute,
    Capability::SetFocusAbsolute,
    Capability::GetFocusRelative,
    Capability::SetFocusRelative,
    Capability::SetDateTime,
    Capability::GetAdditionalConfiguration,
    Capability::SetAdditionalConfiguration,
    Capability::GetDefaultConfiguration,
];

fn unsupported<T>(step: Step<T>) -> bool {
    matches!(step, Step::Done(Err(IpCamerasError::NotAvialiableApi)))
}

/// Starts the operation and tells whether it ended at once as unsupported.
fn refused(camera: &mut CameraModelHttp, capability: Capability) -> bool {
    let movement = FocusContinuous { direction: Direction::Forward, interval: 1 };
    match capability {
        Capability::Init => unsupported(camera.init()),
        Capability::GetFps => unsupported(camera.get_fps()),
        Capability::SetFps => unsupported(camera.set_fps(25)),
        Capability::SwitchSpotlight => unsupported(camera.switch_spotlight(true)),
        Capability::GetSpotlightState => unsupported(camera.get_spotlight_state()),
        Capability::GetFocusCapabilities => unsupported(camera.get_focus_capabilities()),
        Capability::GetFocusContinuous => unsupported(camera.get_focus_continuous()),
        Capability::SetFocusContinuous => unsupported(camera.set_focus_continuous(movement)),
        Capability::GetFocusAbsolute => unsupported(camera.get_focus_absolute()),
        Capability::SetFocusAbsolute => unsupported(camera.set_focus_absolute("0.5")),
        Capability::GetFocusRelative => unsupported(camera.get_focus_relative()),
        Capability::SetFocusRelative => unsupported(camera.set_focus_relative("0.5")),
        Capability::SetDateTime => unsupported(camera.set_date_time(Timestamp { secs: 0, nanos: 0 })),
        Capability::GetAdditionalConfiguration => unsupported(camera.get_additional_configuration()),
        Capability::SetAdditionalConfiguration => {
            unsupported(camera.set_additional_configuration(AdditionalConfiguration::new(1)))
        }
        Capability::GetDefaultConfiguration => unsupported(camera.get_default_configuration()),
    }
}

fn resource(model_name: CameraModelName, host: &str) -> Resource {
    Resource {
        id: 11,
        model_name,
        role: CameraRole::Register,
        onvif: Some(OnvifParams {
            host: Some(host.to_string()),
            username: Some("root".to_string()),
            password: None,
        }),
    }
}

#[test]
fn the_unknown_camera_supports_nothing_however_often_it_is_asked() {
    let mut camera = CameraModelHttp::from_model(CameraModelName::Other);
    assert!(matches!(camera, CameraModelHttp::Unknown));
    for _ in 0..3 {
        for capability in ALL {
            assert!(!camera.supports(capability));
            assert!(refused(&mut camera, capability));
        }
    }
    assert!(matches!(CameraModelHttp::default(), CameraModelHttp::Unknown));
}

#[test]
fn every_operation_that_an_adapter_does_not_override_is_unsupported() {
    for model in [CameraModelName::Axis, CameraModelName::Dahua, CameraModelName::Stilsoft, CameraModelName::Hikvision] {
        let mut camera = CameraModelHttp::from_model(model);
        for round in 0..2 {
            for capability in ALL {
                if !camera.supports(capability) {
                    assert!(refused(&mut camera, capability), "{:?} {:?} round {}", model, capability, round);
                }
            }
        }
    }
}

#[test]
fn the_adapters_override_what_they_carry_out() {
    let count = |model| {
        let camera = CameraModelHttp::from_model(model);
        ALL.iter().filter(|c| camera.supports(**c)).count()
    };
    assert_eq!(count(CameraModelName::Axis), 8);
    assert_eq!(count(CameraModelName::Dahua), 8);
    assert_eq!(count(CameraModelName::Stilsoft), 4);
    assert_eq!(count(CameraModelName::Hikvision), 11);
    assert_eq!(count(CameraModelName::Other), 0);
    let axis = CameraModelHttp::from_model(CameraModelName::Axis);
    assert!(axis.supports(Capability::GetFocusAbsolute));
    assert!(!axis.supports(Capability::GetFocusContinuous));
    let hikvision = CameraModelHttp::from_model(CameraModelName::Hikvision);
    assert!(hikvision.supports(Capability::Init));
    assert!(!hikvision.supports(Capability::SetDateTime));
}

#[test]
fn an_adapter_without_an_initialisation_refuses_it_as_unsupported() {
    for model in [CameraModelName::Axis, CameraModelName::Dahua, CameraModelName::Stilsoft] {
        for _ in 0..2 {
            assert!(matches!(
                CameraModelHttp::from_model(model).init(),
                Step::Done(Err(IpCamerasError::NotAvialiableApi))
            ));
        }
    }
    assert!(matches!(CameraModelHttp::from_model(CameraModelName::Hikvision).init(), Step::Ask(_)));
}

#[test]
fn operations_are_forwarded_to_the_adapter() {
    let axis = CameraModelHttp::from_resource(resource(CameraModelName::Axis, "10.0.0.9"));
    match axis.get_fps() {
        Step::Ask(call) => assert_eq!(
            call.url,
            "http://10.0.0.9/axis-cgi/param.cgi?action=list&group=Image.I0.Stream.FPS"
        ),
        _ => panic!("the frame rate is not asked for"),
    }
    let dahua = CameraModelHttp::from_resource(resource(CameraModelName::Dahua, "10.0.0.9"));
    match dahua.get_fps() {
        Step::Ask(call) => assert_eq!(
            call.url,
            "http://10.0.0.9/cgi-bin/configManager.cgi?action=getConfig&name=Encode"
        ),
        _ => panic!("the frame rate is not asked for"),
    }
    let mut hikvision = CameraModelHttp::from_resource(resource(CameraModelName::Hikvision, "10.0.0.9"));
    assert!(matches!(hikvision.set_additional_configuration(AdditionalConfiguration::new(1)), Step::Done(Ok(()))));
}

#[test]
fn the_names_of_the_manufacturers() {
    assert_eq!(CameraModelHttp::from_model(CameraModelName::Axis).name(), "Axis");
    assert_eq!(CameraModelHttp::from_model(CameraModelName::Dahua).name(), "Dahua");
    assert_eq!(CameraModelHttp::from_model(CameraModelName::Stilsoft).name(), "Stilsoft");
    assert_eq!(CameraModelHttp::from_model(CameraModelName::Hikvision).name(), "Hikvision");
    assert_eq!(CameraModelHttp::Unknown.name(), "Unknown");
}

#[test]
fn an_adapter_from_a_manufacturer_alone_has_nothing_configured() {
    match CameraModelHttp::from_model(CameraModelName::Dahua) {
        CameraModelHttp::Dahua(c) => {
            assert_eq!(c.id, 0);
            assert!(c.host.is_none() && c.username.is_none() && c.password.is_none());
            assert_eq!(c.timeout, 4);
        }
        _ => panic!("another adapter was made"),
    }
}

#[test]
fn the_scheme_is_stripped_from_the_recorded_host() {
    match CameraModelHttp::from_resource(resource(CameraModelName::Hikvision, "http://10.0.0.9")) {
        CameraModelHttp::Hikvision(c) => {
            assert_eq!(c.id, 11);
            assert_eq!(c.host.as_deref(), Some("10.0.0.9"));
            assert_eq!(c.username.as_deref(), Some("root"));
            assert_eq!(c.password, None);
            assert_eq!(c.camera_role, CameraRole::Register);
            assert_eq!(c.projectors.projectors_lines, vec![5, 7]);
        }
        _ => panic!("another adapter was made"),
    }
    match CameraModelHttp::from_resource(resource(CameraModelName::Stilsoft, "10.0.0.9:8080")) {
        CameraModelHttp::Stilsoft(c) => assert_eq!(c.host.as_deref(), Some("10.0.0.9:8080")),
        _ => panic!("another adapter was made"),
    }
    assert!(matches!(
        CameraModelHttp::from_resource(resource(CameraModelName::Other, "http://x")),
        CameraModelHttp::Unknown
    ));
    assert_eq!(normalize_host(Some("http://cam".to_string())).as_deref(), Some("cam"));
    assert_eq!(normalize_host(Some("https://cam".to_string())).as_deref(), Some("https://cam"));
    assert_eq!(normalize_host(None), None);
}
