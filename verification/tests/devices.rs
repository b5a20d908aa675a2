use tradfri_gateway::Device;
use tradfri_gateway::DeviceError;
use tradfri_gateway::Group;
use tradfri_gateway::Light;

fn light_fixture(on: u8) -> Vec<u8> {
    format!(
        "{{\"3\":{{\"0\":\"IKEA\",\"1\":\"bulb E27\",\"3\":\"2.3.086\"}},\
\"3311\":[{{\"5850\":{},\"5851\":100}}],\
\"9001\":\"desk lamp\",\"9002\":1600000000,\"9003\":65568,\"9019\":1,\"9020\":1600001000}}",
        on
    )
    .into_bytes()
}

fn outlet_fixture() -> Vec<u8> {
    b"{\"3\":{\"0\":\"IKEA\",\"1\":\"outlet\",\"3\":\"1.4.020\"},\
\"3312\":[{\"5850\":1,\"5851\":0}],\
\"5750\":3,\"9001\":\"fan plug\",\"9003\":65600}"
        .to_vec()
}

#[test]
fn code_zero_is_a_remote_control() {
    let d = Device::new(b"{\"5750\":0}").expect("a remote control needs no further members");
    assert!(matches!(d, Device::RemoteControl));
}

#[test]
fn code_two_is_a_light() {
    let mut payload = light_fixture(0);
    payload.splice(1..1, b"\"5750\":2,".iter().copied());
    let d = Device::new(&payload).expect("light fixture must decode");
    match d {
        Device::Light(l) => {
            assert_eq!(l.id, 65568);
            assert_eq!(l.name, "desk lamp");
            assert!(l.reachable);
            assert_eq!(l.bulbs.len(), 1);
            assert!(!l.is_on());
        }
        _ => panic!("device type 2 is a light"),
    }
}

#[test]
fn code_three_is_a_control_outlet() {
    let d = Device::new(&outlet_fixture()).expect("outlet fixture must decode");
    match d {
        Device::ControlOutlet(o) => {
            assert_eq!(o.id, 65600);
            assert_eq!(o.name, "fan plug");
            assert_eq!(o.outlets.len(), 1);
            assert_eq!(o.outlets[0].state, 1);
        }
        _ => panic!("device type 3 is a control outlet"),
    }
}

#[test]
fn other_codes_are_unsupported() {
    match Device::new(b"{\"5750\":7}") {
        Err(DeviceError::UnsupportedDevice(7)) => (),
        other => panic!("code 7 must be refused as unsupported, got {:?}", other),
    }
    match Device::new(b"{\"5750\":4096}") {
        Err(DeviceError::UnsupportedDevice(4096)) => (),
        other => panic!("code 4096 must be refused as unsupported, got {:?}", other),
    }
}

#[test]
fn missing_discriminator_is_a_decode_error() {
    match Device::new(b"{\"9003\":1}") {
        Err(DeviceError::SerdeError(_, raw)) => assert_eq!(raw, "{\"9003\":1}"),
        other => panic!("a payload without a device type must fail decode, got {:?}", other),
    }
}

#[test]
fn light_decodes_and_reports_timestamps() {
    let l = Light::new(&light_fixture(1)).expect("light fixture must decode");
    assert!(l.is_on());
    assert_eq!(l.creation_date, 1_600_000_000);
    let civil = l.creation_time();
    assert_eq!(civil.year, 2020);
    assert_eq!(civil.month, 9);
    assert_eq!(civil.day, 13);
    assert_eq!(l.info.manufacturer, "IKEA");
}

#[test]
fn group_decodes_from_its_payload() {
    let g = Group::new(
        b"{\"5850\":1,\"5851\":128,\"9001\":\"den\",\"9002\":1600000000,\"9003\":131073,\"9018\":{}}",
    )
    .expect("group fixture must decode");
    assert!(g.on);
    assert_eq!(g.brightness, 128);
    assert_eq!(g.name, "den");
    assert_eq!(g.id, 131073);
}

#[test]
fn group_with_bad_boolean_fails_decode() {
    assert!(Group::new(
        b"{\"5850\":3,\"5851\":128,\"9001\":\"den\",\"9002\":1,\"9003\":131073,\"9018\":{}}"
    )
    .is_err());
}

#[test]
fn refreshing_a_light_from_another_device_kind_is_refused() {
    let mut light = Light::new(&light_fixture(1)).expect("light fixture must decode");
    let before = light.clone();
    match light.absorb(Device::RemoteControl) {
        Err(DeviceError::ExpectedDeviceType(kind)) => assert_eq!(kind, "Light"),
        _ => panic!("absorbing a remote control into a light must be refused"),
    }
    assert_eq!(light, before);
}

#[test]
fn optional_colour_members_are_kept_when_present() {
    let j = tradfri_gateway::json_text::parse_json(
        b"{\"5706\":\"efd275\",\"5707\":123,\"5708\":456,\"5711\":370,\"5850\":0,\"5851\":50}",
    )
    .unwrap();
    match tradfri_gateway::BulbParsed::parse(&j).expect("cold/warm fixture must decode") {
        tradfri_gateway::BulbParsed::BulbColdWarmHex(c) => {
            assert_eq!(c.hue, Some(123));
            assert_eq!(c.saturation, Some(456));
            assert_eq!(c.color_temperature, Some(370));
            assert!(!c.on);
        }
        _ => panic!("hue and saturation select the cold/warm shape"),
    }
}

#[test]
fn group_names_keep_their_unicode() {
    let payload = "{\"5850\":1,\"5851\":128,\"9001\":\"K\u{fc}che\",\"9002\":1,\"9003\":131073,\"9018\":{}}";
    let g = Group::new(payload.as_bytes()).expect("a group named with an umlaut must decode");
    assert_eq!(g.name, "K\u{fc}che");
}

#[test]
fn lossy_raw_text_replaces_invalid_bytes() {
    match Device::new(b"\xff") {
        Err(DeviceError::SerdeError(_, raw)) => assert_eq!(raw, "\u{fffd}"),
        other => panic!("an invalid byte must fail decode, got {:?}", other),
    }
}
