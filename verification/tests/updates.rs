use tradfri_gateway::BulbColdWarmHexUpdate;
use tradfri_gateway::BulbRgbXYUpdate;
use tradfri_gateway::BulbUpdate;
use tradfri_gateway::ColdWarmColor;
use tradfri_gateway::DeviceUpdate;
use tradfri_gateway::DriverUpdate;
use tradfri_gateway::RgbColor;
use tradfri_gateway::GroupUpdate;

fn full_driver() -> DriverUpdate {
    DriverUpdate { transition_time: Some(5), on: Some(true), brightness: Some(200) }
}

fn full_cold_warm() -> BulbColdWarmHexUpdate {
    BulbColdWarmHexUpdate {
        color_hex: Some(ColdWarmColor::Warm),
        hue: Some(1),
        saturation: Some(2),
        color_temperature: Some(3),
        transition_time: Some(4),
        on: Some(false),
        brightness: Some(7),
    }
}

fn full_rgb() -> BulbRgbXYUpdate {
    BulbRgbXYUpdate {
        color_hex: Some(RgbColor::Peach),
        hue: Some(1),
        saturation: Some(2),
        color_x: Some(30000),
        color_y: Some(27000),
        color_temperature: Some(3),
        transition_time: Some(4),
        on: Some(true),
        brightness: Some(254),
    }
}

#[test]
fn fully_set_updates_round_trip_through_their_payloads() {
    for u in [
        BulbUpdate::DriverUpdate(full_driver()),
        BulbUpdate::BulbColdWarmHexUpdate(full_cold_warm()),
        BulbUpdate::BulbRgbXYUpdate(full_rgb()),
    ] {
        let d = DeviceUpdate::BulbUpdate { bulbs: vec![u] };
        let payload = d.to_payload();
        let back = DeviceUpdate::from_payload(&payload).expect("own payload must decode");
        assert_eq!(back, d);
    }
}

#[test]
fn unset_updates_serialize_to_empty_objects() {
    let d = DeviceUpdate::BulbUpdate { bulbs: vec![BulbUpdate::DriverUpdate(DriverUpdate::unset())] };
    assert_eq!(d.to_payload(), b"{\"3311\":[{}]}".to_vec());
    assert_eq!(
        DeviceUpdate::BulbUpdate { bulbs: vec![] }.to_payload(),
        b"{\"3311\":[]}".to_vec()
    );
}

#[test]
fn driver_update_emits_only_set_members() {
    let d = DeviceUpdate::BulbUpdate {
        bulbs: vec![BulbUpdate::DriverUpdate(DriverUpdate {
            transition_time: None,
            on: Some(true),
            brightness: None,
        })],
    };
    assert_eq!(d.to_payload(), b"{\"3311\":[{\"5850\":1}]}".to_vec());
    let off = DeviceUpdate::BulbUpdate {
        bulbs: vec![BulbUpdate::DriverUpdate(DriverUpdate {
            transition_time: None,
            on: Some(false),
            brightness: None,
        })],
    };
    assert_eq!(off.to_payload(), b"{\"3311\":[{\"5850\":0}]}".to_vec());
}

#[test]
fn group_update_round_trips_and_omits_unset_members() {
    let u = GroupUpdate {
        transition_time: Some(10),
        on: Some(true),
        brightness: Some(128),
        name: Some("den".to_string()),
        creation_date: Some(1_700_000_000),
        id: Some(131073),
        scene_id: Some(9),
    };
    let payload = u.to_payload();
    let back = GroupUpdate::from_payload(&payload).expect("own payload must decode");
    assert_eq!(back, u);

    assert_eq!(GroupUpdate::unset().to_payload(), b"{}".to_vec());
    let only_on = GroupUpdate { on: Some(false), ..GroupUpdate::unset() };
    assert_eq!(only_on.to_payload(), b"{\"5850\":0}".to_vec());
}

#[test]
fn group_rename_with_unicode_round_trips() {
    let u = GroupUpdate { name: Some("K\u{fc}che \"dim\"".to_string()), ..GroupUpdate::unset() };
    let payload = u.to_payload();
    let back = GroupUpdate::from_payload(&payload).expect("own payload must decode");
    assert_eq!(back, u);
}
