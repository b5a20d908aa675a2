use tradfri_gateway::BulbParsed;
use tradfri_gateway::ColdWarmColor;
use tradfri_gateway::RgbColor;
use tradfri_gateway::json_text::parse_json;

fn parse_bulb(bytes: &[u8]) -> Result<BulbParsed, ()> {
    let j = parse_json(bytes).expect("fixture must be canonical text");
    BulbParsed::parse(&j)
}

#[test]
fn core_only_payload_is_a_driver() {
    let b = parse_bulb(b"{\"5850\":1,\"5851\":100}").expect("driver fixture must decode");
    match b {
        BulbParsed::LedDriver(d) => {
            assert!(d.on);
            assert_eq!(d.brightness, 100);
        }
        _ => panic!("a payload with only the core members is a driver"),
    }
    assert!(b.is_on());
}

#[test]
fn colour_word_makes_it_cold_warm() {
    let b = parse_bulb(b"{\"5706\":\"f5faf6\",\"5850\":1,\"5851\":100}")
        .expect("cold/warm fixture must decode");
    match b {
        BulbParsed::BulbColdWarmHex(c) => {
            assert_eq!(c.color_hex, ColdWarmColor::White);
            assert!(c.on);
            assert_eq!(c.brightness, 100);
            assert_eq!(c.hue, None);
        }
        _ => panic!("a payload with the colour word is a cold/warm bulb"),
    }
}

#[test]
fn chromaticity_makes_it_rgb_never_plainer() {
    let b = parse_bulb(b"{\"5706\":\"f5faf6\",\"5709\":100,\"5710\":200,\"5850\":1,\"5851\":100}")
        .expect("full-colour fixture must decode");
    match b {
        BulbParsed::BulbRgbXY(r) => {
            assert_eq!(r.color_hex, RgbColor::CoolWhite);
            assert_eq!(r.color_x, 100);
            assert_eq!(r.color_y, 200);
            assert!(r.on);
        }
        _ => panic!("a payload with chromaticity members is a full-colour bulb"),
    }
}

#[test]
fn chromaticity_without_colour_word_fails() {
    assert!(parse_bulb(b"{\"5709\":100,\"5710\":200,\"5850\":1,\"5851\":100}").is_err());
}

#[test]
fn wire_boolean_other_than_zero_or_one_fails() {
    assert!(parse_bulb(b"{\"5850\":2,\"5851\":100}").is_err());
    assert!(parse_bulb(b"{\"5850\":255,\"5851\":100}").is_err());
}

#[test]
fn unknown_colour_word_fails() {
    assert!(parse_bulb(b"{\"5706\":\"000000\",\"5850\":1,\"5851\":100}").is_err());
}

#[test]
fn colour_palettes_round_trip_through_their_words() {
    let cold = [
        ColdWarmColor::Glow,
        ColdWarmColor::Warm,
        ColdWarmColor::LightWarm,
        ColdWarmColor::LightWhite,
        ColdWarmColor::White,
    ];
    for c in cold {
        assert_eq!(ColdWarmColor::from_hex(&c.hex()), Some(c));
    }
    assert_eq!(RgbColor::from_hex(&RgbColor::Lime.hex()), Some(RgbColor::Lime));
    assert_eq!(ColdWarmColor::from_hex(&"banana".to_string()), None);
}
