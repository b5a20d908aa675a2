use tradfri_gateway::serialization::bool_from_int;
use tradfri_gateway::tradfri_coap::device::colournames::ColourName;
use tradfri_gateway::serialization::int_from_bool;
use tradfri_gateway::serialization::option_bool_from_int;
use tradfri_gateway::serialization::option_int_from_bool;
use tradfri_gateway::tradfri_coap::BUF_SIZE;
use tradfri_gateway::tradfri_coap::codec::Method;
use tradfri_gateway::tradfri_coap::codec::coap_decode_response;
use tradfri_gateway::tradfri_coap::codec::coap_encode_request;
use tradfri_gateway::tradfri_coap::codec::code_is_success;
use tradfri_gateway::tradfri_coap::connection::connection_settings;
use tradfri_gateway::udp_dtls::ConnectorIdentity;
use tradfri_gateway::udp_dtls::DtlsConnector;
use tradfri_gateway::udp_dtls::Protocol;
use tradfri_gateway::udp_dtls::PskIdentity;
use tradfri_gateway::udp_dtls::try_set_supported_protocols;

#[test]
fn boolean_wire_law() {
    assert_eq!(bool_from_int(0), Some(false));
    assert_eq!(bool_from_int(1), Some(true));
    assert_eq!(bool_from_int(2), None);
    assert_eq!(bool_from_int(255), None);
    assert_eq!(int_from_bool(false), 0);
    assert_eq!(int_from_bool(true), 1);
    assert_eq!(option_bool_from_int(None), Some(None));
    assert_eq!(option_bool_from_int(Some(1)), Some(Some(true)));
    assert_eq!(option_bool_from_int(Some(9)), None);
    assert_eq!(option_int_from_bool(&Some(true)), Some(1));
    assert_eq!(option_int_from_bool(&None), None);
}

#[test]
fn request_frames_round_trip_through_the_message_library() {
    let payload = b"{\"3311\":[{\"5850\":1}]}".to_vec();
    let frame = coap_encode_request("15001/65568", Method::Put, 7, payload.clone())
        .expect("a small request must serialize");
    let packet = coap_lite::Packet::from_bytes(&frame).expect("own frame must parse");
    assert_eq!(packet.header.message_id, 7);
    assert_eq!(packet.payload, payload);
    let req: coap_lite::CoapRequest<()> = {
        let mut r = coap_lite::CoapRequest::new();
        r.message = packet;
        r
    };
    assert_eq!(req.get_path(), "15001/65568");
    assert!(matches!(req.get_method(), coap_lite::RequestType::Put));
}

#[test]
fn response_frames_decode_to_code_and_payload() {
    let mut packet = coap_lite::Packet::new();
    packet.header.code =
        coap_lite::MessageClass::Response(coap_lite::ResponseType::Content);
    packet.payload = b"[65537,65568]".to_vec();
    let bytes = packet.to_bytes().unwrap();
    let (code, payload) = coap_decode_response(&bytes).expect("a response frame must decode");
    assert_eq!(code, 0x45);
    assert!(code_is_success(code));
    assert_eq!(payload, b"[65537,65568]".to_vec());
    assert!(!code_is_success(0x84));
    assert!(coap_decode_response(b"x").is_none());
}

#[test]
fn receive_buffer_bounds_one_frame() {
    assert_eq!(BUF_SIZE, 8192);
}

#[test]
fn epoch_conversion_matches_the_calendar() {
    let epoch_group = tradfri_gateway::Group::new(
        b"{\"5850\":0,\"5851\":0,\"9001\":\"a\",\"9002\":0,\"9003\":1,\"9018\":{}}",
    )
    .unwrap();
    let origin = epoch_group.creation_time();
    assert_eq!(
        (origin.year, origin.month, origin.day, origin.hour, origin.minute, origin.second),
        (1970, 1, 1, 0, 0, 0)
    );
    let later_group = tradfri_gateway::Group::new(
        b"{\"5850\":0,\"5851\":0,\"9001\":\"a\",\"9002\":90061,\"9003\":1,\"9018\":{}}",
    )
    .unwrap();
    let later = later_group.creation_time();
    assert_eq!(
        (later.year, later.month, later.day, later.hour, later.minute, later.second),
        (1970, 1, 2, 1, 1, 1)
    );
}

#[test]
fn version_pinning_flags_follow_the_bounds() {
    let pinned = try_set_supported_protocols(Some(Protocol::Dtlsv12), Some(Protocol::Dtlsv12));
    assert!(pinned.no_dtlsv1);
    assert!(!pinned.no_dtlsv1_2);
    let old_only = try_set_supported_protocols(None, Some(Protocol::Dtlsv10));
    assert!(!old_only.no_dtlsv1);
    assert!(old_only.no_dtlsv1_2);
    let open = try_set_supported_protocols(None, None);
    assert!(!open.no_dtlsv1 && !open.no_dtlsv1_2);
}

#[test]
fn psk_identities_keep_their_bytes() {
    let id = PskIdentity::new(b"Client_identity", b"pairing-code");
    assert_eq!(id.0, b"Client_identity".to_vec());
    assert_eq!(id.1, b"pairing-code".to_vec());
    let ConnectorIdentity::Psk(inner) = ConnectorIdentity::Psk(id);
    assert_eq!(inner.0, b"Client_identity".to_vec());
}

#[test]
fn compact_light_and_outlet_payload_builders() {
    let j = tradfri_gateway::json_text::parse_json(
        b"{\"3\":{\"0\":\"IKEA\",\"1\":\"bulb\",\"3\":\"1.0\"},\
\"3311\":[{\"5850\":1,\"5851\":200,\"5706\":\"f5faf6\"}],\"9001\":\"lamp\",\"9003\":65568}",
    )
    .unwrap();
    let light = tradfri_gateway::tradfri_coap::device::light::Light::new(&j)
        .expect("compact light fixture must decode");
    assert_eq!(light.lights[0].colour_name, ColourName::CoolWhite);
    assert_eq!(light.lights[0].colour_x, 0);
    assert_eq!(light.on(), b"{\"3311\":[{\"5850\":1}]}".to_vec());
    assert_eq!(light.off(), b"{\"3311\":[{\"5850\":0}]}".to_vec());
    assert_eq!(light.dim(42), b"{\"3311\":[{\"5851\":42}]}".to_vec());
    assert_eq!(
        light.colour(ColourName::Peach),
        b"{\"3311\":[{\"5706\":\"e57345\"}]}".to_vec()
    );
    assert_eq!(
        light.colour_xy(100, 200),
        b"{\"3311\":[{\"5709\":100,\"5710\":200}]}".to_vec()
    );

    let oj = tradfri_gateway::json_text::parse_json(
        b"{\"3\":{\"0\":\"IKEA\",\"1\":\"outlet\",\"3\":\"1.0\"},\
\"3312\":[{\"5850\":0,\"5851\":0}],\"9001\":\"plug\",\"9003\":65600}",
    )
    .unwrap();
    let outlet = tradfri_gateway::tradfri_coap::device::outlet::Outlet::new(&oj)
        .expect("compact outlet fixture must decode");
    assert_eq!(outlet.on(), b"{\"3311\":[{\"5850\":1}]}".to_vec());
    assert_eq!(outlet.outlets[0].dimmer, 0);
}

#[test]
fn unknown_colour_words_default_in_the_compact_schema() {
    let j = tradfri_gateway::json_text::parse_json(b"{\"5850\":1,\"5851\":1,\"5706\":\"zz\"}")
        .unwrap();
    let s = tradfri_gateway::tradfri_coap::device::light::LightState::parse(&j).unwrap();
    assert_eq!(s.colour_name, ColourName::WarmGlow);
    assert_eq!(s.colour_name, ColourName::default());
}

#[test]
fn connector_settings_assemble_like_the_session_uses_them() {
    let connector = DtlsConnector::builder()
        .danger_accept_invalid_certs(true)
        .danger_accept_invalid_hostnames(true)
        .use_sni(false)
        .add_cipher("PSK-AES128-CCM8")
        .identity(ConnectorIdentity::Psk(PskIdentity::new(b"user123", b"issued-secret")))
        .min_protocol_version(Some(Protocol::Dtlsv12))
        .max_protocol_version(Some(Protocol::Dtlsv12))
        .build();
    assert!(connector.settings.accept_invalid_certs);
    assert!(!connector.settings.use_sni);
    assert_eq!(connector.settings.cipher_list, vec!["PSK-AES128-CCM8".to_string()]);
    let options = connector.protocol_options();
    assert!(options.no_dtlsv1);
    assert!(!options.no_dtlsv1_2);
}

#[test]
fn session_settings_pin_the_psk_configuration() {
    let c = connection_settings(b"user123", b"issued-secret");
    assert!(matches!(
        &c.settings.identity,
        Some(ConnectorIdentity::Psk(p)) if p.0 == b"user123".to_vec() && p.1 == b"issued-secret".to_vec()
    ));
    assert_eq!(c.settings.min_protocol, Some(Protocol::Dtlsv12));
    assert_eq!(c.settings.max_protocol, Some(Protocol::Dtlsv12));
    assert!(!c.settings.use_sni);
    assert!(c.settings.accept_invalid_certs && c.settings.accept_invalid_hostnames);
    assert_eq!(c.settings.cipher_list, vec!["PSK-AES128-CCM8".to_string()]);
}
