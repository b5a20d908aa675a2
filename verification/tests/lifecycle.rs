use tradfri_gateway::Device;
use tradfri_gateway::TradfriGateway;
use tradfri_gateway::TradfriGatewayError;
use tradfri_gateway::gateway::decode_id_list;
use tradfri_gateway::gateway::is_gateway_hostname;
use tradfri_gateway::tradfri_coap::Error;
use tradfri_gateway::tradfri_coap::codec::Method;
use tradfri_gateway::tradfri_coap::authenticator::TradfriAuthenticator;

fn light_payload(on: u8) -> Vec<u8> {
    format!(
        "{{\"3\":{{\"0\":\"IKEA\",\"1\":\"bulb E27\",\"3\":\"2.3.086\"}},\
\"3311\":[{{\"5850\":{},\"5851\":100}}],\"5750\":2,\
\"9001\":\"desk lamp\",\"9002\":1600000000,\"9003\":65568,\"9019\":1,\"9020\":1600001000}}",
        on
    )
    .into_bytes()
}

#[test]
fn pairing_runs_through_the_three_stages() {
    let client = TradfriGateway::from_gateway_code_and_addr(
        "192.168.0.14".to_string(),
        "pairing-code-under-the-gateway",
        123,
    );
    assert_eq!(client.state.identifier, "user123");
    let with_credentials = client
        .apply_authentication(Ok("issued-secret".to_string()))
        .expect("an issued secret yields the credentialed client");
    assert_eq!(with_credentials.state.identifier, "user123");
    assert_eq!(with_credentials.state.session_key, "issued-secret");
    let connected = with_credentials
        .apply_session(Ok(()))
        .expect("an open channel yields the connected client");
    assert_eq!(connected.address, "192.168.0.14");
    assert_eq!(connected.state.session_key, "issued-secret");
}

#[test]
fn failed_authentication_is_a_typed_error() {
    let client = TradfriGateway::from_gateway_code_and_addr(
        "192.168.0.14".to_string(),
        "pairing-code-under-the-gateway",
        5,
    );
    match client.apply_authentication(Err(Error::new("handshake refused"))) {
        Err(TradfriGatewayError::CoapError(e)) => {
            assert_eq!(e.message(), "handshake refused");
        }
        _ => panic!("a failed exchange must yield the protocol error"),
    }
}

#[test]
fn failed_session_open_is_a_typed_error() {
    let c = TradfriGateway::from_identifier_and_session_key_and_addr(
        "192.168.0.14".to_string(),
        "user123",
        "issued-secret",
    );
    match c.apply_session(Err(Error::new("timed out"))) {
        Err(TradfriGatewayError::CoapError(e)) => assert_eq!(e.message(), "timed out"),
        _ => panic!("a failed open must yield the protocol error"),
    }
}

#[test]
fn end_to_end_listing_fetch_and_switch_on() {
    // Connect with a pre-shared identifier and secret.
    let connected = TradfriGateway::from_identifier_and_session_key_and_addr(
        "192.168.0.14".to_string(),
        "user123",
        "issued-secret",
    )
    .apply_session(Ok(()))
    .expect("an open channel yields the connected client");

    // The gateway answers the device listing.
    let listing = connected.device_list_request();
    assert_eq!(listing.path, "15001");
    assert!(matches!(listing.method, Method::Get));
    let ids = decode_id_list(b"[65537,65568]").expect("listing payload must decode");
    assert_eq!(ids, vec![65537, 65568]);

    // Fetching the second id yields a light with one driver bulb, off.
    let fetch = connected.device_request(65568);
    assert_eq!(fetch.path, "15001/65568");
    let device = Device::new(&light_payload(0)).expect("fetched payload must decode");
    let mut light = match device {
        Device::Light(l) => *l,
        _ => panic!("id 65568 resolves to a light"),
    };
    assert!(!light.is_on());

    // Switching it on sends a PUT with only the on/off member set.
    let update = light.on_update();
    let put = connected.update_device_request(light.id, &update);
    assert_eq!(put.path, "15001/65568");
    assert!(matches!(put.method, Method::Put));
    assert_eq!(put.payload, b"{\"3311\":[{\"5850\":1}]}".to_vec());

    // The refreshed state reports the light as on.
    let refreshed = Device::new(&light_payload(1)).expect("refreshed payload must decode");
    light.absorb(refreshed).expect("the refreshed device is still a light");
    assert!(light.is_on());
}

#[test]
fn applying_an_update_twice_changes_nothing_more() {
    let mut once = match Device::new(&light_payload(0)).unwrap() {
        Device::Light(l) => *l,
        _ => panic!("fixture is a light"),
    };
    let update = once.on_update();
    once.apply_update(&update);
    let mut twice = once.clone();
    twice.apply_update(&update);
    assert_eq!(once, twice);
    assert!(once.is_on());
}

#[test]
fn group_update_application_is_idempotent() {
    let mut g = tradfri_gateway::Group::new(
        b"{\"5850\":0,\"5851\":10,\"9001\":\"den\",\"9002\":1,\"9003\":131073,\"9018\":{}}",
    )
    .unwrap();
    let u = g.on_update();
    g.apply_update(&u);
    let once = g.clone();
    g.apply_update(&u);
    assert_eq!(g, once);
    assert!(g.on);
}

#[test]
fn group_requests_use_their_resource_paths() {
    let connected = TradfriGateway::from_identifier_and_session_key_and_addr(
        "192.168.0.14".to_string(),
        "user123",
        "issued-secret",
    )
    .apply_session(Ok(()))
    .unwrap();
    assert_eq!(connected.group_list_request().path, "15004");
    assert_eq!(connected.group_request(131073).path, "15004/131073");
    let g = tradfri_gateway::Group::new(
        b"{\"5850\":0,\"5851\":10,\"9001\":\"den\",\"9002\":1,\"9003\":131073,\"9018\":{}}",
    )
    .unwrap();
    let put = connected.update_group_request(g.id, &g.off_update());
    assert_eq!(put.path, "15004/131073");
    assert_eq!(put.payload, b"{\"5850\":0}".to_vec());
}

#[test]
fn authentication_payloads_are_exact() {
    assert_eq!(TradfriAuthenticator::authentication_path(), "15011/9063");
    let body = TradfriAuthenticator::auth_request_payload(&"user123".to_string());
    assert_eq!(body, b"{\"9090\":\"user123\"}".to_vec());
    let secret = TradfriAuthenticator::parse_auth_response(b"{\"9091\":\"issued-secret\"}")
        .expect("a response with the secret member must parse");
    assert_eq!(secret, "issued-secret");
    assert!(TradfriAuthenticator::parse_auth_response(b"{\"9090\":\"x\"}").is_err());
    assert!(TradfriAuthenticator::parse_auth_response(b"nonsense").is_err());
}

#[test]
fn bad_listing_payloads_fail_decode() {
    assert!(decode_id_list(b"{\"0\":1}").is_err());
    assert!(decode_id_list(b"[1,\"2\"]").is_err());
    assert!(decode_id_list(b"[4294967296]").is_err());
    assert_eq!(decode_id_list(b"[]").unwrap(), Vec::<u32>::new());
}

#[test]
fn discovery_recognizes_the_gateway_by_name() {
    assert!(is_gateway_hostname("TRADFRI-Gateway-a1b2c3.local."));
    assert!(!is_gateway_hostname("chromecast.local."));
    assert!(!is_gateway_hostname("TRADFRI"));
}

#[test]
fn generated_identifiers_carry_the_clock() {
    assert_eq!(TradfriGateway::<tradfri_gateway::WithCode>::generate_identifier(0), "user0");
    assert_eq!(
        TradfriGateway::<tradfri_gateway::WithCode>::generate_identifier(1699999999),
        "user1699999999"
    );
}
