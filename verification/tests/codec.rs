use tradfri_gateway::json::Json;
use tradfri_gateway::json_text::parse_json;
use tradfri_gateway::json_text::to_bytes;

fn obj(fields: Vec<(&str, Json)>) -> Json {
    Json::Obj(fields.into_iter().map(|(k, v)| (k.to_string(), v)).collect())
}

#[test]
fn serializes_numbers_strings_arrays_objects() {
    let j = obj(vec![
        ("9001", Json::Str("kitchen".to_string())),
        ("9003", Json::Num(65537)),
        ("3311", Json::Arr(vec![Json::Num(0), Json::Num(254)])),
    ]);
    let bytes = to_bytes(&j);
    assert_eq!(
        String::from_utf8(bytes).unwrap(),
        "{\"9001\":\"kitchen\",\"9003\":65537,\"3311\":[0,254]}"
    );
}

#[test]
fn serializes_zero_and_empty_containers() {
    assert_eq!(to_bytes(&Json::Num(0)), b"0".to_vec());
    assert_eq!(to_bytes(&Json::Arr(vec![])), b"[]".to_vec());
    assert_eq!(to_bytes(&Json::Obj(vec![])), b"{}".to_vec());
}

#[test]
fn parses_what_it_serializes() {
    let j = obj(vec![
        ("5850", Json::Num(1)),
        ("5851", Json::Num(100)),
        ("5706", Json::Str("f5faf6".to_string())),
    ]);
    let bytes = to_bytes(&j);
    let back = parse_json(&bytes).expect("canonical text must parse");
    let again = to_bytes(&back);
    assert_eq!(again, bytes);
}

#[test]
fn rejects_malformed_texts() {
    assert!(parse_json(b"").is_none());
    assert!(parse_json(b"01").is_none());
    assert!(parse_json(b"{\"5850\":1").is_none());
    assert!(parse_json(b"[1,]").is_none());
    assert!(parse_json(b"true").is_none());
    assert!(parse_json(b"1 2").is_none());
    assert!(parse_json(b"\"unterminated").is_none());
    assert!(parse_json(b"18446744073709551616").is_none());
    assert!(parse_json(b"\"\x01\"").is_none());
    assert!(parse_json(b"\"\\q\"").is_none());
    assert!(parse_json(b"\"\xff\xff\"").is_none());
    assert!(parse_json(b"\"\\ud83d\"").is_none());
}

#[test]
fn tolerates_whitespace_between_tokens() {
    let j = parse_json(b"{ \"3311\": [ { \"5850\": 1 , \"5851\": 254 } ] }\n")
        .expect("a spaced payload must parse");
    assert_eq!(to_bytes(&j), b"{\"3311\":[{\"5850\":1,\"5851\":254}]}".to_vec());
    let n = parse_json(b"  42  ").expect("a spaced number must parse");
    assert_eq!(to_bytes(&n), b"42".to_vec());
}

#[test]
fn strings_carry_utf8_and_escapes() {
    // A name with an umlaut arrives as raw UTF-8 and survives the trip.
    let j = parse_json("{\"9001\":\"K\u{fc}che\"}".as_bytes())
        .expect("a name with an umlaut must parse");
    match &j {
        Json::Obj(fields) => assert_eq!(fields[0].1, Json::Str("K\u{fc}che".to_string())),
        _ => panic!("expected an object"),
    }
    assert_eq!(to_bytes(&j), "{\"9001\":\"K\u{fc}che\"}".as_bytes().to_vec());

    // Escaped quotes, backslashes and scalar escapes decode.
    let e = parse_json(b"\"a\\\"b\\\\c\\u00fcd\\ud83d\\ude00\"")
        .expect("escapes must parse");
    assert_eq!(e, Json::Str("a\"b\\c\u{fc}d\u{1f600}".to_string()));

    // The serializer escapes what it must and re-parses to the same value.
    let s = Json::Str("say \"hi\"\n\u{7}tab\tdone \u{1f600}".to_string());
    let bytes = to_bytes(&s);
    let back = parse_json(&bytes).expect("own text must parse");
    assert_eq!(back, s);
}

#[test]
fn parses_nested_payloads() {
    let bytes = b"{\"3311\":[{\"5850\":0,\"5851\":254}],\"9003\":65568}";
    let j = parse_json(bytes).expect("payload must parse");
    match &j {
        Json::Obj(fields) => assert_eq!(fields.len(), 2),
        _ => panic!("expected an object"),
    }
    assert_eq!(to_bytes(&j), bytes.to_vec());
}

#[test]
fn parses_number_boundaries() {
    match parse_json(b"18446744073709551615") {
        Some(Json::Num(n)) => assert_eq!(n, u64::MAX),
        _ => panic!("largest wire integer must parse"),
    }
    match parse_json(b"0") {
        Some(Json::Num(0)) => (),
        _ => panic!("zero must parse"),
    }
}
