use vstd::prelude::*;

use crate::json::Json;
use crate::json::JsonV;
use crate::json_text::ser_json;
use crate::json_text::spec_parse_json;
use crate::json_text::to_bytes;
use crate::tradfri_coap::Error;

verus! {

/// The one-shot exchange that trades a human-entered pairing code for a
/// durable pre-shared secret. The pairing code itself keys the channel of
/// the exchange; the functions here build and read its payloads.
pub struct TradfriAuthenticator;

/// The body of an authentication response: member `9091` carries the
/// issued permanent secret.
pub open spec fn spec_auth_secret(bytes: Seq<u8>) -> Result<Seq<char>, ()> {
    match spec_parse_json(bytes) {
        Some(j) => j.req_str("9091"@),
        None => Err(()),
    }
}

impl TradfriAuthenticator {
    /// The fixed resource path of the authentication exchange.
    pub fn authentication_path() -> (r: String)
        ensures
            r@ == "15011/9063"@,
    {
        String::from_str("15011/9063")
    }

    /// The request body that asks the gateway to issue a permanent secret
    /// for the named client identifier: `9090` carries the identifier.
    pub fn auth_request_payload(identifier: &String) -> (r: Vec<u8>)
        ensures
            r@ == ser_json(JsonV::Obj(seq![("9090"@, JsonV::Str(identifier@))])),
    {
        let mut fields: Vec<(String, Json)> = Vec::new();
        fields.push((String::from_str("9090"), Json::Str(identifier.clone())));
        proof {
            crate::json::lemma_view_fields(fields@, 1);
            assert(crate::json::view_fields(fields@, 1) =~= seq![
                ("9090"@, JsonV::Str(identifier@)),
            ]);
        }
        let j = Json::Obj(fields);
        to_bytes(&j)
    }

    /// Reads the issued secret out of the authentication response body;
    /// a malformed or missing member is an authentication failure.
    pub fn parse_auth_response(payload: &[u8]) -> (r: Result<String, Error>)
        ensures
            match r {
                Ok(s) => spec_auth_secret(payload@) == Ok::<Seq<char>, ()>(s@),
                Err(_) => spec_auth_secret(payload@) is Err,
            },
    {
        match crate::json_text::parse_json(payload) {
            Some(j) => match j.req_str("9091") {
                Ok(s) => Ok(s.clone()),
                Err(_) => Err(Error::new("authentication response carries no secret")),
            },
            None => Err(Error::new("authentication response is not a resource object")),
        }
    }
}

} // verus!
