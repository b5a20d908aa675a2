use vstd::prelude::*;

verus! {

/// The request methods the protocol uses.
#[derive(Clone, Copy, PartialEq, Eq, Structural, Debug)]
pub enum Method {
    Get,
    Put,
    Post,
}

/// The CoAP frame that carries a request: the wire format is the message
/// library's; the frame is a function of the request's parts alone, or
/// nothing where the library refuses to serialize (an oversized message).
pub uninterp spec fn coap_request_frame(
    path: Seq<char>,
    method: Method,
    message_id: u16,
    payload: Seq<u8>,
) -> Option<Seq<u8>>;

/// Relies on coap_lite's CoapRequest and Packet::to_bytes: builds a request
/// carrying the method, the Uri-Path segments of `path`, the message
/// identifier and the payload, and serializes it to the CoAP wire format.
#[verifier::external_body]
pub fn coap_encode_request(path: &str, method: Method, message_id: u16, payload: Vec<u8>) -> (r:
    Option<Vec<u8>>)
    ensures
        r is Some <==> coap_request_frame(path@, method, message_id, payload@) is Some,
        r matches Some(b) ==> coap_request_frame(path@, method, message_id, payload@) == Some(b@),
{
    let mut req: coap_lite::CoapRequest<()> = coap_lite::CoapRequest::new();
    req.set_method(match method {
        Method::Get => coap_lite::RequestType::Get,
        Method::Put => coap_lite::RequestType::Put,
        Method::Post => coap_lite::RequestType::Post,
    });
    req.set_path(path);
    req.message.header.message_id = message_id;
    req.message.payload = payload;
    req.message.to_bytes().ok()
}

/// The response code byte and payload of a CoAP frame, or nothing where
/// the bytes are not a CoAP message.
pub uninterp spec fn coap_response_parts(bytes: Seq<u8>) -> Option<(u8, Seq<u8>)>;

/// Relies on coap_lite's Packet::from_bytes: decodes a CoAP message and
/// hands back its code byte and its payload.
#[verifier::external_body]
pub fn coap_decode_response(bytes: &[u8]) -> (r: Option<(u8, Vec<u8>)>)
    ensures
        r is Some <==> coap_response_parts(bytes@) is Some,
        r matches Some((code, payload)) ==> coap_response_parts(bytes@) == Some((code, payload@)),
{
    match coap_lite::Packet::from_bytes(bytes) {
        Ok(p) => Some((u8::from(p.header.code), p.payload)),
        Err(_) => None,
    }
}

/// Whether a response code byte names a success: the codes of class 2.
pub fn code_is_success(code: u8) -> (r: bool)
    ensures
        r == (0x40 <= code < 0x60),
{
    0x40 <= code && code < 0x60
}

} // verus!
