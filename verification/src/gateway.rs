use vstd::prelude::*;

use crate::device::DeviceUpdate;
use crate::device::spec_enc_device_update;
use crate::json::JsonV;
use crate::json_text::dec_chars;
use crate::json_text::num_string;
use crate::json_text::ser_json;
use crate::json_text::spec_parse_json;
use crate::tradfri_coap::Error;
use crate::tradfri_coap::codec::Method;

verus! {

/// A failure of a gateway operation.
#[derive(Debug)]
pub enum TradfriGatewayError {
    /// A device could not be fetched or decoded: its id and the cause.
    DeviceError(String, String),
    /// A group could not be fetched or decoded: its id and the cause.
    GroupError(String, String),
    /// The request/response protocol failed.
    CoapError(Error),
    /// A response payload did not decode.
    SerdeError(String),
    /// Service discovery failed; the cause as text.
    MdnsError(String),
    /// No gateway answered discovery within its time budget.
    DiscoveryTimeout,
}

/// One protocol request, ready for framing: the resource path, the method
/// and the payload bytes.
pub struct ResourceRequest {
    pub path: String,
    pub method: Method,
    pub payload: Vec<u8>,
}

/// The first lifecycle stage: only a one-time pairing code is held, and no
/// device or group operation is available.
pub struct WithCode {
    pub pairing_code: String,
    pub identifier: String,
}

/// The second lifecycle stage: a durable identifier/secret pair is held,
/// but no session is open yet.
pub struct WithCredentials {
    pub identifier: String,
    pub session_key: String,
}

/// The terminal lifecycle stage: the credentials behind an open session.
/// Only this stage offers the device and group operations.
pub struct Connected {
    pub identifier: String,
    pub session_key: String,
}

/// A client of one gateway, in one of the three lifecycle stages. The
/// stage only ever advances: a pairing code is traded for credentials, the
/// credentials open a session, and a failed session is abandoned rather
/// than reconnected.
pub struct TradfriGateway<S> {
    pub address: String,
    pub state: S,
}

/// The client identifier generated for a fresh pairing: the word `user`
/// followed by the seconds of the clock at generation time.
pub open spec fn spec_generate_identifier(epoch_seconds: u64) -> Seq<char> {
    "user"@ + dec_chars(epoch_seconds as nat)
}

impl TradfriGateway<WithCode> {
    /// Starts the lifecycle from a pairing code and a known address; the
    /// clock seconds seed the generated client identifier.
    pub fn from_gateway_code_and_addr(address: String, gateway_code: &str, epoch_seconds: u64) -> (r:
        TradfriGateway<WithCode>)
        ensures
            r.address == address,
            r.state.pairing_code@ == gateway_code@,
            r.state.identifier@ == spec_generate_identifier(epoch_seconds),
    {
        let identifier = Self::generate_identifier(epoch_seconds);
        TradfriGateway {
            address,
            state: WithCode { pairing_code: String::from_str(gateway_code), identifier },
        }
    }

    /// The generated client identifier for a fresh pairing.
    pub fn generate_identifier(epoch_seconds: u64) -> (r: String)
        ensures
            r@ == spec_generate_identifier(epoch_seconds),
    {
        let digits = num_string(epoch_seconds);
        String::from_str("user").concat(digits.as_str())
    }

    /// Advances the lifecycle with the outcome of the authentication
    /// exchange: an issued secret yields the credentialed client, a failed
    /// exchange yields the protocol error, and nothing in between.
    pub fn apply_authentication(self, outcome: Result<String, Error>) -> (r: Result<
        TradfriGateway<WithCredentials>,
        TradfriGatewayError,
    >)
        ensures
            match outcome {
                Ok(secret) => r matches Ok(g) && g.address == self.address && g.state.identifier
                    == self.state.identifier && g.state.session_key == secret,
                Err(e) => r matches Err(TradfriGatewayError::CoapError(e2)) && e2 == e,
            },
    {
        match outcome {
            Ok(secret) => Ok(
                TradfriGateway {
                    address: self.address,
                    state: WithCredentials {
                        identifier: self.state.identifier,
                        session_key: secret,
                    },
                },
            ),
            Err(e) => Err(TradfriGatewayError::CoapError(e)),
        }
    }
}

impl TradfriGateway<WithCredentials> {
    /// Starts the lifecycle from a durable identifier/secret pair and a
    /// known address, skipping authentication.
    pub fn from_identifier_and_session_key_and_addr(
        address: String,
        identifier: &str,
        session_key: &str,
    ) -> (r: TradfriGateway<WithCredentials>)
        ensures
            r.address == address,
            r.state.identifier@ == identifier@,
            r.state.session_key@ == session_key@,
    {
        TradfriGateway {
            address,
            state: WithCredentials {
                identifier: String::from_str(identifier),
                session_key: String::from_str(session_key),
            },
        }
    }

    /// Advances the lifecycle with the outcome of opening the session: an
    /// open channel yields the connected client, a failure yields the
    /// protocol error, and nothing in between.
    pub fn apply_session(self, opened: Result<(), Error>) -> (r: Result<
        TradfriGateway<Connected>,
        TradfriGatewayError,
    >)
        ensures
            match opened {
                Ok(_) => r matches Ok(g) && g.address == self.address && g.state.identifier
                    == self.state.identifier && g.state.session_key == self.state.session_key,
                Err(e) => r matches Err(TradfriGatewayError::CoapError(e2)) && e2 == e,
            },
    {
        match opened {
            Ok(_) => Ok(
                TradfriGateway {
                    address: self.address,
                    state: Connected {
                        identifier: self.state.identifier,
                        session_key: self.state.session_key,
                    },
                },
            ),
            Err(e) => Err(TradfriGatewayError::CoapError(e)),
        }
    }
}

impl TradfriGateway<Connected> {
    /// The request that enumerates every device id.
    pub fn device_list_request(&self) -> (r: ResourceRequest)
        ensures
            r.path@ == "15001"@,
            r.method == Method::Get,
            r.payload@ == Seq::<u8>::empty(),
    {
        let empty: Vec<u8> = Vec::new();
        proof {
            assert(empty@ =~= Seq::<u8>::empty());
        }
        ResourceRequest { path: String::from_str("15001"), method: Method::Get, payload: empty }
    }

    /// The request that enumerates every group id.
    pub fn group_list_request(&self) -> (r: ResourceRequest)
        ensures
            r.path@ == "15004"@,
            r.method == Method::Get,
            r.payload@ == Seq::<u8>::empty(),
    {
        let empty: Vec<u8> = Vec::new();
        proof {
            assert(empty@ =~= Seq::<u8>::empty());
        }
        ResourceRequest { path: String::from_str("15004"), method: Method::Get, payload: empty }
    }

    /// The request that fetches one device by id.
    pub fn device_request(&self, id: u32) -> (r: ResourceRequest)
        ensures
            r.path@ == "15001/"@ + dec_chars(id as nat),
            r.method == Method::Get,
            r.payload@ == Seq::<u8>::empty(),
    {
        let digits = num_string(id as u64);
        let empty: Vec<u8> = Vec::new();
        proof {
            assert(empty@ =~= Seq::<u8>::empty());
        }
        ResourceRequest {
            path: String::from_str("15001/").concat(digits.as_str()),
            method: Method::Get,
            payload: empty,
        }
    }

    /// The request that fetches one group by id.
    pub fn group_request(&self, id: u32) -> (r: ResourceRequest)
        ensures
            r.path@ == "15004/"@ + dec_chars(id as nat),
            r.method == Method::Get,
            r.payload@ == Seq::<u8>::empty(),
    {
        let digits = num_string(id as u64);
        let empty: Vec<u8> = Vec::new();
        proof {
            assert(empty@ =~= Seq::<u8>::empty());
        }
        ResourceRequest {
            path: String::from_str("15004/").concat(digits.as_str()),
            method: Method::Get,
            payload: empty,
        }
    }

    /// The mutation request that applies a sparse update to one device.
    pub fn update_device_request(&self, id: u32, update: &DeviceUpdate) -> (r: ResourceRequest)
        ensures
            r.path@ == "15001/"@ + dec_chars(id as nat),
            r.method == Method::Put,
            r.payload@ == ser_json(spec_enc_device_update(update@)),
    {
        let digits = num_string(id as u64);
        ResourceRequest {
            path: String::from_str("15001/").concat(digits.as_str()),
            method: Method::Put,
            payload: update.to_payload(),
        }
    }

    /// The mutation request that applies a sparse update to one group.
    pub fn update_group_request(&self, id: u32, update: &crate::group::GroupUpdate) -> (r:
        ResourceRequest)
        ensures
            r.path@ == "15004/"@ + dec_chars(id as nat),
            r.method == Method::Put,
            r.payload@ == ser_json(update@.spec_enc()),
    {
        let digits = num_string(id as u64);
        ResourceRequest {
            path: String::from_str("15004/").concat(digits.as_str()),
            method: Method::Put,
            payload: update.to_payload(),
        }
    }
}

/// The resource ids named by a listing payload's elements, if every
/// element is an id in range.
pub open spec fn spec_parse_ids(items: Seq<JsonV>) -> Result<Seq<u32>, ()>
    decreases items.len(),
{
    if items.len() == 0 {
        Ok(Seq::empty())
    } else {
        match (spec_parse_ids(items.drop_last()), items.last()) {
            (Ok(rest), JsonV::Num(n)) => if n <= u32::MAX {
                Ok(rest.push(n as u32))
            } else {
                Err(())
            },
            _ => Err(()),
        }
    }
}

/// The resource ids named by a listing payload: the payload must be one
/// array of ids.
pub open spec fn spec_decode_id_list(bytes: Seq<u8>) -> Result<Seq<u32>, ()> {
    match spec_parse_json(bytes) {
        Some(JsonV::Arr(items)) => spec_parse_ids(items),
        _ => Err(()),
    }
}

proof fn lemma_parse_ids_err(items: Seq<JsonV>, i: int)
    requires
        0 <= i < items.len(),
        !(items[i] matches JsonV::Num(n) && n <= u32::MAX),
    ensures
        spec_parse_ids(items) is Err,
    decreases items.len(),
{
    if i < items.len() - 1 {
        lemma_parse_ids_err(items.drop_last(), i);
    }
}

/// Decodes an id listing payload into the resource ids, in order.
pub fn decode_id_list(payload: &[u8]) -> (r: Result<Vec<u32>, TradfriGatewayError>)
    ensures
        match r {
            Ok(ids) => spec_decode_id_list(payload@) == Ok::<Seq<u32>, ()>(ids@),
            Err(e) => spec_decode_id_list(payload@) is Err && e is SerdeError,
        },
{
    let arr = match crate::json_text::parse_json(payload) {
        Some(crate::json::Json::Arr(items)) => items,
        _ => {
            return Err(
                TradfriGatewayError::SerdeError(
                    String::from_str("listing payload is not an array of ids"),
                ),
            );
        },
    };
    let ghost itemsv = crate::json::view_items(arr@, arr@.len() as int);
    proof {
        crate::json::lemma_view_items(arr@, arr@.len() as int);
    }
    let mut ids: Vec<u32> = Vec::new();
    let n = arr.len();
    let mut i: usize = 0;
    while i < n
        invariant
            0 <= i <= n,
            n == arr@.len(),
            itemsv.len() == n,
            forall|k: int| 0 <= k < n ==> itemsv[k] == arr@[k]@,
            spec_decode_id_list(payload@) == spec_parse_ids(itemsv),
            spec_parse_ids(itemsv.take(i as int)) == Ok::<Seq<u32>, ()>(ids@),
        decreases n - i,
    {
        match &arr[i] {
            crate::json::Json::Num(v) => {
                if *v <= u32::MAX as u64 {
                    ids.push(*v as u32);
                    proof {
                        assert(itemsv.take(i + 1 as int).drop_last() =~= itemsv.take(i as int));
                        assert(itemsv.take(i + 1 as int).last() == itemsv[i as int]);
                    }
                } else {
                    proof {
                        lemma_parse_ids_err(itemsv, i as int);
                    }
                    return Err(
                        TradfriGatewayError::SerdeError(
                            String::from_str("listing payload holds an id out of range"),
                        ),
                    );
                }
            },
            _ => {
                proof {
                    lemma_parse_ids_err(itemsv, i as int);
                }
                return Err(
                    TradfriGatewayError::SerdeError(
                        String::from_str("listing payload holds a member that is not an id"),
                    ),
                );
            },
        }
        i = i + 1;
    }
    proof {
        assert(itemsv.take(n as int) =~= itemsv);
    }
    Ok(ids)
}

/// Whether a discovered host is the gateway: its name starts with the
/// gateway's well-known prefix.
pub open spec fn spec_is_gateway_hostname(name: Seq<char>) -> bool {
    name.len() >= 16 && name.subrange(0, 16) == "TRADFRI-Gateway-"@
}

/// The discovery decision: whether a resolved host name names the gateway.
pub fn is_gateway_hostname(name: &str) -> (r: bool)
    ensures
        r == spec_is_gateway_hostname(name@),
{
    proof {
        reveal_strlit("TRADFRI-Gateway-");
    }
    let prefix = "TRADFRI-Gateway-";
    let n = name.unicode_len();
    if n < 16 {
        return false;
    }
    let mut i: usize = 0;
    while i < 16
        invariant
            0 <= i <= 16,
            16 <= name@.len(),
            prefix@ == "TRADFRI-Gateway-"@,
            prefix@.len() == 16,
            forall|k: int| 0 <= k < i ==> name@[k] == prefix@[k],
        decreases 16 - i,
    {
        if name.get_char(i) != prefix.get_char(i) {
            proof {
                assert(name@.subrange(0, 16)[i as int] != "TRADFRI-Gateway-"@[i as int]);
            }
            return false;
        }
        i = i + 1;
    }
    proof {
        assert(name@.subrange(0, 16) =~= "TRADFRI-Gateway-"@);
    }
    true
}

} // verus!
