mod color;
mod light;
mod parse;
mod update;

pub use color::ColdWarmColor;
pub use color::RgbColor;
pub use color::lemma_cold_warm_hex_round_trip;
pub use color::lemma_rgb_hex_round_trip;
pub use light::Light;
pub use light::LightV;
pub use light::light_of_parsed;
pub use light::spec_decode_light;
pub use light::spec_on_update_for;
pub use parse::BulbColdWarmHexParsed;
pub use parse::BulbParsed;
pub use parse::BulbRgbXYParsed;
pub use parse::DeviceInfoParsed;
pub use parse::DeviceInfoV;
pub use parse::DeviceInfoWithBatteryParsed;
pub use parse::DeviceInfoWithBatteryV;
pub use parse::DeviceTypeParsed;
pub use parse::LedDriverParsed;
pub use parse::LightDeviceParsed;
pub use parse::LightDeviceV;
pub use parse::parse_bulbs;
pub use parse::spec_parse_bulbs;
pub use parse::lemma_resolution_most_specific_first;
pub use update::BulbColdWarmHexUpdate;
pub use update::BulbRgbXYUpdate;
pub use update::BulbUpdate;
pub use update::DeviceUpdate;
pub use update::DriverUpdate;
pub use update::lemma_bulb_update_idempotent;
pub use update::lemma_bulb_update_round_trip;
pub use update::lemma_cold_warm_update_round_trip;
pub use update::lemma_device_update_idempotent;
pub use update::lemma_device_update_payload_round_trip;
pub use update::lemma_device_update_round_trip;
pub use update::lemma_driver_update_round_trip;
pub use update::lemma_rgb_xy_update_round_trip;
pub use update::spec_apply_bulb_updates;
pub use update::spec_decode_device_update;
pub use update::spec_enc_device_update;
pub use update::spec_parse_device_update;

use vstd::prelude::*;

use crate::device::parse::LightDeviceParsed as ParsedLight;
use crate::gateway::TradfriGatewayError;
use crate::json::JsonV;
use crate::json_text::spec_parse_json;
use crate::tradfri_coap::device::outlet::Outlet;
use crate::tradfri_coap::device::outlet::OutletModel;

verus! {

/// A device of the gateway, dispatched by the numeric device-type
/// discriminator of its payload: `0` is a remote control, `2` a light,
/// `3` a control outlet, and every other code is unsupported.
#[derive(Clone, PartialEq, Eq, Debug)]
pub enum Device {
    RemoteControl,
    Light(Box<Light>),
    ControlOutlet(Outlet),
}

/// The model of a `Device`.
pub enum DeviceV {
    RemoteControl,
    Light(LightV),
    ControlOutlet(OutletModel),
}

/// A failure of device fetching or decoding.
#[derive(Debug)]
pub enum DeviceError {
    /// The discriminator named a device type this client does not know.
    UnsupportedDevice(u32),
    /// A device of one kind was expected and another arrived.
    ExpectedDeviceType(String),
    /// The payload did not decode: the cause, and the raw payload text for
    /// diagnosis.
    SerdeError(String, String),
    /// A gateway operation beneath the decode failed.
    TradfriGatewayError(TradfriGatewayError),
}

/// Why a device payload was refused: an unknown discriminator code, or a
/// payload that does not fit its discriminator's schema.
pub enum DeviceFailure {
    Unsupported(u32),
    Malformed,
}

/// The device a decoded payload names: the discriminator `5750` selects
/// the schema, and the rest of the payload must fit it.
pub open spec fn spec_device_from_json(j: JsonV) -> Result<DeviceV, DeviceFailure> {
    match DeviceTypeParsed::spec_parse(j) {
        Ok(t) => if t.device_type == 0 {
            Ok(DeviceV::RemoteControl)
        } else if t.device_type == 2 {
            match ParsedLight::spec_parse(j) {
                Ok(l) => Ok(DeviceV::Light(light_of_parsed(l))),
                Err(_) => Err(DeviceFailure::Malformed),
            }
        } else if t.device_type == 3 {
            match Outlet::spec_parse(j) {
                Ok(o) => Ok(DeviceV::ControlOutlet(o)),
                Err(_) => Err(DeviceFailure::Malformed),
            }
        } else {
            Err(DeviceFailure::Unsupported(t.device_type))
        },
        Err(_) => Err(DeviceFailure::Malformed),
    }
}

/// The device a byte payload names, if it decodes.
pub open spec fn spec_decode_device(bytes: Seq<u8>) -> Result<DeviceV, DeviceFailure> {
    match spec_parse_json(bytes) {
        Some(j) => spec_device_from_json(j),
        None => Err(DeviceFailure::Malformed),
    }
}

/// The diagnostic text of a payload's bytes: the lossy rendering is a
/// function of the bytes alone.
pub uninterp spec fn lossy_of(bytes: Seq<u8>) -> Seq<char>;

/// Relies on String::from_utf8_lossy: renders payload bytes as text for
/// diagnostics; a payload of printable seven-bit bytes comes back as
/// exactly its own characters.
#[verifier::external_body]
pub(crate) fn lossy_text(bytes: &[u8]) -> (r: String)
    ensures
        r@ == lossy_of(bytes@),
        (forall|i: int| 0 <= i < bytes@.len() ==> 32 <= #[trigger] bytes@[i] <= 126) ==> r@
            == bytes@.map_values(|b: u8| b as char),
{
    String::from_utf8_lossy(bytes).into_owned()
}

impl Device {
    pub open spec fn view(&self) -> DeviceV {
        match self {
            Device::RemoteControl => DeviceV::RemoteControl,
            Device::Light(l) => DeviceV::Light((**l)@),
            Device::ControlOutlet(o) => DeviceV::ControlOutlet(o@),
        }
    }

    /// Decodes a device from the byte payload of its resource object,
    /// dispatching on the device-type discriminator: `0` names a remote
    /// control with no further members consulted, `2` a light, `3` a
    /// control outlet, and any other code is refused as unsupported.
    pub fn new(bytes: &[u8]) -> (r: Result<Device, DeviceError>)
        ensures
            match r {
                Ok(d) => spec_decode_device(bytes@) == Ok::<DeviceV, DeviceFailure>(d@),
                Err(DeviceError::UnsupportedDevice(c)) => spec_decode_device(bytes@) == Err::<
                    DeviceV,
                    DeviceFailure,
                >(DeviceFailure::Unsupported(c)),
                Err(DeviceError::SerdeError(_, raw)) => spec_decode_device(bytes@) == Err::<
                    DeviceV,
                    DeviceFailure,
                >(DeviceFailure::Malformed) && raw@ == lossy_of(bytes@),
                Err(_) => false,
            },
    {
        let j = match crate::json_text::parse_json(bytes) {
            Some(j) => j,
            None => {
                return Err(
                    DeviceError::SerdeError(
                        String::from_str("device payload is not a resource object"),
                        lossy_text(bytes),
                    ),
                );
            },
        };
        let t = match DeviceTypeParsed::parse(&j) {
            Ok(t) => t,
            Err(_) => {
                return Err(
                    DeviceError::SerdeError(
                        String::from_str("device payload carries no device type"),
                        lossy_text(bytes),
                    ),
                );
            },
        };
        if t.device_type == 0 {
            Ok(Device::RemoteControl)
        } else if t.device_type == 2 {
            match ParsedLight::parse(&j) {
                Ok(parsed) => Ok(
                    Device::Light(
                        Box::new(
                            Light {
                                info: parsed.info,
                                id: parsed.id,
                                name: parsed.name,
                                creation_date: parsed.creation_date,
                                last_seen: parsed.last_seen,
                                reachable: parsed.reachable,
                                bulbs: parsed.bulbs,
                            },
                        ),
                    ),
                ),
                Err(_) => Err(
                    DeviceError::SerdeError(
                        String::from_str("device payload is not a light"),
                        lossy_text(bytes),
                    ),
                ),
            }
        } else if t.device_type == 3 {
            match Outlet::new(&j) {
                Ok(o) => Ok(Device::ControlOutlet(o)),
                Err(_) => Err(
                    DeviceError::SerdeError(
                        String::from_str("device payload is not a control outlet"),
                        lossy_text(bytes),
                    ),
                ),
            }
        } else {
            Err(DeviceError::UnsupportedDevice(t.device_type))
        }
    }
}


/// The discriminator dispatch law: code `0` names a remote control with no
/// further members consulted, `2` a light, `3` a control outlet, and every
/// other code is refused as unsupported; a payload without a discriminator
/// is malformed.
pub proof fn lemma_device_dispatch(j: JsonV)
    ensures
        j.req_u32("5750"@) == Ok::<u32, ()>(0) ==> spec_device_from_json(j) == Ok::<
            DeviceV,
            DeviceFailure,
        >(DeviceV::RemoteControl),
        j.req_u32("5750"@) matches Ok(c) ==> (c != 0 && c != 2 && c != 3
            ==> spec_device_from_json(j) == Err::<DeviceV, DeviceFailure>(
            DeviceFailure::Unsupported(c),
        )),
        j.req_u32("5750"@) is Err ==> spec_device_from_json(j) == Err::<DeviceV, DeviceFailure>(
            DeviceFailure::Malformed,
        ),
{
}

} // verus!
