use vstd::prelude::*;

use crate::device::parse::BulbParsed;
use crate::device::parse::DeviceInfoParsed;
use crate::device::parse::DeviceInfoV;
use crate::device::parse::LightDeviceParsed;
use crate::device::parse::LightDeviceV;
use crate::device::update::BulbColdWarmHexUpdate;
use crate::device::update::BulbRgbXYUpdate;
use crate::device::update::BulbUpdate;
use crate::device::update::DeviceUpdate;
use crate::device::update::DriverUpdate;
use crate::device::update::spec_apply_bulb_updates;
use crate::device::DeviceError;
use crate::json_text::spec_parse_json;
use crate::time::CivilTime;
use crate::time::civil_of;
use crate::time::epoch_to_civil;

verus! {

/// A light fixture as decoded from its resource object: identity, naming,
/// timestamps, reachability, manufacturer information and the ordered bulb
/// list. The timestamps are seconds since the epoch, as the wire carries
/// them.
#[derive(Clone, PartialEq, Eq, Debug)]
pub struct Light {
    pub info: DeviceInfoParsed,
    pub id: u32,
    pub name: String,
    pub creation_date: u32,
    pub last_seen: u32,
    pub reachable: bool,
    pub bulbs: Vec<BulbParsed>,
}

/// The model of a `Light`.
pub struct LightV {
    pub info: DeviceInfoV,
    pub id: u32,
    pub name: Seq<char>,
    pub creation_date: u32,
    pub last_seen: u32,
    pub reachable: bool,
    pub bulbs: Seq<BulbParsed>,
}

/// The light a decoded payload names.
pub open spec fn light_of_parsed(l: LightDeviceV) -> LightV {
    LightV {
        info: l.info,
        id: l.id,
        name: l.name,
        creation_date: l.creation_date,
        last_seen: l.last_seen,
        reachable: l.reachable,
        bulbs: l.bulbs,
    }
}

/// The light a byte payload names, if it decodes.
pub open spec fn spec_decode_light(bytes: Seq<u8>) -> Result<LightV, ()> {
    match spec_parse_json(bytes) {
        Some(j) => match LightDeviceParsed::spec_parse(j) {
            Ok(l) => Ok(light_of_parsed(l)),
            Err(e) => Err(e),
        },
        None => Err(()),
    }
}

/// The bulb update of a bulb's own shape with only the on/off member set.
pub open spec fn spec_on_update_for(b: BulbParsed, on: bool) -> BulbUpdate {
    match b {
        BulbParsed::LedDriver(_) => BulbUpdate::DriverUpdate(
            DriverUpdate { transition_time: None, on: Some(on), brightness: None },
        ),
        BulbParsed::BulbColdWarmHex(_) => BulbUpdate::BulbColdWarmHexUpdate(
            BulbColdWarmHexUpdate {
                color_hex: None,
                hue: None,
                saturation: None,
                color_temperature: None,
                transition_time: None,
                on: Some(on),
                brightness: None,
            },
        ),
        BulbParsed::BulbRgbXY(_) => BulbUpdate::BulbRgbXYUpdate(
            BulbRgbXYUpdate {
                color_hex: None,
                hue: None,
                saturation: None,
                color_x: None,
                color_y: None,
                color_temperature: None,
                transition_time: None,
                on: Some(on),
                brightness: None,
            },
        ),
    }
}

impl Light {
    pub open spec fn view(&self) -> LightV {
        LightV {
            info: self.info@,
            id: self.id,
            name: self.name@,
            creation_date: self.creation_date,
            last_seen: self.last_seen,
            reachable: self.reachable,
            bulbs: self.bulbs@,
        }
    }

    /// Decodes a light from the byte payload of its resource object. A
    /// malformed payload is a decode error carrying the cause and the raw
    /// payload text.
    pub fn new(bytes: &[u8]) -> (r: Result<Light, DeviceError>)
        ensures
            match r {
                Ok(l) => spec_decode_light(bytes@) == Ok::<LightV, ()>(l@),
                Err(DeviceError::SerdeError(_, raw)) => spec_decode_light(bytes@) is Err && raw@
                    == crate::device::lossy_of(bytes@),
                Err(_) => false,
            },
    {
        let j = match crate::json_text::parse_json(bytes) {
            Some(j) => j,
            None => {
                return Err(
                    DeviceError::SerdeError(
                        String::from_str("device payload is not a resource object"),
                        crate::device::lossy_text(bytes),
                    ),
                );
            },
        };
        match LightDeviceParsed::parse(&j) {
            Ok(parsed) => Ok(
                Light {
                    info: parsed.info,
                    id: parsed.id,
                    name: parsed.name,
                    creation_date: parsed.creation_date,
                    last_seen: parsed.last_seen,
                    reachable: parsed.reachable,
                    bulbs: parsed.bulbs,
                },
            ),
            Err(_) => Err(
                DeviceError::SerdeError(
                    String::from_str("device payload is not a light"),
                    crate::device::lossy_text(bytes),
                ),
            ),
        }
    }

    /// Whether any bulb of the fixture is lit.
    pub open spec fn spec_is_on(self) -> bool {
        exists|i: int| 0 <= i < self.bulbs@.len() && self.bulbs@[i].spec_is_on()
    }

    pub fn is_on(&self) -> (r: bool)
        ensures
            r == self.spec_is_on(),
    {
        let n = self.bulbs.len();
        let mut i: usize = 0;
        while i < n
            invariant
                0 <= i <= n,
                n == self.bulbs@.len(),
                forall|k: int| 0 <= k < i ==> !self.bulbs@[k].spec_is_on(),
            decreases n - i,
        {
            if self.bulbs[i].is_on() {
                return true;
            }
            i = i + 1;
        }
        false
    }

    /// The device update that switches every bulb of the fixture: one
    /// update per bulb, each of the bulb's own shape, with only the on/off
    /// member set.
    pub fn set_on_update(&self, on: bool) -> (r: DeviceUpdate)
        ensures
            r@.len() == self.bulbs@.len(),
            forall|i: int| 0 <= i < r@.len() ==> r@[i] == spec_on_update_for(self.bulbs@[i], on),
    {
        let mut bulbs: Vec<BulbUpdate> = Vec::new();
        let n = self.bulbs.len();
        let mut i: usize = 0;
        while i < n
            invariant
                0 <= i <= n,
                n == self.bulbs@.len(),
                bulbs@.len() == i,
                forall|k: int| 0 <= k < i ==> bulbs@[k] == spec_on_update_for(self.bulbs@[k], on),
            decreases n - i,
        {
            let u = match &self.bulbs[i] {
                BulbParsed::LedDriver(_) => BulbUpdate::DriverUpdate(
                    DriverUpdate { transition_time: None, on: Some(on), brightness: None },
                ),
                BulbParsed::BulbColdWarmHex(_) => BulbUpdate::BulbColdWarmHexUpdate(
                    BulbColdWarmHexUpdate {
                        color_hex: None,
                        hue: None,
                        saturation: None,
                        color_temperature: None,
                        transition_time: None,
                        on: Some(on),
                        brightness: None,
                    },
                ),
                BulbParsed::BulbRgbXY(_) => BulbUpdate::BulbRgbXYUpdate(
                    BulbRgbXYUpdate {
                        color_hex: None,
                        hue: None,
                        saturation: None,
                        color_x: None,
                        color_y: None,
                        color_temperature: None,
                        transition_time: None,
                        on: Some(on),
                        brightness: None,
                    },
                ),
            };
            bulbs.push(u);
            i = i + 1;
        }
        DeviceUpdate::BulbUpdate { bulbs }
    }

    /// The update that turns the whole fixture on.
    pub fn on_update(&self) -> (r: DeviceUpdate)
        ensures
            r@.len() == self.bulbs@.len(),
            forall|i: int| 0 <= i < r@.len() ==> r@[i] == spec_on_update_for(self.bulbs@[i], true),
    {
        self.set_on_update(true)
    }

    /// The update that turns the whole fixture off.
    pub fn off_update(&self) -> (r: DeviceUpdate)
        ensures
            r@.len() == self.bulbs@.len(),
            forall|i: int|
                0 <= i < r@.len() ==> r@[i] == spec_on_update_for(self.bulbs@[i], false),
    {
        self.set_on_update(false)
    }

    /// Replaces every field with those of a freshly fetched device, as a
    /// refresh after a mutation does; a device of another kind is refused
    /// and the light is left unchanged.
    pub fn absorb(&mut self, d: crate::device::Device) -> (r: Result<(), DeviceError>)
        ensures
            match d {
                crate::device::Device::Light(l) => r is Ok && *final(self) == *l,
                _ => r matches Err(e) && e is ExpectedDeviceType && *final(self) == *old(self),
            },
    {
        match d {
            crate::device::Device::Light(l) => {
                *self = *l;
                Ok(())
            },
            _ => Err(DeviceError::ExpectedDeviceType(String::from_str("Light"))),
        }
    }

    /// Applies a device update to the in-memory state: each bulb update
    /// addresses the bulb at its own position.
    pub fn apply_update(&mut self, u: &DeviceUpdate)
        ensures
            final(self).bulbs@ == spec_apply_bulb_updates(old(self).bulbs@, u@),
            final(self).info == old(self).info,
            final(self).id == old(self).id,
            final(self).name == old(self).name,
            final(self).creation_date == old(self).creation_date,
            final(self).last_seen == old(self).last_seen,
            final(self).reachable == old(self).reachable,
    {
        match u {
            DeviceUpdate::BulbUpdate { bulbs: us } => {
                let n = self.bulbs.len();
                let m = us.len();
                let mut fresh: Vec<BulbParsed> = Vec::new();
                let mut i: usize = 0;
                while i < n
                    invariant
                        0 <= i <= n,
                        n == old(self).bulbs@.len(),
                        self == old(self),
                        m == us@.len(),
                        u@ == us@,
                        fresh@.len() == i,
                        forall|k: int|
                            0 <= k < i ==> fresh@[k] == spec_apply_bulb_updates(
                                old(self).bulbs@,
                                u@,
                            )[k],
                    decreases n - i,
                {
                    if i < m {
                        fresh.push(us[i].apply(&self.bulbs[i]));
                    } else {
                        fresh.push(self.bulbs[i].clone());
                    }
                    i = i + 1;
                }
                self.bulbs = fresh;
                proof {
                    assert(final(self).bulbs@ =~= spec_apply_bulb_updates(old(self).bulbs@, u@));
                }
            },
        }
    }

    /// The creation timestamp as a UTC calendar time.
    pub fn creation_time(&self) -> (r: CivilTime)
        ensures
            r == civil_of(self.creation_date),
    {
        epoch_to_civil(self.creation_date)
    }

    /// The last-seen timestamp as a UTC calendar time.
    pub fn last_seen_time(&self) -> (r: CivilTime)
        ensures
            r == civil_of(self.last_seen),
    {
        epoch_to_civil(self.last_seen)
    }
}

} // verus!
