use vstd::prelude::*;

use crate::device::color::ColdWarmColor;
use crate::device::color::RgbColor;
use crate::json::Json;
use crate::json::JsonV;

verus! {

/// The discriminator member of every device payload: resource `5750`
/// names the device type.
#[derive(Clone, Copy, PartialEq, Eq, Structural, Debug)]
pub struct DeviceTypeParsed {
    pub device_type: u32,
}

impl DeviceTypeParsed {
    pub open spec fn spec_parse(j: JsonV) -> Result<DeviceTypeParsed, ()> {
        match j.req_u32("5750"@) {
            Ok(t) => Ok(DeviceTypeParsed { device_type: t }),
            Err(e) => Err(e),
        }
    }

    pub fn parse(j: &Json) -> (r: Result<Self, ()>)
        ensures
            r == Self::spec_parse(j@),
    {
        match j.req_u32("5750") {
            Ok(t) => Ok(DeviceTypeParsed { device_type: t }),
            Err(e) => Err(e),
        }
    }
}

/// Manufacturer information, object `3` of a device payload: members `0`
/// (manufacturer), `1` (product) and `3` (firmware).
#[derive(Clone, PartialEq, Eq, Debug)]
pub struct DeviceInfoParsed {
    pub manufacturer: String,
    pub product: String,
    pub firmware: String,
}

/// The model of `DeviceInfoParsed`.
pub struct DeviceInfoV {
    pub manufacturer: Seq<char>,
    pub product: Seq<char>,
    pub firmware: Seq<char>,
}

impl DeviceInfoParsed {
    pub open spec fn view(&self) -> DeviceInfoV {
        DeviceInfoV {
            manufacturer: self.manufacturer@,
            product: self.product@,
            firmware: self.firmware@,
        }
    }

    pub open spec fn spec_parse(j: JsonV) -> Result<DeviceInfoV, ()> {
        match (j.req_str("0"@), j.req_str("1"@), j.req_str("3"@)) {
            (Ok(m), Ok(p), Ok(f)) => Ok(
                DeviceInfoV { manufacturer: m, product: p, firmware: f },
            ),
            _ => Err(()),
        }
    }

    pub fn parse(j: &Json) -> (r: Result<Self, ()>)
        ensures
            match r {
                Ok(info) => Self::spec_parse(j@) == Ok::<DeviceInfoV, ()>(info@),
                Err(_) => Self::spec_parse(j@) is Err,
            },
    {
        match (j.req_str("0"), j.req_str("1"), j.req_str("3")) {
            (Ok(m), Ok(p), Ok(f)) => Ok(
                DeviceInfoParsed {
                    manufacturer: m.clone(),
                    product: p.clone(),
                    firmware: f.clone(),
                },
            ),
            _ => Err(()),
        }
    }
}

/// Manufacturer information of battery-powered devices: members `0`
/// (manufacturer), `1` (product), `2` (firmware) and `9` (battery level).
#[derive(Clone, PartialEq, Eq, Debug)]
pub struct DeviceInfoWithBatteryParsed {
    pub manufacturer: String,
    pub product: String,
    pub firmware: String,
    pub battery: u8,
}

/// The model of `DeviceInfoWithBatteryParsed`.
pub struct DeviceInfoWithBatteryV {
    pub manufacturer: Seq<char>,
    pub product: Seq<char>,
    pub firmware: Seq<char>,
    pub battery: u8,
}

impl DeviceInfoWithBatteryParsed {
    pub open spec fn view(&self) -> DeviceInfoWithBatteryV {
        DeviceInfoWithBatteryV {
            manufacturer: self.manufacturer@,
            product: self.product@,
            firmware: self.firmware@,
            battery: self.battery,
        }
    }

    pub open spec fn spec_parse(j: JsonV) -> Result<DeviceInfoWithBatteryV, ()> {
        match (j.req_str("0"@), j.req_str("1"@), j.req_str("2"@), j.req_u8("9"@)) {
            (Ok(m), Ok(p), Ok(f), Ok(b)) => Ok(
                DeviceInfoWithBatteryV { manufacturer: m, product: p, firmware: f, battery: b },
            ),
            _ => Err(()),
        }
    }

    pub fn parse(j: &Json) -> (r: Result<Self, ()>)
        ensures
            match r {
                Ok(info) => Self::spec_parse(j@) == Ok::<DeviceInfoWithBatteryV, ()>(info@),
                Err(_) => Self::spec_parse(j@) is Err,
            },
    {
        match (j.req_str("0"), j.req_str("1"), j.req_str("2"), j.req_u8("9")) {
            (Ok(m), Ok(p), Ok(f), Ok(b)) => Ok(
                DeviceInfoWithBatteryParsed {
                    manufacturer: m.clone(),
                    product: p.clone(),
                    firmware: f.clone(),
                    battery: b,
                },
            ),
            _ => Err(()),
        }
    }
}

/// A light fixture payload: manufacturer object `3`, bulb list `3311`,
/// display name `9001`, creation time `9002`, resource id `9003`,
/// reachability flag `9019` and last-seen time `9020`.
#[derive(Clone, PartialEq, Eq, Debug)]
pub struct LightDeviceParsed {
    pub info: DeviceInfoParsed,
    pub bulbs: Vec<BulbParsed>,
    pub name: String,
    pub creation_date: u32,
    pub id: u32,
    pub reachable: bool,
    pub last_seen: u32,
}

/// The model of a `LightDeviceParsed`.
pub struct LightDeviceV {
    pub info: DeviceInfoV,
    pub bulbs: Seq<BulbParsed>,
    pub name: Seq<char>,
    pub creation_date: u32,
    pub id: u32,
    pub reachable: bool,
    pub last_seen: u32,
}

/// The bulbs named by the elements of a bulb list, if every element
/// decodes.
pub open spec fn spec_parse_bulbs(items: Seq<JsonV>) -> Result<Seq<BulbParsed>, ()>
    decreases items.len(),
{
    if items.len() == 0 {
        Ok(Seq::empty())
    } else {
        match (spec_parse_bulbs(items.drop_last()), BulbParsed::spec_parse(items.last())) {
            (Ok(rest), Ok(b)) => Ok(rest.push(b)),
            _ => Err(()),
        }
    }
}

proof fn lemma_parse_bulbs_err(items: Seq<JsonV>, i: int)
    requires
        0 <= i < items.len(),
        BulbParsed::spec_parse(items[i]) is Err,
    ensures
        spec_parse_bulbs(items) is Err,
    decreases items.len(),
{
    if i < items.len() - 1 {
        lemma_parse_bulbs_err(items.drop_last(), i);
    }
}

/// Decodes every element of a bulb list, in order.
pub fn parse_bulbs(items: &Vec<Json>) -> (r: Result<Vec<BulbParsed>, ()>)
    ensures
        match r {
            Ok(bulbs) => spec_parse_bulbs(
                crate::json::view_items(items@, items@.len() as int),
            ) == Ok::<Seq<BulbParsed>, ()>(bulbs@),
            Err(_) => spec_parse_bulbs(
                crate::json::view_items(items@, items@.len() as int),
            ) is Err,
        },
{
    let ghost itemsv = crate::json::view_items(items@, items@.len() as int);
    proof {
        crate::json::lemma_view_items(items@, items@.len() as int);
    }
    let mut bulbs: Vec<BulbParsed> = Vec::new();
    let n = items.len();
    let mut i: usize = 0;
    while i < n
        invariant
            0 <= i <= n,
            n == items@.len(),
            itemsv.len() == n,
            itemsv == crate::json::view_items(items@, items@.len() as int),
            forall|k: int| 0 <= k < n ==> itemsv[k] == items@[k]@,
            spec_parse_bulbs(itemsv.take(i as int)) == Ok::<Seq<BulbParsed>, ()>(bulbs@),
        decreases n - i,
    {
        match BulbParsed::parse(&items[i]) {
            Ok(b) => {
                bulbs.push(b);
                proof {
                    assert(itemsv.take(i + 1 as int).drop_last() =~= itemsv.take(i as int));
                    assert(itemsv.take(i + 1 as int).last() == itemsv[i as int]);
                }
            },
            Err(_) => {
                proof {
                    lemma_parse_bulbs_err(itemsv, i as int);
                }
                return Err(());
            },
        }
        i = i + 1;
    }
    proof {
        assert(itemsv.take(n as int) =~= itemsv);
    }
    Ok(bulbs)
}

impl LightDeviceParsed {
    pub open spec fn view(&self) -> LightDeviceV {
        LightDeviceV {
            info: self.info@,
            bulbs: self.bulbs@,
            name: self.name@,
            creation_date: self.creation_date,
            id: self.id,
            reachable: self.reachable,
            last_seen: self.last_seen,
        }
    }

    pub open spec fn spec_parse(j: JsonV) -> Result<LightDeviceV, ()> {
        match (j.req_obj("3"@),
        j.req_arr("3311"@),
        j.req_str("9001"@),
        j.req_u32("9002"@),
        j.req_u32("9003"@),
        j.req_bool("9019"@),
        j.req_u32("9020"@)) {
            (Ok(info_j), Ok(items), Ok(name), Ok(c), Ok(id), Ok(reach), Ok(ls)) => match (
            DeviceInfoParsed::spec_parse(info_j),
            spec_parse_bulbs(items),
            ) {
                (Ok(info), Ok(bulbs)) => Ok(
                    LightDeviceV {
                        info: info,
                        bulbs: bulbs,
                        name: name,
                        creation_date: c,
                        id: id,
                        reachable: reach,
                        last_seen: ls,
                    },
                ),
                _ => Err(()),
            },
            _ => Err(()),
        }
    }

    pub fn parse(j: &Json) -> (r: Result<Self, ()>)
        ensures
            match r {
                Ok(light) => Self::spec_parse(j@) == Ok::<LightDeviceV, ()>(light@),
                Err(_) => Self::spec_parse(j@) is Err,
            },
    {
        match (j.req_obj("3"),
        j.req_arr("3311"),
        j.req_str("9001"),
        j.req_u32("9002"),
        j.req_u32("9003"),
        j.req_bool("9019"),
        j.req_u32("9020")) {
            (Ok(info_j), Ok(items), Ok(name), Ok(c), Ok(id), Ok(reach), Ok(ls)) => match (
            DeviceInfoParsed::parse(info_j),
            parse_bulbs(items),
            ) {
                (Ok(info), Ok(bulbs)) => Ok(
                    LightDeviceParsed {
                        info: info,
                        bulbs: bulbs,
                        name: name.clone(),
                        creation_date: c,
                        id: id,
                        reachable: reach,
                        last_seen: ls,
                    },
                ),
                _ => Err(()),
            },
            _ => Err(()),
        }
    }
}

/// The plainest bulb shape: only the shared on/off and brightness core
/// (members `5850` and `5851`).
#[derive(Clone, Copy, PartialEq, Eq, Structural, Debug)]
pub struct LedDriverParsed {
    pub on: bool,
    pub brightness: u8,
}

impl LedDriverParsed {
    pub open spec fn spec_parse(j: JsonV) -> Result<LedDriverParsed, ()> {
        match (j.req_bool("5850"@), j.req_u8("5851"@)) {
            (Ok(on), Ok(b)) => Ok(LedDriverParsed { on: on, brightness: b }),
            _ => Err(()),
        }
    }

    pub fn parse(j: &Json) -> (r: Result<Self, ()>)
        ensures
            r == Self::spec_parse(j@),
    {
        match (j.req_bool("5850"), j.req_u8("5851")) {
            (Ok(on), Ok(b)) => Ok(LedDriverParsed { on: on, brightness: b }),
            _ => Err(()),
        }
    }
}

/// A cold/warm-white bulb: the core plus a required colour word from the
/// cold/warm palette (`5706`) and optional hue, saturation and colour
/// temperature (`5707`, `5708`, `5711`).
#[derive(Clone, Copy, PartialEq, Eq, Structural, Debug)]
pub struct BulbColdWarmHexParsed {
    pub color_hex: ColdWarmColor,
    pub hue: Option<u32>,
    pub saturation: Option<u32>,
    pub color_temperature: Option<u32>,
    pub on: bool,
    pub brightness: u8,
}

impl BulbColdWarmHexParsed {
    pub open spec fn spec_parse(j: JsonV) -> Result<BulbColdWarmHexParsed, ()> {
        match (j.req_str("5706"@),
        j.opt_u32("5707"@),
        j.opt_u32("5708"@),
        j.opt_u32("5711"@),
        j.req_bool("5850"@),
        j.req_u8("5851"@)) {
            (Ok(hex), Ok(hue), Ok(sat), Ok(temp), Ok(on), Ok(b)) => match ColdWarmColor::spec_from_hex(
                hex,
            ) {
                Some(c) => Ok(
                    BulbColdWarmHexParsed {
                        color_hex: c,
                        hue: hue,
                        saturation: sat,
                        color_temperature: temp,
                        on: on,
                        brightness: b,
                    },
                ),
                None => Err(()),
            },
            _ => Err(()),
        }
    }

    pub fn parse(j: &Json) -> (r: Result<Self, ()>)
        ensures
            r == Self::spec_parse(j@),
    {
        match (j.req_str("5706"),
        j.opt_u32("5707"),
        j.opt_u32("5708"),
        j.opt_u32("5711"),
        j.req_bool("5850"),
        j.req_u8("5851")) {
            (Ok(hex), Ok(hue), Ok(sat), Ok(temp), Ok(on), Ok(b)) => match ColdWarmColor::from_hex(
                hex,
            ) {
                Some(c) => Ok(
                    BulbColdWarmHexParsed {
                        color_hex: c,
                        hue: hue,
                        saturation: sat,
                        color_temperature: temp,
                        on: on,
                        brightness: b,
                    },
                ),
                None => Err(()),
            },
            _ => Err(()),
        }
    }
}

/// A full-colour bulb: the core plus a required colour word from the full
/// palette (`5706`) and required chromaticity coordinates (`5709`, `5710`),
/// with optional hue, saturation and colour temperature.
#[derive(Clone, Copy, PartialEq, Eq, Structural, Debug)]
pub struct BulbRgbXYParsed {
    pub color_hex: RgbColor,
    pub hue: Option<u32>,
    pub saturation: Option<u32>,
    pub color_x: u32,
    pub color_y: u32,
    pub color_temperature: Option<u32>,
    pub on: bool,
    pub brightness: u8,
}

impl BulbRgbXYParsed {
    pub open spec fn spec_parse(j: JsonV) -> Result<BulbRgbXYParsed, ()> {
        match (j.req_str("5706"@),
        j.opt_u32("5707"@),
        j.opt_u32("5708"@),
        j.req_u32("5709"@),
        j.req_u32("5710"@),
        j.opt_u32("5711"@),
        j.req_bool("5850"@),
        j.req_u8("5851"@)) {
            (Ok(hex), Ok(hue), Ok(sat), Ok(x), Ok(y), Ok(temp), Ok(on), Ok(b)) => match RgbColor::spec_from_hex(
                hex,
            ) {
                Some(c) => Ok(
                    BulbRgbXYParsed {
                        color_hex: c,
                        hue: hue,
                        saturation: sat,
                        color_x: x,
                        color_y: y,
                        color_temperature: temp,
                        on: on,
                        brightness: b,
                    },
                ),
                None => Err(()),
            },
            _ => Err(()),
        }
    }

    pub fn parse(j: &Json) -> (r: Result<Self, ()>)
        ensures
            r == Self::spec_parse(j@),
    {
        match (j.req_str("5706"),
        j.opt_u32("5707"),
        j.opt_u32("5708"),
        j.req_u32("5709"),
        j.req_u32("5710"),
        j.opt_u32("5711"),
        j.req_bool("5850"),
        j.req_u8("5851")) {
            (Ok(hex), Ok(hue), Ok(sat), Ok(x), Ok(y), Ok(temp), Ok(on), Ok(b)) => match RgbColor::from_hex(
                hex,
            ) {
                Some(c) => Ok(
                    BulbRgbXYParsed {
                        color_hex: c,
                        hue: hue,
                        saturation: sat,
                        color_x: x,
                        color_y: y,
                        color_temperature: temp,
                        on: on,
                        brightness: b,
                    },
                ),
                None => Err(()),
            },
            _ => Err(()),
        }
    }
}

/// One bulb of a light fixture. The payload carries no explicit tag for
/// the bulb's shape: the variant is resolved structurally, most specific
/// shape first, by which of the colour members are present.
#[derive(Clone, Copy, PartialEq, Eq, Structural, Debug)]
pub enum BulbParsed {
    LedDriver(LedDriverParsed),
    BulbColdWarmHex(BulbColdWarmHexParsed),
    BulbRgbXY(BulbRgbXYParsed),
}

impl BulbParsed {
    /// Structural variant resolution, most specific shape first: a payload
    /// carrying either chromaticity coordinate (`5709`, `5710`) must be a
    /// full-colour bulb; one carrying any other colour member (`5706`,
    /// `5707`, `5708`, `5711`) must be a cold/warm-white bulb; one carrying
    /// neither is a plain driver. A payload is never accepted as a plainer
    /// shape while members of a richer shape are present.
    pub open spec fn spec_parse(j: JsonV) -> Result<BulbParsed, ()> {
        if j.has("5709"@) || j.has("5710"@) {
            match BulbRgbXYParsed::spec_parse(j) {
                Ok(b) => Ok(BulbParsed::BulbRgbXY(b)),
                Err(e) => Err(e),
            }
        } else if j.has("5706"@) || j.has("5707"@) || j.has("5708"@) || j.has("5711"@) {
            match BulbColdWarmHexParsed::spec_parse(j) {
                Ok(b) => Ok(BulbParsed::BulbColdWarmHex(b)),
                Err(e) => Err(e),
            }
        } else {
            match LedDriverParsed::spec_parse(j) {
                Ok(b) => Ok(BulbParsed::LedDriver(b)),
                Err(e) => Err(e),
            }
        }
    }

    pub fn parse(j: &Json) -> (r: Result<Self, ()>)
        ensures
            r == Self::spec_parse(j@),
    {
        if j.has("5709") || j.has("5710") {
            match BulbRgbXYParsed::parse(j) {
                Ok(b) => Ok(BulbParsed::BulbRgbXY(b)),
                Err(e) => Err(e),
            }
        } else if j.has("5706") || j.has("5707") || j.has("5708") || j.has("5711") {
            match BulbColdWarmHexParsed::parse(j) {
                Ok(b) => Ok(BulbParsed::BulbColdWarmHex(b)),
                Err(e) => Err(e),
            }
        } else {
            match LedDriverParsed::parse(j) {
                Ok(b) => Ok(BulbParsed::LedDriver(b)),
                Err(e) => Err(e),
            }
        }
    }

    /// Whether this bulb is lit, whatever its shape.
    pub open spec fn spec_is_on(self) -> bool {
        match self {
            BulbParsed::LedDriver(d) => d.on,
            BulbParsed::BulbColdWarmHex(b) => b.on,
            BulbParsed::BulbRgbXY(b) => b.on,
        }
    }

    pub fn is_on(&self) -> (r: bool)
        ensures
            r == self.spec_is_on(),
    {
        match self {
            BulbParsed::LedDriver(d) => d.on,
            BulbParsed::BulbColdWarmHex(b) => b.on,
            BulbParsed::BulbRgbXY(b) => b.on,
        }
    }
}


/// Structural resolution never lets a payload that carries members of a
/// richer shape decode as a plainer one: chromaticity members force the
/// full-colour shape, and any other colour member forces at least the
/// cold/warm shape.
pub proof fn lemma_resolution_most_specific_first(j: JsonV)
    ensures
        (j.has("5709"@) || j.has("5710"@)) ==> (BulbParsed::spec_parse(j) matches Ok(b) ==> b
            is BulbRgbXY),
        (!j.has("5709"@) && !j.has("5710"@) && (j.has("5706"@) || j.has("5707"@) || j.has("5708"@)
            || j.has("5711"@))) ==> (BulbParsed::spec_parse(j) matches Ok(b) ==> b
            is BulbColdWarmHex),
        (!j.has("5709"@) && !j.has("5710"@) && !j.has("5706"@) && !j.has("5707"@) && !j.has(
            "5708"@,
        ) && !j.has("5711"@)) ==> (BulbParsed::spec_parse(j) matches Ok(b) ==> b is LedDriver),
{
}

} // verus!
