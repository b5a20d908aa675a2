use vstd::prelude::*;

use crate::device::color::ColdWarmColor;
use crate::device::parse::BulbColdWarmHexParsed;
use crate::device::parse::BulbParsed;
use crate::device::parse::BulbRgbXYParsed;
use crate::device::parse::LedDriverParsed;
use crate::device::color::RgbColor;
use crate::json::Json;
use crate::json::JsonV;
use crate::json::view_fields;
use crate::json::lemma_view_fields;
use crate::keys::lemma_wire_key_chars;
use crate::serialization::spec_int_from_bool;
use crate::serialization::int_from_bool;

verus! {

/// A sparse update of the plainest bulb shape. Every member is optional;
/// an unset member is omitted from the payload and leaves the gateway's
/// state unchanged.
#[derive(Clone, Copy, PartialEq, Eq, Structural, Debug)]
pub struct DriverUpdate {
    pub transition_time: Option<u32>,
    pub on: Option<bool>,
    pub brightness: Option<u8>,
}

impl DriverUpdate {
    /// An update with no member set; encoding it yields an empty object.
    pub fn unset() -> (r: DriverUpdate)
        ensures
            r == (DriverUpdate { transition_time: None, on: None, brightness: None }),
    {
        DriverUpdate { transition_time: None, on: None, brightness: None }
    }

    /// The members such an update serializes: exactly the set ones, in
    /// ascending key order.
    pub open spec fn spec_fields(self) -> Seq<(Seq<char>, JsonV)> {
        let f0 = Seq::<(Seq<char>, JsonV)>::empty();
        let f1 = match self.transition_time {
            Some(t) => f0.push(("5712"@, JsonV::Num(t as u64))),
            None => f0,
        };
        let f2 = match self.on {
            Some(b) => f1.push(("5850"@, JsonV::Num(spec_int_from_bool(b)))),
            None => f1,
        };
        match self.brightness {
            Some(b) => f2.push(("5851"@, JsonV::Num(b as u64))),
            None => f2,
        }
    }

    pub open spec fn spec_enc(self) -> JsonV {
        JsonV::Obj(self.spec_fields())
    }

    /// Serializes the update into a sparse object: a member the caller did
    /// not set is never emitted.
    pub fn enc(&self) -> (r: Json)
        ensures
            r@ == self.spec_enc(),
    {
        let mut fields: Vec<(String, Json)> = Vec::new();
        if let Some(t) = self.transition_time {
            fields.push((String::from_str("5712"), Json::Num(t as u64)));
        }
        if let Some(b) = self.on {
            fields.push((String::from_str("5850"), Json::Num(int_from_bool(b))));
        }
        if let Some(b) = self.brightness {
            fields.push((String::from_str("5851"), Json::Num(b as u64)));
        }
        proof {
            lemma_view_fields(fields@, fields@.len() as int);
            assert(view_fields(fields@, fields@.len() as int) =~= self.spec_fields());
        }
        Json::Obj(fields)
    }

    pub open spec fn spec_parse(j: JsonV) -> Result<DriverUpdate, ()> {
        match (j.opt_u32("5712"@), j.opt_bool("5850"@), j.opt_u8("5851"@)) {
            (Ok(t), Ok(on), Ok(b)) => Ok(
                DriverUpdate { transition_time: t, on: on, brightness: b },
            ),
            _ => Err(()),
        }
    }

    pub fn parse(j: &Json) -> (r: Result<Self, ()>)
        ensures
            r == Self::spec_parse(j@),
    {
        match (j.opt_u32("5712"), j.opt_bool("5850"), j.opt_u8("5851")) {
            (Ok(t), Ok(on), Ok(b)) => Ok(
                DriverUpdate { transition_time: t, on: on, brightness: b },
            ),
            _ => Err(()),
        }
    }

    /// Whether every member of the update is set.
    pub open spec fn fully_set(self) -> bool {
        self.transition_time is Some && self.on is Some && self.brightness is Some
    }
}

/// A sparse update of a cold/warm-white bulb. Every member is optional;
/// an unset member is omitted from the payload and leaves the gateway's
/// state unchanged.
#[derive(Clone, Copy, PartialEq, Eq, Structural, Debug)]
pub struct BulbColdWarmHexUpdate {
    pub color_hex: Option<ColdWarmColor>,
    pub hue: Option<u32>,
    pub saturation: Option<u32>,
    pub color_temperature: Option<u32>,
    pub transition_time: Option<u32>,
    pub on: Option<bool>,
    pub brightness: Option<u8>,
}

impl BulbColdWarmHexUpdate {
    /// An update with no member set; encoding it yields an empty object.
    pub fn unset() -> (r: BulbColdWarmHexUpdate)
        ensures
            r == BulbColdWarmHexUpdate::spec_unset(),
    {
        BulbColdWarmHexUpdate {
            color_hex: None,
            hue: None,
            saturation: None,
            color_temperature: None,
            transition_time: None,
            on: None,
            brightness: None,
        }
    }

    pub open spec fn spec_unset() -> BulbColdWarmHexUpdate {
        BulbColdWarmHexUpdate {
            color_hex: None,
            hue: None,
            saturation: None,
            color_temperature: None,
            transition_time: None,
            on: None,
            brightness: None,
        }
    }

    /// The members such an update serializes: exactly the set ones, in
    /// ascending key order.
    pub open spec fn spec_fields(self) -> Seq<(Seq<char>, JsonV)> {
        let f0 = Seq::<(Seq<char>, JsonV)>::empty();
        let f1 = match self.color_hex {
            Some(c) => f0.push(("5706"@, JsonV::Str(c.spec_hex()))),
            None => f0,
        };
        let f2 = match self.hue {
            Some(h) => f1.push(("5707"@, JsonV::Num(h as u64))),
            None => f1,
        };
        let f3 = match self.saturation {
            Some(s) => f2.push(("5708"@, JsonV::Num(s as u64))),
            None => f2,
        };
        let f4 = match self.color_temperature {
            Some(t) => f3.push(("5711"@, JsonV::Num(t as u64))),
            None => f3,
        };
        let f5 = match self.transition_time {
            Some(t) => f4.push(("5712"@, JsonV::Num(t as u64))),
            None => f4,
        };
        let f6 = match self.on {
            Some(b) => f5.push(("5850"@, JsonV::Num(spec_int_from_bool(b)))),
            None => f5,
        };
        match self.brightness {
            Some(b) => f6.push(("5851"@, JsonV::Num(b as u64))),
            None => f6,
        }
    }

    pub open spec fn spec_enc(self) -> JsonV {
        JsonV::Obj(self.spec_fields())
    }

    /// Serializes the update into a sparse object: a member the caller did
    /// not set is never emitted.
    pub fn enc(&self) -> (r: Json)
        ensures
            r@ == self.spec_enc(),
    {
        let mut fields: Vec<(String, Json)> = Vec::new();
        if let Some(c) = self.color_hex {
            fields.push((String::from_str("5706"), Json::Str(c.hex())));
        }
        if let Some(h) = self.hue {
            fields.push((String::from_str("5707"), Json::Num(h as u64)));
        }
        if let Some(s) = self.saturation {
            fields.push((String::from_str("5708"), Json::Num(s as u64)));
        }
        if let Some(t) = self.color_temperature {
            fields.push((String::from_str("5711"), Json::Num(t as u64)));
        }
        if let Some(t) = self.transition_time {
            fields.push((String::from_str("5712"), Json::Num(t as u64)));
        }
        if let Some(b) = self.on {
            fields.push((String::from_str("5850"), Json::Num(int_from_bool(b))));
        }
        if let Some(b) = self.brightness {
            fields.push((String::from_str("5851"), Json::Num(b as u64)));
        }
        proof {
            lemma_view_fields(fields@, fields@.len() as int);
            assert(view_fields(fields@, fields@.len() as int) =~= self.spec_fields());
        }
        Json::Obj(fields)
    }

    pub open spec fn spec_parse(j: JsonV) -> Result<BulbColdWarmHexUpdate, ()> {
        match (j.opt_str("5706"@),
        j.opt_u32("5707"@),
        j.opt_u32("5708"@),
        j.opt_u32("5711"@),
        j.opt_u32("5712"@),
        j.opt_bool("5850"@),
        j.opt_u8("5851"@)) {
            (Ok(hex), Ok(hue), Ok(sat), Ok(temp), Ok(tr), Ok(on), Ok(b)) => match hex {
                None => Ok(
                    BulbColdWarmHexUpdate {
                        color_hex: None,
                        hue: hue,
                        saturation: sat,
                        color_temperature: temp,
                        transition_time: tr,
                        on: on,
                        brightness: b,
                    },
                ),
                Some(h) => match ColdWarmColor::spec_from_hex(h) {
                    Some(c) => Ok(
                        BulbColdWarmHexUpdate {
                            color_hex: Some(c),
                            hue: hue,
                            saturation: sat,
                            color_temperature: temp,
                            transition_time: tr,
                            on: on,
                            brightness: b,
                        },
                    ),
                    None => Err(()),
                },
            },
            _ => Err(()),
        }
    }

    pub fn parse(j: &Json) -> (r: Result<Self, ()>)
        ensures
            r == Self::spec_parse(j@),
    {
        match (j.opt_str("5706"),
        j.opt_u32("5707"),
        j.opt_u32("5708"),
        j.opt_u32("5711"),
        j.opt_u32("5712"),
        j.opt_bool("5850"),
        j.opt_u8("5851")) {
            (Ok(hex), Ok(hue), Ok(sat), Ok(temp), Ok(tr), Ok(on), Ok(b)) => match hex {
                None => Ok(
                    BulbColdWarmHexUpdate {
                        color_hex: None,
                        hue: hue,
                        saturation: sat,
                        color_temperature: temp,
                        transition_time: tr,
                        on: on,
                        brightness: b,
                    },
                ),
                Some(h) => match ColdWarmColor::from_hex(h) {
                    Some(c) => Ok(
                        BulbColdWarmHexUpdate {
                            color_hex: Some(c),
                            hue: hue,
                            saturation: sat,
                            color_temperature: temp,
                            transition_time: tr,
                            on: on,
                            brightness: b,
                        },
                    ),
                    None => Err(()),
                },
            },
            _ => Err(()),
        }
    }

    /// Whether every member of the update is set.
    pub open spec fn fully_set(self) -> bool {
        &&& self.color_hex is Some
        &&& self.hue is Some
        &&& self.saturation is Some
        &&& self.color_temperature is Some
        &&& self.transition_time is Some
        &&& self.on is Some
        &&& self.brightness is Some
    }
}

/// A sparse update of a full-colour bulb. Every member is optional; an
/// unset member is omitted from the payload and leaves the gateway's
/// state unchanged.
#[derive(Clone, Copy, PartialEq, Eq, Structural, Debug)]
pub struct BulbRgbXYUpdate {
    pub color_hex: Option<RgbColor>,
    pub hue: Option<u32>,
    pub saturation: Option<u32>,
    pub color_x: Option<u32>,
    pub color_y: Option<u32>,
    pub color_temperature: Option<u32>,
    pub transition_time: Option<u32>,
    pub on: Option<bool>,
    pub brightness: Option<u8>,
}

impl BulbRgbXYUpdate {
    /// An update with no member set; encoding it yields an empty object.
    pub fn unset() -> (r: BulbRgbXYUpdate)
        ensures
            r == BulbRgbXYUpdate::spec_unset(),
    {
        BulbRgbXYUpdate {
            color_hex: None,
            hue: None,
            saturation: None,
            color_x: None,
            color_y: None,
            color_temperature: None,
            transition_time: None,
            on: None,
            brightness: None,
        }
    }

    pub open spec fn spec_unset() -> BulbRgbXYUpdate {
        BulbRgbXYUpdate {
            color_hex: None,
            hue: None,
            saturation: None,
            color_x: None,
            color_y: None,
            color_temperature: None,
            transition_time: None,
            on: None,
            brightness: None,
        }
    }

    /// The members such an update serializes: exactly the set ones, in
    /// ascending key order.
    pub open spec fn spec_fields(self) -> Seq<(Seq<char>, JsonV)> {
        let f0 = Seq::<(Seq<char>, JsonV)>::empty();
        let f1 = match self.color_hex {
            Some(c) => f0.push(("5706"@, JsonV::Str(c.spec_hex()))),
            None => f0,
        };
        let f2 = match self.hue {
            Some(h) => f1.push(("5707"@, JsonV::Num(h as u64))),
            None => f1,
        };
        let f3 = match self.saturation {
            Some(s) => f2.push(("5708"@, JsonV::Num(s as u64))),
            None => f2,
        };
        let f4 = match self.color_x {
            Some(x) => f3.push(("5709"@, JsonV::Num(x as u64))),
            None => f3,
        };
        let f5 = match self.color_y {
            Some(y) => f4.push(("5710"@, JsonV::Num(y as u64))),
            None => f4,
        };
        let f6 = match self.color_temperature {
            Some(t) => f5.push(("5711"@, JsonV::Num(t as u64))),
            None => f5,
        };
        let f7 = match self.transition_time {
            Some(t) => f6.push(("5712"@, JsonV::Num(t as u64))),
            None => f6,
        };
        let f8 = match self.on {
            Some(b) => f7.push(("5850"@, JsonV::Num(spec_int_from_bool(b)))),
            None => f7,
        };
        match self.brightness {
            Some(b) => f8.push(("5851"@, JsonV::Num(b as u64))),
            None => f8,
        }
    }

    pub open spec fn spec_enc(self) -> JsonV {
        JsonV::Obj(self.spec_fields())
    }

    /// Serializes the update into a sparse object: a member the caller did
    /// not set is never emitted.
    #[verifier::rlimit(60)]
    pub fn enc(&self) -> (r: Json)
        ensures
            r@ == self.spec_enc(),
    {
        let mut fields: Vec<(String, Json)> = Vec::new();
        if let Some(c) = self.color_hex {
            fields.push((String::from_str("5706"), Json::Str(c.hex())));
        }
        if let Some(h) = self.hue {
            fields.push((String::from_str("5707"), Json::Num(h as u64)));
        }
        if let Some(s) = self.saturation {
            fields.push((String::from_str("5708"), Json::Num(s as u64)));
        }
        if let Some(x) = self.color_x {
            fields.push((String::from_str("5709"), Json::Num(x as u64)));
        }
        if let Some(y) = self.color_y {
            fields.push((String::from_str("5710"), Json::Num(y as u64)));
        }
        if let Some(t) = self.color_temperature {
            fields.push((String::from_str("5711"), Json::Num(t as u64)));
        }
        if let Some(t) = self.transition_time {
            fields.push((String::from_str("5712"), Json::Num(t as u64)));
        }
        if let Some(b) = self.on {
            fields.push((String::from_str("5850"), Json::Num(int_from_bool(b))));
        }
        if let Some(b) = self.brightness {
            fields.push((String::from_str("5851"), Json::Num(b as u64)));
        }
        proof {
            lemma_view_fields(fields@, fields@.len() as int);
            assert(view_fields(fields@, fields@.len() as int) =~= self.spec_fields());
        }
        Json::Obj(fields)
    }

    pub open spec fn spec_parse(j: JsonV) -> Result<BulbRgbXYUpdate, ()> {
        match (j.opt_str("5706"@),
        j.opt_u32("5707"@),
        j.opt_u32("5708"@),
        j.opt_u32("5709"@),
        j.opt_u32("5710"@),
        j.opt_u32("5711"@),
        j.opt_u32("5712"@),
        j.opt_bool("5850"@),
        j.opt_u8("5851"@)) {
            (Ok(hex), Ok(hue), Ok(sat), Ok(x), Ok(y), Ok(temp), Ok(tr), Ok(on), Ok(b)) => match hex {
                None => Ok(
                    BulbRgbXYUpdate {
                        color_hex: None,
                        hue: hue,
                        saturation: sat,
                        color_x: x,
                        color_y: y,
                        color_temperature: temp,
                        transition_time: tr,
                        on: on,
                        brightness: b,
                    },
                ),
                Some(h) => match RgbColor::spec_from_hex(h) {
                    Some(c) => Ok(
                        BulbRgbXYUpdate {
                            color_hex: Some(c),
                            hue: hue,
                            saturation: sat,
                            color_x: x,
                            color_y: y,
                            color_temperature: temp,
                            transition_time: tr,
                            on: on,
                            brightness: b,
                        },
                    ),
                    None => Err(()),
                },
            },
            _ => Err(()),
        }
    }

    pub fn parse(j: &Json) -> (r: Result<Self, ()>)
        ensures
            r == Self::spec_parse(j@),
    {
        match (j.opt_str("5706"),
        j.opt_u32("5707"),
        j.opt_u32("5708"),
        j.opt_u32("5709"),
        j.opt_u32("5710"),
        j.opt_u32("5711"),
        j.opt_u32("5712"),
        j.opt_bool("5850"),
        j.opt_u8("5851")) {
            (Ok(hex), Ok(hue), Ok(sat), Ok(x), Ok(y), Ok(temp), Ok(tr), Ok(on), Ok(b)) => match hex {
                None => Ok(
                    BulbRgbXYUpdate {
                        color_hex: None,
                        hue: hue,
                        saturation: sat,
                        color_x: x,
                        color_y: y,
                        color_temperature: temp,
                        transition_time: tr,
                        on: on,
                        brightness: b,
                    },
                ),
                Some(h) => match RgbColor::from_hex(h) {
                    Some(c) => Ok(
                        BulbRgbXYUpdate {
                            color_hex: Some(c),
                            hue: hue,
                            saturation: sat,
                            color_x: x,
                            color_y: y,
                            color_temperature: temp,
                            transition_time: tr,
                            on: on,
                            brightness: b,
                        },
                    ),
                    None => Err(()),
                },
            },
            _ => Err(()),
        }
    }

    /// Whether every member of the update is set.
    pub open spec fn fully_set(self) -> bool {
        &&& self.color_hex is Some
        &&& self.hue is Some
        &&& self.saturation is Some
        &&& self.color_x is Some
        &&& self.color_y is Some
        &&& self.color_temperature is Some
        &&& self.transition_time is Some
        &&& self.on is Some
        &&& self.brightness is Some
    }
}

/// A fully set driver update decodes back to itself, and an update with no
/// member set encodes to the empty object.
pub proof fn lemma_driver_update_round_trip(u: DriverUpdate)
    ensures
        u.fully_set() ==> DriverUpdate::spec_parse(u.spec_enc()) == Ok::<DriverUpdate, ()>(u),
        u == (DriverUpdate { transition_time: None, on: None, brightness: None })
            ==> u.spec_enc() == JsonV::Obj(Seq::<(Seq<char>, JsonV)>::empty()),
{
    lemma_wire_key_chars();
    reveal_with_fuel(crate::json::obj_lookup, 5);
}

/// A sparse update of one bulb, shaped like the bulb it addresses. As with
/// bulbs themselves, the payload carries no tag: the shape is resolved
/// structurally, most specific first, by which colour members are present.
#[derive(Clone, Copy, PartialEq, Eq, Structural, Debug)]
pub enum BulbUpdate {
    DriverUpdate(DriverUpdate),
    BulbColdWarmHexUpdate(BulbColdWarmHexUpdate),
    BulbRgbXYUpdate(BulbRgbXYUpdate),
}

impl BulbUpdate {
    pub open spec fn spec_enc(self) -> JsonV {
        match self {
            BulbUpdate::DriverUpdate(u) => u.spec_enc(),
            BulbUpdate::BulbColdWarmHexUpdate(u) => u.spec_enc(),
            BulbUpdate::BulbRgbXYUpdate(u) => u.spec_enc(),
        }
    }

    /// Serializes the update as the sparse object of its shape.
    pub fn enc(&self) -> (r: Json)
        ensures
            r@ == self.spec_enc(),
    {
        match self {
            BulbUpdate::DriverUpdate(u) => u.enc(),
            BulbUpdate::BulbColdWarmHexUpdate(u) => u.enc(),
            BulbUpdate::BulbRgbXYUpdate(u) => u.enc(),
        }
    }

    /// Structural resolution of the update's shape, most specific first,
    /// mirroring the resolution of bulb shapes.
    pub open spec fn spec_parse(j: JsonV) -> Result<BulbUpdate, ()> {
        if j.has("5709"@) || j.has("5710"@) {
            match BulbRgbXYUpdate::spec_parse(j) {
                Ok(u) => Ok(BulbUpdate::BulbRgbXYUpdate(u)),
                Err(e) => Err(e),
            }
        } else if j.has("5706"@) || j.has("5707"@) || j.has("5708"@) || j.has("5711"@) {
            match BulbColdWarmHexUpdate::spec_parse(j) {
                Ok(u) => Ok(BulbUpdate::BulbColdWarmHexUpdate(u)),
                Err(e) => Err(e),
            }
        } else {
            match DriverUpdate::spec_parse(j) {
                Ok(u) => Ok(BulbUpdate::DriverUpdate(u)),
                Err(e) => Err(e),
            }
        }
    }

    pub fn parse(j: &Json) -> (r: Result<Self, ()>)
        ensures
            r == Self::spec_parse(j@),
    {
        if j.has("5709") || j.has("5710") {
            match BulbRgbXYUpdate::parse(j) {
                Ok(u) => Ok(BulbUpdate::BulbRgbXYUpdate(u)),
                Err(e) => Err(e),
            }
        } else if j.has("5706") || j.has("5707") || j.has("5708") || j.has("5711") {
            match BulbColdWarmHexUpdate::parse(j) {
                Ok(u) => Ok(BulbUpdate::BulbColdWarmHexUpdate(u)),
                Err(e) => Err(e),
            }
        } else {
            match DriverUpdate::parse(j) {
                Ok(u) => Ok(BulbUpdate::DriverUpdate(u)),
                Err(e) => Err(e),
            }
        }
    }

    /// Whether every member of the update's shape is set.
    pub open spec fn fully_set(self) -> bool {
        match self {
            BulbUpdate::DriverUpdate(u) => u.fully_set(),
            BulbUpdate::BulbColdWarmHexUpdate(u) => u.fully_set(),
            BulbUpdate::BulbRgbXYUpdate(u) => u.fully_set(),
        }
    }
}

/// A fully set bulb update of any shape decodes back to the same shape
/// with the same members.
pub proof fn lemma_bulb_update_round_trip(u: BulbUpdate)
    requires
        u.fully_set(),
    ensures
        BulbUpdate::spec_parse(u.spec_enc()) == Ok::<BulbUpdate, ()>(u),
{
    lemma_wire_key_chars();
    reveal_with_fuel(crate::json::obj_lookup, 11);
    match u {
        BulbUpdate::DriverUpdate(d) => lemma_driver_update_round_trip(d),
        BulbUpdate::BulbColdWarmHexUpdate(c) => lemma_cold_warm_update_round_trip(c),
        BulbUpdate::BulbRgbXYUpdate(r) => lemma_rgb_xy_update_round_trip(r),
    }
}

/// A sparse update of a whole light fixture: one bulb update per bulb,
/// carried as array `3311`.
#[derive(Clone, PartialEq, Eq, Debug)]
pub enum DeviceUpdate {
    BulbUpdate { bulbs: Vec<BulbUpdate> },
}

/// The serialized form of a sequence of bulb updates.
pub open spec fn spec_enc_bulb_updates(bulbs: Seq<BulbUpdate>) -> Seq<JsonV> {
    Seq::new(bulbs.len(), |i: int| bulbs[i].spec_enc())
}

/// The serialized form of a device update: one object whose only member,
/// `3311`, carries the bulb updates in order.
pub open spec fn spec_enc_device_update(bulbs: Seq<BulbUpdate>) -> JsonV {
    JsonV::Obj(seq![("3311"@, JsonV::Arr(spec_enc_bulb_updates(bulbs)))])
}

/// The bulb updates named by an array of serialized bulb updates, if every
/// element decodes.
pub open spec fn spec_parse_bulb_updates(items: Seq<JsonV>) -> Result<Seq<BulbUpdate>, ()>
    decreases items.len(),
{
    if items.len() == 0 {
        Ok(Seq::empty())
    } else {
        match (spec_parse_bulb_updates(items.drop_last()), BulbUpdate::spec_parse(items.last())) {
            (Ok(rest), Ok(b)) => Ok(rest.push(b)),
            _ => Err(()),
        }
    }
}

/// The device update named by a serialized payload: member `3311` must be
/// an array whose every element decodes as a bulb update.
pub open spec fn spec_parse_device_update(j: JsonV) -> Result<Seq<BulbUpdate>, ()> {
    match j.req_arr("3311"@) {
        Ok(items) => spec_parse_bulb_updates(items),
        Err(e) => Err(e),
    }
}

proof fn lemma_parse_bulb_updates_prefix_err(items: Seq<JsonV>, i: int)
    requires
        0 <= i < items.len(),
        BulbUpdate::spec_parse(items[i]) is Err,
    ensures
        spec_parse_bulb_updates(items) is Err,
    decreases items.len(),
{
    if i < items.len() - 1 {
        lemma_parse_bulb_updates_prefix_err(items.drop_last(), i);
    }
}

impl DeviceUpdate {
    /// The bulb updates this device update carries, in order.
    pub open spec fn view(self) -> Seq<BulbUpdate> {
        match self {
            DeviceUpdate::BulbUpdate { bulbs } => bulbs@,
        }
    }

    /// Serializes the update: only `3311` is emitted, and each bulb update
    /// is the sparse object of its own shape.
    pub fn enc(&self) -> (r: Json)
        ensures
            r@ == spec_enc_device_update(self@),
    {
        match self {
            DeviceUpdate::BulbUpdate { bulbs } => {
                let mut items: Vec<Json> = Vec::new();
                let n = bulbs.len();
                let mut i: usize = 0;
                while i < n
                    invariant
                        0 <= i <= n,
                        n == bulbs@.len(),
                        items@.len() == i,
                        forall|k: int| 0 <= k < i ==> items@[k]@ == bulbs@[k].spec_enc(),
                    decreases n - i,
                {
                    items.push(bulbs[i].enc());
                    i = i + 1;
                }
                proof {
                    crate::json::lemma_view_items(items@, items@.len() as int);
                    assert(crate::json::view_items(items@, items@.len() as int)
                        =~= spec_enc_bulb_updates(bulbs@));
                }
                let mut fields: Vec<(String, Json)> = Vec::new();
                fields.push((String::from_str("3311"), Json::Arr(items)));
                proof {
                    lemma_view_fields(fields@, fields@.len() as int);
                    assert(view_fields(fields@, fields@.len() as int) =~= seq![
                        ("3311"@, JsonV::Arr(spec_enc_bulb_updates(bulbs@))),
                    ]);
                }
                Json::Obj(fields)
            },
        }
    }

    pub fn parse(j: &Json) -> (r: Result<DeviceUpdate, ()>)
        ensures
            match r {
                Ok(d) => spec_parse_device_update(j@) == Ok::<Seq<BulbUpdate>, ()>(d@),
                Err(_) => spec_parse_device_update(j@) is Err,
            },
    {
        let items = match j.req_arr("3311") {
            Ok(v) => v,
            Err(_) => {
                return Err(());
            },
        };
        let ghost itemsv = crate::json::view_items(items@, items@.len() as int);
        proof {
            crate::json::lemma_view_items(items@, items@.len() as int);
        }
        let mut bulbs: Vec<BulbUpdate> = Vec::new();
        let n = items.len();
        let mut i: usize = 0;
        while i < n
            invariant
                0 <= i <= n,
                n == items@.len(),
                itemsv.len() == n,
                j@.req_arr("3311"@) == Ok::<Seq<JsonV>, ()>(itemsv),
                forall|k: int| 0 <= k < n ==> itemsv[k] == items@[k]@,
                spec_parse_bulb_updates(itemsv.take(i as int)) == Ok::<Seq<BulbUpdate>, ()>(
                    bulbs@,
                ),
            decreases n - i,
        {
            match BulbUpdate::parse(&items[i]) {
                Ok(b) => {
                    bulbs.push(b);
                    proof {
                        assert(itemsv.take(i + 1 as int).drop_last() =~= itemsv.take(i as int));
                        assert(itemsv.take(i + 1 as int).last() == itemsv[i as int]);
                    }
                },
                Err(_) => {
                    proof {
                        lemma_parse_bulb_updates_prefix_err(itemsv, i as int);
                    }
                    return Err(());
                },
            }
            i = i + 1;
        }
        proof {
            assert(itemsv.take(n as int) =~= itemsv);
        }
        Ok(DeviceUpdate::BulbUpdate { bulbs })
    }
}

/// A device update whose bulb updates are all fully set decodes back to
/// the same updates in the same order.
pub proof fn lemma_device_update_round_trip(bulbs: Seq<BulbUpdate>)
    requires
        forall|i: int| 0 <= i < bulbs.len() ==> bulbs[i].fully_set(),
    ensures
        spec_parse_device_update(spec_enc_device_update(bulbs)) == Ok::<Seq<BulbUpdate>, ()>(
            bulbs,
        ),
{
    lemma_wire_key_chars();
    reveal_with_fuel(crate::json::obj_lookup, 2);
    assert(spec_enc_device_update(bulbs).req_arr("3311"@) == Ok::<Seq<JsonV>, ()>(
        spec_enc_bulb_updates(bulbs),
    ));
    lemma_parse_enc_bulb_updates(bulbs);
}

proof fn lemma_parse_enc_bulb_updates(bulbs: Seq<BulbUpdate>)
    requires
        forall|i: int| 0 <= i < bulbs.len() ==> bulbs[i].fully_set(),
    ensures
        spec_parse_bulb_updates(spec_enc_bulb_updates(bulbs)) == Ok::<Seq<BulbUpdate>, ()>(
            bulbs,
        ),
    decreases bulbs.len(),
{
    let enc = spec_enc_bulb_updates(bulbs);
    if bulbs.len() == 0 {
        assert(bulbs =~= Seq::<BulbUpdate>::empty());
    } else {
        assert(enc.drop_last() =~= spec_enc_bulb_updates(bulbs.drop_last()));
        lemma_parse_enc_bulb_updates(bulbs.drop_last());
        lemma_bulb_update_round_trip(bulbs.last());
        assert(bulbs.drop_last().push(bulbs.last()) =~= bulbs);
    }
}

/// A fully set cold/warm update decodes back to itself, and an update with
/// no member set encodes to the empty object.
pub proof fn lemma_cold_warm_update_round_trip(u: BulbColdWarmHexUpdate)
    ensures
        u.fully_set() ==> BulbColdWarmHexUpdate::spec_parse(u.spec_enc())
            == Ok::<BulbColdWarmHexUpdate, ()>(u),
        u == BulbColdWarmHexUpdate::spec_unset() ==> u.spec_enc() == JsonV::Obj(
            Seq::<(Seq<char>, JsonV)>::empty(),
        ),
{
    lemma_wire_key_chars();
    reveal_with_fuel(crate::json::obj_lookup, 9);
    if u.fully_set() {
        crate::device::color::lemma_cold_warm_hex_round_trip(u.color_hex->0);
    }
}

/// A fully set full-colour update decodes back to itself, and an update
/// with no member set encodes to the empty object.
pub proof fn lemma_rgb_xy_update_round_trip(u: BulbRgbXYUpdate)
    ensures
        u.fully_set() ==> BulbRgbXYUpdate::spec_parse(u.spec_enc()) == Ok::<
            BulbRgbXYUpdate,
            (),
        >(u),
        u == BulbRgbXYUpdate::spec_unset() ==> u.spec_enc() == JsonV::Obj(
            Seq::<(Seq<char>, JsonV)>::empty(),
        ),
{
    lemma_wire_key_chars();
    reveal_with_fuel(crate::json::obj_lookup, 11);
    if u.fully_set() {
        crate::device::color::lemma_rgb_hex_round_trip(u.color_hex->0);
    }
}


/// The device update a byte payload names: the byte-level decode for
/// updates.
pub open spec fn spec_decode_device_update(bytes: Seq<u8>) -> Result<Seq<BulbUpdate>, ()> {
    match crate::json_text::spec_parse_json(bytes) {
        Some(j) => spec_parse_device_update(j),
        None => Err(()),
    }
}

impl DeviceUpdate {
    /// Serializes the update to the byte payload of a mutation request:
    /// exactly the canonical text of its sparse object.
    pub fn to_payload(&self) -> (r: Vec<u8>)
        ensures
            r@ == crate::json_text::ser_json(spec_enc_device_update(self@)),
    {
        let j = self.enc();
        crate::json_text::to_bytes(&j)
    }

    /// Decodes a byte payload as a device update.
    pub fn from_payload(bytes: &[u8]) -> (r: Result<DeviceUpdate, ()>)
        ensures
            match r {
                Ok(d) => spec_decode_device_update(bytes@) == Ok::<Seq<BulbUpdate>, ()>(d@),
                Err(_) => spec_decode_device_update(bytes@) is Err,
            },
    {
        match crate::json_text::parse_json(bytes) {
            Some(j) => Self::parse(&j),
            None => Err(()),
        }
    }
}

/// The round trip through the wire bytes: a device update whose members
/// are all set decodes from its own payload unchanged, member for member.
pub proof fn lemma_device_update_payload_round_trip(bulbs: Seq<BulbUpdate>)
    requires
        forall|i: int| 0 <= i < bulbs.len() ==> bulbs[i].fully_set(),
        crate::json_text::ser_json(spec_enc_device_update(bulbs)).len()
            <= crate::json_text::max_text_len(),
    ensures
        spec_decode_device_update(crate::json_text::ser_json(spec_enc_device_update(bulbs)))
            == Ok::<Seq<BulbUpdate>, ()>(bulbs),
{
    crate::json_text::lemma_parse_ser_json(spec_enc_device_update(bulbs));
    lemma_device_update_round_trip(bulbs);
}


impl DriverUpdate {
    /// The state a plain driver reaches when this update is applied: a set
    /// member takes its new value, an unset member leaves the state as it
    /// was.
    pub open spec fn spec_apply(self, d: LedDriverParsed) -> LedDriverParsed {
        LedDriverParsed {
            on: match self.on {
                Some(b) => b,
                None => d.on,
            },
            brightness: match self.brightness {
                Some(b) => b,
                None => d.brightness,
            },
        }
    }
}

impl BulbColdWarmHexUpdate {
    /// The state a cold/warm-white bulb reaches when this update is
    /// applied: a set member takes its new value, an unset member leaves
    /// the state as it was.
    pub open spec fn spec_apply(self, b: BulbColdWarmHexParsed) -> BulbColdWarmHexParsed {
        BulbColdWarmHexParsed {
            color_hex: match self.color_hex {
                Some(c) => c,
                None => b.color_hex,
            },
            hue: match self.hue {
                Some(h) => Some(h),
                None => b.hue,
            },
            saturation: match self.saturation {
                Some(s) => Some(s),
                None => b.saturation,
            },
            color_temperature: match self.color_temperature {
                Some(t) => Some(t),
                None => b.color_temperature,
            },
            on: match self.on {
                Some(x) => x,
                None => b.on,
            },
            brightness: match self.brightness {
                Some(x) => x,
                None => b.brightness,
            },
        }
    }
}

impl BulbRgbXYUpdate {
    /// The state a full-colour bulb reaches when this update is applied: a
    /// set member takes its new value, an unset member leaves the state as
    /// it was.
    pub open spec fn spec_apply(self, b: BulbRgbXYParsed) -> BulbRgbXYParsed {
        BulbRgbXYParsed {
            color_hex: match self.color_hex {
                Some(c) => c,
                None => b.color_hex,
            },
            hue: match self.hue {
                Some(h) => Some(h),
                None => b.hue,
            },
            saturation: match self.saturation {
                Some(s) => Some(s),
                None => b.saturation,
            },
            color_x: match self.color_x {
                Some(x) => x,
                None => b.color_x,
            },
            color_y: match self.color_y {
                Some(y) => y,
                None => b.color_y,
            },
            color_temperature: match self.color_temperature {
                Some(t) => Some(t),
                None => b.color_temperature,
            },
            on: match self.on {
                Some(x) => x,
                None => b.on,
            },
            brightness: match self.brightness {
                Some(x) => x,
                None => b.brightness,
            },
        }
    }
}

impl BulbUpdate {
    /// The state a bulb reaches when this update is applied. The update is
    /// built with the bulb's own shape; one of another shape changes
    /// nothing.
    pub open spec fn spec_apply(self, b: BulbParsed) -> BulbParsed {
        match (self, b) {
            (BulbUpdate::DriverUpdate(u), BulbParsed::LedDriver(d)) => BulbParsed::LedDriver(
                u.spec_apply(d),
            ),
            (
                BulbUpdate::BulbColdWarmHexUpdate(u),
                BulbParsed::BulbColdWarmHex(d),
            ) => BulbParsed::BulbColdWarmHex(u.spec_apply(d)),
            (BulbUpdate::BulbRgbXYUpdate(u), BulbParsed::BulbRgbXY(d)) => BulbParsed::BulbRgbXY(
                u.spec_apply(d),
            ),
            _ => b,
        }
    }

    /// Applies the update to a bulb's state.
    pub fn apply(&self, b: &BulbParsed) -> (r: BulbParsed)
        ensures
            r == self.spec_apply(*b),
    {
        match (self, b) {
            (BulbUpdate::DriverUpdate(u), BulbParsed::LedDriver(d)) => BulbParsed::LedDriver(
                LedDriverParsed {
                    on: match u.on {
                        Some(x) => x,
                        None => d.on,
                    },
                    brightness: match u.brightness {
                        Some(x) => x,
                        None => d.brightness,
                    },
                },
            ),
            (BulbUpdate::BulbColdWarmHexUpdate(u), BulbParsed::BulbColdWarmHex(d)) => BulbParsed::BulbColdWarmHex(
                BulbColdWarmHexParsed {
                    color_hex: match u.color_hex {
                        Some(c) => c,
                        None => d.color_hex,
                    },
                    hue: match u.hue {
                        Some(h) => Some(h),
                        None => d.hue,
                    },
                    saturation: match u.saturation {
                        Some(s) => Some(s),
                        None => d.saturation,
                    },
                    color_temperature: match u.color_temperature {
                        Some(t) => Some(t),
                        None => d.color_temperature,
                    },
                    on: match u.on {
                        Some(x) => x,
                        None => d.on,
                    },
                    brightness: match u.brightness {
                        Some(x) => x,
                        None => d.brightness,
                    },
                },
            ),
            (BulbUpdate::BulbRgbXYUpdate(u), BulbParsed::BulbRgbXY(d)) => BulbParsed::BulbRgbXY(
                BulbRgbXYParsed {
                    color_hex: match u.color_hex {
                        Some(c) => c,
                        None => d.color_hex,
                    },
                    hue: match u.hue {
                        Some(h) => Some(h),
                        None => d.hue,
                    },
                    saturation: match u.saturation {
                        Some(s) => Some(s),
                        None => d.saturation,
                    },
                    color_x: match u.color_x {
                        Some(x) => x,
                        None => d.color_x,
                    },
                    color_y: match u.color_y {
                        Some(y) => y,
                        None => d.color_y,
                    },
                    color_temperature: match u.color_temperature {
                        Some(t) => Some(t),
                        None => d.color_temperature,
                    },
                    on: match u.on {
                        Some(x) => x,
                        None => d.on,
                    },
                    brightness: match u.brightness {
                        Some(x) => x,
                        None => d.brightness,
                    },
                },
            ),
            _ => *b,
        }
    }
}

/// The states a fixture's bulbs reach when a device update is applied: the
/// updates address the bulbs in order; a bulb beyond the updates keeps its
/// state.
pub open spec fn spec_apply_bulb_updates(bulbs: Seq<BulbParsed>, us: Seq<BulbUpdate>) -> Seq<
    BulbParsed,
> {
    Seq::new(
        bulbs.len(),
        |i: int|
            if i < us.len() {
                us[i].spec_apply(bulbs[i])
            } else {
                bulbs[i]
            },
    )
}

/// Applying a bulb update a second time changes nothing: every set member
/// is set to the same value again, every unset member is left alone both
/// times.
pub proof fn lemma_bulb_update_idempotent(u: BulbUpdate, b: BulbParsed)
    ensures
        u.spec_apply(u.spec_apply(b)) == u.spec_apply(b),
{
}

/// Applying the same device update twice yields the same bulb states as
/// applying it once.
pub proof fn lemma_device_update_idempotent(bulbs: Seq<BulbParsed>, us: Seq<BulbUpdate>)
    ensures
        spec_apply_bulb_updates(spec_apply_bulb_updates(bulbs, us), us) == spec_apply_bulb_updates(
            bulbs,
            us,
        ),
{
    let once = spec_apply_bulb_updates(bulbs, us);
    assert forall|i: int| 0 <= i < bulbs.len() implies spec_apply_bulb_updates(once, us)[i]
        == once[i] by {
        if i < us.len() {
            lemma_bulb_update_idempotent(us[i], bulbs[i]);
        }
    }
    assert(spec_apply_bulb_updates(once, us) =~= once);
}

} // verus!
