use vstd::prelude::*;

use crate::device::BulbUpdate;
use crate::device::DeviceUpdate;
use crate::device::DriverUpdate;
use crate::device::spec_enc_device_update;
use crate::json::Json;
use crate::json::JsonV;
use crate::json::view_items;
use crate::json::view_fields;
use crate::json::lemma_view_items;
use crate::json::lemma_view_fields;
use crate::json_text::ser_json;
use crate::json_text::to_bytes;
use crate::tradfri_coap::device::DeviceInfo;
use crate::tradfri_coap::device::colournames::ColourName;

verus! {

/// The compact state of one bulb: raw on/off word `5850`, dimmer level
/// `5851`, and colour members `5706`, `5709`, `5710` that default when
/// absent.
#[derive(Clone, Copy, PartialEq, Eq, Structural, Debug)]
pub struct LightState {
    pub state: u8,
    pub dimmer: u8,
    pub colour_name: ColourName,
    pub colour_x: u32,
    pub colour_y: u32,
}

impl LightState {
    pub open spec fn spec_parse(j: JsonV) -> Result<LightState, ()> {
        match (j.req_u8("5850"@), j.req_u8("5851"@), j.opt_str("5706"@), j.opt_u32("5709"@),
        j.opt_u32("5710"@)) {
            (Ok(s), Ok(d), Ok(hex), Ok(x), Ok(y)) => Ok(
                LightState {
                    state: s,
                    dimmer: d,
                    colour_name: match hex {
                        Some(h) => ColourName::spec_from_hex_or_default(h),
                        None => ColourName::WarmGlow,
                    },
                    colour_x: match x {
                        Some(v) => v,
                        None => 0,
                    },
                    colour_y: match y {
                        Some(v) => v,
                        None => 0,
                    },
                },
            ),
            _ => Err(()),
        }
    }

    pub fn parse(j: &Json) -> (r: Result<Self, ()>)
        ensures
            r == Self::spec_parse(j@),
    {
        match (j.req_u8("5850"), j.req_u8("5851"), j.opt_str("5706"), j.opt_u32("5709"), j.opt_u32(
            "5710",
        )) {
            (Ok(s), Ok(d), Ok(hex), Ok(x), Ok(y)) => Ok(
                LightState {
                    state: s,
                    dimmer: d,
                    colour_name: match hex {
                        Some(h) => ColourName::from_hex_or_default(h),
                        None => ColourName::WarmGlow,
                    },
                    colour_x: match x {
                        Some(v) => v,
                        None => 0,
                    },
                    colour_y: match y {
                        Some(v) => v,
                        None => 0,
                    },
                },
            ),
            _ => Err(()),
        }
    }
}

/// A light fixture in the compact schema: display name `9001`, resource id
/// `9003`, manufacturer object `3` (flattened) and the bulb list `3311`.
#[derive(Clone, PartialEq, Eq, Debug)]
pub struct Light {
    pub name: String,
    pub id: u32,
    pub lights: Vec<LightState>,
    pub mfr: String,
    pub device_name: String,
    pub version: String,
}

/// The model of a compact `Light`.
pub struct LightModel {
    pub name: Seq<char>,
    pub id: u32,
    pub lights: Seq<LightState>,
    pub mfr: Seq<char>,
    pub device_name: Seq<char>,
    pub version: Seq<char>,
}

/// The bulb states named by the elements of a compact bulb list, if every
/// element decodes.
pub open spec fn spec_parse_light_states(items: Seq<JsonV>) -> Result<Seq<LightState>, ()>
    decreases items.len(),
{
    if items.len() == 0 {
        Ok(Seq::empty())
    } else {
        match (spec_parse_light_states(items.drop_last()), LightState::spec_parse(items.last())) {
            (Ok(rest), Ok(s)) => Ok(rest.push(s)),
            _ => Err(()),
        }
    }
}

proof fn lemma_parse_light_states_err(items: Seq<JsonV>, i: int)
    requires
        0 <= i < items.len(),
        LightState::spec_parse(items[i]) is Err,
    ensures
        spec_parse_light_states(items) is Err,
    decreases items.len(),
{
    if i < items.len() - 1 {
        lemma_parse_light_states_err(items.drop_last(), i);
    }
}

impl Light {
    pub open spec fn view(&self) -> LightModel {
        LightModel {
            name: self.name@,
            id: self.id,
            lights: self.lights@,
            mfr: self.mfr@,
            device_name: self.device_name@,
            version: self.version@,
        }
    }

    pub open spec fn spec_parse(j: JsonV) -> Result<LightModel, ()> {
        match (j.req_str("9001"@), j.req_u32("9003"@), j.req_obj("3"@), j.req_arr("3311"@)) {
            (Ok(name), Ok(id), Ok(info_j), Ok(items)) => match (DeviceInfo::spec_parse(info_j),
            spec_parse_light_states(items)) {
                (Ok(info), Ok(ls)) => Ok(
                    LightModel {
                        name: name,
                        id: id,
                        lights: ls,
                        mfr: info.mfr,
                        device_name: info.device_name,
                        version: info.version,
                    },
                ),
                _ => Err(()),
            },
            _ => Err(()),
        }
    }

    /// Decodes a compact light from its resource object.
    pub fn new(j: &Json) -> (r: Result<Light, ()>)
        ensures
            match r {
                Ok(l) => Self::spec_parse(j@) == Ok::<LightModel, ()>(l@),
                Err(_) => Self::spec_parse(j@) is Err,
            },
    {
        let name = match j.req_str("9001") {
            Ok(n) => n,
            Err(_) => {
                return Err(());
            },
        };
        let id = match j.req_u32("9003") {
            Ok(i) => i,
            Err(_) => {
                return Err(());
            },
        };
        let info_j = match j.req_obj("3") {
            Ok(o) => o,
            Err(_) => {
                return Err(());
            },
        };
        let items = match j.req_arr("3311") {
            Ok(a) => a,
            Err(_) => {
                return Err(());
            },
        };
        let info = match DeviceInfo::parse(info_j) {
            Ok(i) => i,
            Err(_) => {
                return Err(());
            },
        };
        let ghost itemsv = view_items(items@, items@.len() as int);
        proof {
            lemma_view_items(items@, items@.len() as int);
        }
        let mut ls: Vec<LightState> = Vec::new();
        let n = items.len();
        let mut i: usize = 0;
        while i < n
            invariant
                0 <= i <= n,
                n == items@.len(),
                itemsv.len() == n,
                itemsv == view_items(items@, items@.len() as int),
                forall|k: int| 0 <= k < n ==> itemsv[k] == items@[k]@,
                spec_parse_light_states(itemsv) is Err ==> Light::spec_parse(j@) is Err,
                spec_parse_light_states(itemsv.take(i as int)) == Ok::<Seq<LightState>, ()>(ls@),
            decreases n - i,
        {
            match LightState::parse(&items[i]) {
                Ok(s) => {
                    ls.push(s);
                    proof {
                        assert(itemsv.take(i + 1 as int).drop_last() =~= itemsv.take(i as int));
                        assert(itemsv.take(i + 1 as int).last() == itemsv[i as int]);
                    }
                },
                Err(_) => {
                    proof {
                        lemma_parse_light_states_err(itemsv, i as int);
                    }
                    return Err(());
                },
            }
            i = i + 1;
        }
        proof {
            assert(itemsv.take(n as int) =~= itemsv);
        }
        Ok(
            Light {
                name: name.clone(),
                id: id,
                lights: ls,
                mfr: info.mfr,
                device_name: info.device_name,
                version: info.version,
            },
        )
    }

    /// The payload of the mutation request that switches the fixture on.
    pub fn on(&self) -> (r: Vec<u8>)
        ensures
            r@ == ser_json(
                spec_enc_device_update(
                    seq![
                        BulbUpdate::DriverUpdate(
                            DriverUpdate { transition_time: None, on: Some(true), brightness: None },
                        ),
                    ],
                ),
            ),
    {
        crate::tradfri_coap::device::outlet::switch_payload(true)
    }

    /// The payload of the mutation request that switches the fixture off.
    pub fn off(&self) -> (r: Vec<u8>)
        ensures
            r@ == ser_json(
                spec_enc_device_update(
                    seq![
                        BulbUpdate::DriverUpdate(
                            DriverUpdate { transition_time: None, on: Some(false), brightness: None },
                        ),
                    ],
                ),
            ),
    {
        crate::tradfri_coap::device::outlet::switch_payload(false)
    }

    /// The payload of the mutation request that dims the fixture to the
    /// given level: one driver-shaped update with only brightness set.
    pub fn dim(&self, level: u8) -> (r: Vec<u8>)
        ensures
            r@ == ser_json(
                spec_enc_device_update(
                    seq![
                        BulbUpdate::DriverUpdate(
                            DriverUpdate {
                                transition_time: None,
                                on: None,
                                brightness: Some(level),
                            },
                        ),
                    ],
                ),
            ),
    {
        let mut bulbs: Vec<BulbUpdate> = Vec::new();
        bulbs.push(
            BulbUpdate::DriverUpdate(
                DriverUpdate { transition_time: None, on: None, brightness: Some(level) },
            ),
        );
        let u = DeviceUpdate::BulbUpdate { bulbs };
        proof {
            assert(u@ =~= seq![
                BulbUpdate::DriverUpdate(
                    DriverUpdate { transition_time: None, on: None, brightness: Some(level) },
                ),
            ]);
        }
        u.to_payload()
    }

    /// The payload of the mutation request that recolours the fixture: one
    /// bulb object carrying only the colour word. A colour name is used
    /// rather than a free string, since unknown words would silently fall
    /// back to the default glow.
    pub fn colour(&self, colour: ColourName) -> (r: Vec<u8>)
        ensures
            r@ == ser_json(
                JsonV::Obj(
                    seq![
                        (
                            "3311"@,
                            JsonV::Arr(
                                seq![JsonV::Obj(seq![("5706"@, JsonV::Str(colour.spec_hex()))])],
                            ),
                        ),
                    ],
                ),
            ),
    {
        let mut inner: Vec<(String, Json)> = Vec::new();
        inner.push((String::from_str("5706"), Json::Str(colour.hex())));
        proof {
            lemma_view_fields(inner@, 1);
            assert(view_fields(inner@, 1) =~= seq![("5706"@, JsonV::Str(colour.spec_hex()))]);
        }
        let mut items: Vec<Json> = Vec::new();
        items.push(Json::Obj(inner));
        proof {
            lemma_view_items(items@, 1);
            assert(view_items(items@, 1) =~= seq![
                JsonV::Obj(seq![("5706"@, JsonV::Str(colour.spec_hex()))]),
            ]);
        }
        let mut fields: Vec<(String, Json)> = Vec::new();
        fields.push((String::from_str("3311"), Json::Arr(items)));
        proof {
            lemma_view_fields(fields@, 1);
            assert(view_fields(fields@, 1) =~= seq![
                (
                    "3311"@,
                    JsonV::Arr(seq![JsonV::Obj(seq![("5706"@, JsonV::Str(colour.spec_hex()))])]),
                ),
            ]);
        }
        let j = Json::Obj(fields);
        to_bytes(&j)
    }

    /// The payload of the mutation request that sets the fixture's
    /// chromaticity coordinates: one bulb object carrying only `5709` and
    /// `5710`.
    pub fn colour_xy(&self, x: u32, y: u32) -> (r: Vec<u8>)
        ensures
            r@ == ser_json(
                JsonV::Obj(
                    seq![
                        (
                            "3311"@,
                            JsonV::Arr(
                                seq![
                                    JsonV::Obj(
                                        seq![
                                            ("5709"@, JsonV::Num(x as u64)),
                                            ("5710"@, JsonV::Num(y as u64)),
                                        ],
                                    ),
                                ],
                            ),
                        ),
                    ],
                ),
            ),
    {
        let mut inner: Vec<(String, Json)> = Vec::new();
        inner.push((String::from_str("5709"), Json::Num(x as u64)));
        inner.push((String::from_str("5710"), Json::Num(y as u64)));
        proof {
            lemma_view_fields(inner@, 2);
            assert(view_fields(inner@, 2) =~= seq![
                ("5709"@, JsonV::Num(x as u64)),
                ("5710"@, JsonV::Num(y as u64)),
            ]);
        }
        let mut items: Vec<Json> = Vec::new();
        items.push(Json::Obj(inner));
        proof {
            lemma_view_items(items@, 1);
            assert(view_items(items@, 1) =~= seq![
                JsonV::Obj(seq![("5709"@, JsonV::Num(x as u64)), ("5710"@, JsonV::Num(y as u64))]),
            ]);
        }
        let mut fields: Vec<(String, Json)> = Vec::new();
        fields.push((String::from_str("3311"), Json::Arr(items)));
        proof {
            lemma_view_fields(fields@, 1);
            assert(view_fields(fields@, 1) =~= seq![
                (
                    "3311"@,
                    JsonV::Arr(
                        seq![
                            JsonV::Obj(
                                seq![
                                    ("5709"@, JsonV::Num(x as u64)),
                                    ("5710"@, JsonV::Num(y as u64)),
                                ],
                            ),
                        ],
                    ),
                ),
            ]);
        }
        let j = Json::Obj(fields);
        to_bytes(&j)
    }
}

} // verus!
