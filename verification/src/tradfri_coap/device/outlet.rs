use vstd::prelude::*;

use crate::device::BulbUpdate;
use crate::device::DeviceUpdate;
use crate::device::DriverUpdate;
use crate::device::spec_enc_device_update;
use crate::json::Json;
use crate::json::JsonV;
use crate::json::view_items;
use crate::json::lemma_view_items;
use crate::json_text::ser_json;
use crate::tradfri_coap::device::DeviceInfo;
use crate::tradfri_coap::device::DeviceInfoModel;

verus! {

/// The state of one relay of a control outlet: raw on/off word `5850` and
/// the (unused) dimmer level `5851`.
#[derive(Clone, Copy, PartialEq, Eq, Structural, Debug)]
pub struct OutletState {
    pub state: u8,
    pub dimmer: u8,
}

impl OutletState {
    pub open spec fn spec_parse(j: JsonV) -> Result<OutletState, ()> {
        match (j.req_u8("5850"@), j.req_u8("5851"@)) {
            (Ok(s), Ok(d)) => Ok(OutletState { state: s, dimmer: d }),
            _ => Err(()),
        }
    }

    pub fn parse(j: &Json) -> (r: Result<Self, ()>)
        ensures
            r == Self::spec_parse(j@),
    {
        match (j.req_u8("5850"), j.req_u8("5851")) {
            (Ok(s), Ok(d)) => Ok(OutletState { state: s, dimmer: d }),
            _ => Err(()),
        }
    }
}

/// A control outlet: display name `9001`, resource id `9003`, manufacturer
/// object `3` (flattened) and the relay list `3312`.
#[derive(Clone, PartialEq, Eq, Debug)]
pub struct Outlet {
    pub name: String,
    pub id: u32,
    pub outlets: Vec<OutletState>,
    pub mfr: String,
    pub device_name: String,
    pub version: String,
}

/// The model of an `Outlet`.
pub struct OutletModel {
    pub name: Seq<char>,
    pub id: u32,
    pub outlets: Seq<OutletState>,
    pub mfr: Seq<char>,
    pub device_name: Seq<char>,
    pub version: Seq<char>,
}

/// The relay states named by the elements of a relay list, if every
/// element decodes.
pub open spec fn spec_parse_outlet_states(items: Seq<JsonV>) -> Result<Seq<OutletState>, ()>
    decreases items.len(),
{
    if items.len() == 0 {
        Ok(Seq::empty())
    } else {
        match (spec_parse_outlet_states(items.drop_last()), OutletState::spec_parse(
            items.last(),
        )) {
            (Ok(rest), Ok(s)) => Ok(rest.push(s)),
            _ => Err(()),
        }
    }
}

proof fn lemma_parse_outlet_states_err(items: Seq<JsonV>, i: int)
    requires
        0 <= i < items.len(),
        OutletState::spec_parse(items[i]) is Err,
    ensures
        spec_parse_outlet_states(items) is Err,
    decreases items.len(),
{
    if i < items.len() - 1 {
        lemma_parse_outlet_states_err(items.drop_last(), i);
    }
}

impl Outlet {
    pub open spec fn view(&self) -> OutletModel {
        OutletModel {
            name: self.name@,
            id: self.id,
            outlets: self.outlets@,
            mfr: self.mfr@,
            device_name: self.device_name@,
            version: self.version@,
        }
    }

    pub open spec fn spec_parse(j: JsonV) -> Result<OutletModel, ()> {
        match (j.req_str("9001"@), j.req_u32("9003"@), j.req_obj("3"@), j.req_arr("3312"@)) {
            (Ok(name), Ok(id), Ok(info_j), Ok(items)) => match (DeviceInfo::spec_parse(info_j),
            spec_parse_outlet_states(items)) {
                (Ok(info), Ok(outs)) => Ok(
                    OutletModel {
                        name: name,
                        id: id,
                        outlets: outs,
                        mfr: info.mfr,
                        device_name: info.device_name,
                        version: info.version,
                    },
                ),
                _ => Err(()),
            },
            _ => Err(()),
        }
    }

    /// Decodes a control outlet from its resource object.
    pub fn new(j: &Json) -> (r: Result<Outlet, ()>)
        ensures
            match r {
                Ok(o) => Self::spec_parse(j@) == Ok::<OutletModel, ()>(o@),
                Err(_) => Self::spec_parse(j@) is Err,
            },
    {
        let name = match j.req_str("9001") {
            Ok(n) => n,
            Err(_) => {
                return Err(());
            },
        };
        let id = match j.req_u32("9003") {
            Ok(i) => i,
            Err(_) => {
                return Err(());
            },
        };
        let info_j = match j.req_obj("3") {
            Ok(o) => o,
            Err(_) => {
                return Err(());
            },
        };
        let items = match j.req_arr("3312") {
            Ok(a) => a,
            Err(_) => {
                return Err(());
            },
        };
        let info = match DeviceInfo::parse(info_j) {
            Ok(i) => i,
            Err(_) => {
                return Err(());
            },
        };
        let ghost itemsv = view_items(items@, items@.len() as int);
        proof {
            lemma_view_items(items@, items@.len() as int);
        }
        let mut outs: Vec<OutletState> = Vec::new();
        let n = items.len();
        let mut i: usize = 0;
        while i < n
            invariant
                0 <= i <= n,
                n == items@.len(),
                itemsv.len() == n,
                itemsv == view_items(items@, items@.len() as int),
                forall|k: int| 0 <= k < n ==> itemsv[k] == items@[k]@,
                spec_parse_outlet_states(itemsv) is Err ==> Outlet::spec_parse(j@) is Err,
                spec_parse_outlet_states(itemsv.take(i as int)) == Ok::<Seq<OutletState>, ()>(
                    outs@,
                ),
            decreases n - i,
        {
            match OutletState::parse(&items[i]) {
                Ok(s) => {
                    outs.push(s);
                    proof {
                        assert(itemsv.take(i + 1 as int).drop_last() =~= itemsv.take(i as int));
                        assert(itemsv.take(i + 1 as int).last() == itemsv[i as int]);
                    }
                },
                Err(_) => {
                    proof {
                        lemma_parse_outlet_states_err(itemsv, i as int);
                    }
                    return Err(());
                },
            }
            i = i + 1;
        }
        proof {
            assert(itemsv.take(n as int) =~= itemsv);
        }
        Ok(
            Outlet {
                name: name.clone(),
                id: id,
                outlets: outs,
                mfr: info.mfr,
                device_name: info.device_name,
                version: info.version,
            },
        )
    }

    /// The payload of the mutation request that switches every relay on:
    /// one driver-shaped update with only the on/off member set.
    pub fn on(&self) -> (r: Vec<u8>)
        ensures
            r@ == ser_json(
                spec_enc_device_update(
                    seq![
                        BulbUpdate::DriverUpdate(
                            DriverUpdate { transition_time: None, on: Some(true), brightness: None },
                        ),
                    ],
                ),
            ),
    {
        switch_payload(true)
    }

    /// The payload of the mutation request that switches every relay off.
    pub fn off(&self) -> (r: Vec<u8>)
        ensures
            r@ == ser_json(
                spec_enc_device_update(
                    seq![
                        BulbUpdate::DriverUpdate(
                            DriverUpdate { transition_time: None, on: Some(false), brightness: None },
                        ),
                    ],
                ),
            ),
    {
        switch_payload(false)
    }
}

/// The on/off mutation payload shared by lights and outlets: exactly one
/// driver-shaped update with only the on/off member set.
pub fn switch_payload(on: bool) -> (r: Vec<u8>)
    ensures
        r@ == ser_json(
            spec_enc_device_update(
                seq![
                    BulbUpdate::DriverUpdate(
                        DriverUpdate { transition_time: None, on: Some(on), brightness: None },
                    ),
                ],
            ),
        ),
{
    let mut bulbs: Vec<BulbUpdate> = Vec::new();
    bulbs.push(
        BulbUpdate::DriverUpdate(DriverUpdate { transition_time: None, on: Some(on), brightness: None }),
    );
    let u = DeviceUpdate::BulbUpdate { bulbs };
    proof {
        assert(u@ =~= seq![
            BulbUpdate::DriverUpdate(
                DriverUpdate { transition_time: None, on: Some(on), brightness: None },
            ),
        ]);
    }
    u.to_payload()
}

} // verus!
