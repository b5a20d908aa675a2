pub mod colournames;
pub mod light;
pub mod outlet;

use vstd::prelude::*;

use crate::json::Json;
use crate::json::JsonV;

verus! {

/// Manufacturer information in the compact device schema, object `3`:
/// members `0` (manufacturer), `1` (product name) and `3` (firmware
/// version).
#[derive(Clone, PartialEq, Eq, Debug)]
pub struct DeviceInfo {
    pub mfr: String,
    pub device_name: String,
    pub version: String,
}

/// The model of a `DeviceInfo`.
pub struct DeviceInfoModel {
    pub mfr: Seq<char>,
    pub device_name: Seq<char>,
    pub version: Seq<char>,
}

impl DeviceInfo {
    pub open spec fn view(&self) -> DeviceInfoModel {
        DeviceInfoModel { mfr: self.mfr@, device_name: self.device_name@, version: self.version@ }
    }

    pub open spec fn spec_parse(j: JsonV) -> Result<DeviceInfoModel, ()> {
        match (j.req_str("0"@), j.req_str("1"@), j.req_str("3"@)) {
            (Ok(m), Ok(d), Ok(v)) => Ok(DeviceInfoModel { mfr: m, device_name: d, version: v }),
            _ => Err(()),
        }
    }

    pub fn parse(j: &Json) -> (r: Result<Self, ()>)
        ensures
            match r {
                Ok(info) => Self::spec_parse(j@) == Ok::<DeviceInfoModel, ()>(info@),
                Err(_) => Self::spec_parse(j@) is Err,
            },
    {
        match (j.req_str("0"), j.req_str("1"), j.req_str("3")) {
            (Ok(m), Ok(d), Ok(v)) => Ok(
                DeviceInfo { mfr: m.clone(), device_name: d.clone(), version: v.clone() },
            ),
            _ => Err(()),
        }
    }
}

} // verus!
