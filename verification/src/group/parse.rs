use vstd::prelude::*;

use crate::json::Json;
use crate::json::JsonV;

verus! {

/// The member list of a group, object `9018`. Its contents are opaque to
/// this client: only the member's presence and shape are checked.
#[derive(Clone, Copy, PartialEq, Eq, Structural, Debug)]
pub struct ItemsParsed {
}

/// A group payload: aggregate on/off (`5850`) and brightness (`5851`),
/// display name (`9001`), creation time (`9002`), resource id (`9003`) and
/// the opaque member list (`9018`).
#[derive(Clone, PartialEq, Eq, Debug)]
pub struct GroupParsed {
    pub on: bool,
    pub brightness: u8,
    pub name: String,
    pub creation_date: u32,
    pub id: u32,
    pub items: ItemsParsed,
}

/// The model of a `GroupParsed`.
pub struct GroupParsedV {
    pub on: bool,
    pub brightness: u8,
    pub name: Seq<char>,
    pub creation_date: u32,
    pub id: u32,
}

impl GroupParsed {
    pub open spec fn view(&self) -> GroupParsedV {
        GroupParsedV {
            on: self.on,
            brightness: self.brightness,
            name: self.name@,
            creation_date: self.creation_date,
            id: self.id,
        }
    }

    pub open spec fn spec_parse(j: JsonV) -> Result<GroupParsedV, ()> {
        match (j.req_bool("5850"@),
        j.req_u8("5851"@),
        j.req_str("9001"@),
        j.req_u32("9002"@),
        j.req_u32("9003"@),
        j.req_obj("9018"@)) {
            (Ok(on), Ok(b), Ok(name), Ok(c), Ok(id), Ok(_)) => Ok(
                GroupParsedV { on: on, brightness: b, name: name, creation_date: c, id: id },
            ),
            _ => Err(()),
        }
    }

    pub fn parse(j: &Json) -> (r: Result<GroupParsed, ()>)
        ensures
            match r {
                Ok(g) => Self::spec_parse(j@) == Ok::<GroupParsedV, ()>(g@),
                Err(_) => Self::spec_parse(j@) is Err,
            },
    {
        match (j.req_bool("5850"),
        j.req_u8("5851"),
        j.req_str("9001"),
        j.req_u32("9002"),
        j.req_u32("9003"),
        j.req_obj("9018")) {
            (Ok(on), Ok(b), Ok(name), Ok(c), Ok(id), Ok(_)) => Ok(
                GroupParsed {
                    on: on,
                    brightness: b,
                    name: name.clone(),
                    creation_date: c,
                    id: id,
                    items: ItemsParsed {  },
                },
            ),
            _ => Err(()),
        }
    }
}

} // verus!
