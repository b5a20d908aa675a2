use vstd::prelude::*;

use crate::json::Json;
use crate::json::JsonV;
use crate::json::view_fields;
use crate::json::lemma_view_fields;
use crate::keys::lemma_wire_key_chars;
use crate::serialization::spec_int_from_bool;
use crate::serialization::int_from_bool;

verus! {

/// A sparse update of a device group. Every member is optional; an unset
/// member is omitted from the payload and leaves the gateway's state
/// unchanged.
#[derive(Clone, PartialEq, Eq, Debug)]
pub struct GroupUpdate {
    pub transition_time: Option<u32>,
    pub on: Option<bool>,
    pub brightness: Option<u8>,
    pub name: Option<String>,
    pub creation_date: Option<u32>,
    pub id: Option<u32>,
    pub scene_id: Option<u32>,
}

/// The model of a `GroupUpdate`.
pub struct GroupUpdateV {
    pub transition_time: Option<u32>,
    pub on: Option<bool>,
    pub brightness: Option<u8>,
    pub name: Option<Seq<char>>,
    pub creation_date: Option<u32>,
    pub id: Option<u32>,
    pub scene_id: Option<u32>,
}

impl GroupUpdate {
    pub open spec fn view(&self) -> GroupUpdateV {
        GroupUpdateV {
            transition_time: self.transition_time,
            on: self.on,
            brightness: self.brightness,
            name: match self.name {
                Some(n) => Some(n@),
                None => None,
            },
            creation_date: self.creation_date,
            id: self.id,
            scene_id: self.scene_id,
        }
    }

    /// An update with no member set; encoding it yields an empty object.
    pub fn unset() -> (r: GroupUpdate)
        ensures
            r@ == GroupUpdateV::spec_unset(),
    {
        GroupUpdate {
            transition_time: None,
            on: None,
            brightness: None,
            name: None,
            creation_date: None,
            id: None,
            scene_id: None,
        }
    }

    /// Serializes the update into a sparse object: a member the caller did
    /// not set is never emitted.
    pub fn enc(&self) -> (r: Json)
        ensures
            r@ == self@.spec_enc(),
    {
        let mut fields: Vec<(String, Json)> = Vec::new();
        if let Some(t) = self.transition_time {
            fields.push((String::from_str("5712"), Json::Num(t as u64)));
        }
        if let Some(b) = self.on {
            fields.push((String::from_str("5850"), Json::Num(int_from_bool(b))));
        }
        if let Some(b) = self.brightness {
            fields.push((String::from_str("5851"), Json::Num(b as u64)));
        }
        if let Some(n) = &self.name {
            fields.push((String::from_str("9001"), Json::Str(n.clone())));
        }
        if let Some(c) = self.creation_date {
            fields.push((String::from_str("9002"), Json::Num(c as u64)));
        }
        if let Some(d) = self.id {
            fields.push((String::from_str("9003"), Json::Num(d as u64)));
        }
        if let Some(s) = self.scene_id {
            fields.push((String::from_str("9039"), Json::Num(s as u64)));
        }
        proof {
            lemma_view_fields(fields@, fields@.len() as int);
            assert(view_fields(fields@, fields@.len() as int) =~= self@.spec_fields());
        }
        Json::Obj(fields)
    }

    pub fn parse(j: &Json) -> (r: Result<GroupUpdate, ()>)
        ensures
            match r {
                Ok(u) => GroupUpdateV::spec_parse(j@) == Ok::<GroupUpdateV, ()>(u@),
                Err(_) => GroupUpdateV::spec_parse(j@) is Err,
            },
    {
        match (j.opt_u32("5712"),
        j.opt_bool("5850"),
        j.opt_u8("5851"),
        j.opt_str("9001"),
        j.opt_u32("9002"),
        j.opt_u32("9003"),
        j.opt_u32("9039")) {
            (Ok(tr), Ok(on), Ok(b), Ok(name), Ok(c), Ok(id), Ok(s)) => Ok(
                GroupUpdate {
                    transition_time: tr,
                    on: on,
                    brightness: b,
                    name: match name {
                        Some(n) => Some(n.clone()),
                        None => None,
                    },
                    creation_date: c,
                    id: id,
                    scene_id: s,
                },
            ),
            _ => Err(()),
        }
    }
}

impl GroupUpdateV {
    pub open spec fn spec_unset() -> GroupUpdateV {
        GroupUpdateV {
            transition_time: None,
            on: None,
            brightness: None,
            name: None,
            creation_date: None,
            id: None,
            scene_id: None,
        }
    }

    /// The members such an update serializes: exactly the set ones, in
    /// ascending key order.
    pub open spec fn spec_fields(self) -> Seq<(Seq<char>, JsonV)> {
        let f0 = Seq::<(Seq<char>, JsonV)>::empty();
        let f1 = match self.transition_time {
            Some(t) => f0.push(("5712"@, JsonV::Num(t as u64))),
            None => f0,
        };
        let f2 = match self.on {
            Some(b) => f1.push(("5850"@, JsonV::Num(spec_int_from_bool(b)))),
            None => f1,
        };
        let f3 = match self.brightness {
            Some(b) => f2.push(("5851"@, JsonV::Num(b as u64))),
            None => f2,
        };
        let f4 = match self.name {
            Some(n) => f3.push(("9001"@, JsonV::Str(n))),
            None => f3,
        };
        let f5 = match self.creation_date {
            Some(c) => f4.push(("9002"@, JsonV::Num(c as u64))),
            None => f4,
        };
        let f6 = match self.id {
            Some(d) => f5.push(("9003"@, JsonV::Num(d as u64))),
            None => f5,
        };
        match self.scene_id {
            Some(s) => f6.push(("9039"@, JsonV::Num(s as u64))),
            None => f6,
        }
    }

    pub open spec fn spec_enc(self) -> JsonV {
        JsonV::Obj(self.spec_fields())
    }

    pub open spec fn spec_parse(j: JsonV) -> Result<GroupUpdateV, ()> {
        match (j.opt_u32("5712"@),
        j.opt_bool("5850"@),
        j.opt_u8("5851"@),
        j.opt_str("9001"@),
        j.opt_u32("9002"@),
        j.opt_u32("9003"@),
        j.opt_u32("9039"@)) {
            (Ok(tr), Ok(on), Ok(b), Ok(name), Ok(c), Ok(id), Ok(s)) => Ok(
                GroupUpdateV {
                    transition_time: tr,
                    on: on,
                    brightness: b,
                    name: name,
                    creation_date: c,
                    id: id,
                    scene_id: s,
                },
            ),
            _ => Err(()),
        }
    }

    /// Whether every member of the update is set.
    pub open spec fn fully_set(self) -> bool {
        &&& self.transition_time is Some
        &&& self.on is Some
        &&& self.brightness is Some
        &&& self.name is Some
        &&& self.creation_date is Some
        &&& self.id is Some
        &&& self.scene_id is Some
    }
}

/// A group update decodes back to itself whenever every member is set, and
/// an update with no member set encodes to the empty object.
pub proof fn lemma_group_update_round_trip(u: GroupUpdateV)
    ensures
        u.fully_set() ==> GroupUpdateV::spec_parse(u.spec_enc()) == Ok::<GroupUpdateV, ()>(u),
        u == GroupUpdateV::spec_unset() ==> u.spec_enc() == JsonV::Obj(
            Seq::<(Seq<char>, JsonV)>::empty(),
        ),
{
    lemma_wire_key_chars();
    reveal_with_fuel(crate::json::obj_lookup, 9);
}


/// The group update a byte payload names: the byte-level decode for group
/// updates.
pub open spec fn spec_decode_group_update(bytes: Seq<u8>) -> Result<GroupUpdateV, ()> {
    match crate::json_text::spec_parse_json(bytes) {
        Some(j) => GroupUpdateV::spec_parse(j),
        None => Err(()),
    }
}

impl GroupUpdate {
    /// Serializes the update to the byte payload of a mutation request:
    /// exactly the canonical text of its sparse object.
    pub fn to_payload(&self) -> (r: Vec<u8>)
        ensures
            r@ == crate::json_text::ser_json(self@.spec_enc()),
    {
        let j = self.enc();
        crate::json_text::to_bytes(&j)
    }

    /// Decodes a byte payload as a group update.
    pub fn from_payload(bytes: &[u8]) -> (r: Result<GroupUpdate, ()>)
        ensures
            match r {
                Ok(u) => spec_decode_group_update(bytes@) == Ok::<GroupUpdateV, ()>(u@),
                Err(_) => spec_decode_group_update(bytes@) is Err,
            },
    {
        match crate::json_text::parse_json(bytes) {
            Some(j) => Self::parse(&j),
            None => Err(()),
        }
    }
}

/// The round trip through the wire bytes: a fully set group update decodes
/// from its own payload unchanged, member for member.
pub proof fn lemma_group_update_payload_round_trip(u: GroupUpdateV)
    requires
        u.fully_set(),
        crate::json_text::ser_json(u.spec_enc()).len() <= crate::json_text::max_text_len(),
    ensures
        spec_decode_group_update(crate::json_text::ser_json(u.spec_enc())) == Ok::<
            GroupUpdateV,
            (),
        >(u),
{
    crate::json_text::lemma_parse_ser_json(u.spec_enc());
    lemma_group_update_round_trip(u);
}


impl GroupUpdateV {
    /// The state a group reaches when this update is applied: a set member
    /// takes its new value, an unset member leaves the state as it was.
    /// The transition time and scene shape the command rather than the
    /// state.
    pub open spec fn spec_apply(self, g: crate::group::GroupV) -> crate::group::GroupV {
        crate::group::GroupV {
            on: match self.on {
                Some(b) => b,
                None => g.on,
            },
            brightness: match self.brightness {
                Some(b) => b,
                None => g.brightness,
            },
            name: match self.name {
                Some(n) => n,
                None => g.name,
            },
            creation_date: match self.creation_date {
                Some(c) => c,
                None => g.creation_date,
            },
            id: match self.id {
                Some(d) => d,
                None => g.id,
            },
        }
    }
}

/// Applying the same group update twice yields the same group state as
/// applying it once.
pub proof fn lemma_group_update_idempotent(u: GroupUpdateV, g: crate::group::GroupV)
    ensures
        u.spec_apply(u.spec_apply(g)) == u.spec_apply(g),
{
}

} // verus!
