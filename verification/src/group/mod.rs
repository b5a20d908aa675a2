mod parse;
mod update;

pub use parse::GroupParsed;
pub use parse::GroupParsedV;
pub use parse::ItemsParsed;
pub use update::GroupUpdate;
pub use update::GroupUpdateV;
pub use update::lemma_group_update_idempotent;
pub use update::lemma_group_update_payload_round_trip;
pub use update::lemma_group_update_round_trip;
pub use update::spec_decode_group_update;

use vstd::prelude::*;

use crate::gateway::TradfriGatewayError;
use crate::json_text::spec_parse_json;
use crate::time::CivilTime;
use crate::time::civil_of;
use crate::time::epoch_to_civil;

verus! {

/// The member list of a group as the client holds it; its contents are
/// opaque to this client.
#[derive(Clone, Copy, PartialEq, Eq, Structural, Debug)]
pub struct Items {
}

/// A failure of group fetching or decoding.
#[derive(Debug)]
pub enum GroupError {
    /// The payload did not decode: the cause, and the raw payload text for
    /// diagnosis.
    SerdeError(String, String),
    /// A gateway operation beneath the decode failed.
    TradfriGatewayError(TradfriGatewayError),
}

/// A device group as decoded from its resource object: aggregate on/off
/// state and brightness, display name, creation time (epoch seconds),
/// resource id and the opaque member list.
#[derive(Clone, PartialEq, Eq, Debug)]
pub struct Group {
    pub on: bool,
    pub brightness: u8,
    pub name: String,
    pub creation_date: u32,
    pub id: u32,
    pub items: Items,
}

/// The model of a `Group`.
pub struct GroupV {
    pub on: bool,
    pub brightness: u8,
    pub name: Seq<char>,
    pub creation_date: u32,
    pub id: u32,
}

/// The group a decoded payload names.
pub open spec fn group_of_parsed(g: GroupParsedV) -> GroupV {
    GroupV {
        on: g.on,
        brightness: g.brightness,
        name: g.name,
        creation_date: g.creation_date,
        id: g.id,
    }
}

/// The group a byte payload names, if it decodes.
pub open spec fn spec_decode_group(bytes: Seq<u8>) -> Result<GroupV, ()> {
    match spec_parse_json(bytes) {
        Some(j) => match GroupParsed::spec_parse(j) {
            Ok(g) => Ok(group_of_parsed(g)),
            Err(e) => Err(e),
        },
        None => Err(()),
    }
}

impl Group {
    pub open spec fn view(&self) -> GroupV {
        GroupV {
            on: self.on,
            brightness: self.brightness,
            name: self.name@,
            creation_date: self.creation_date,
            id: self.id,
        }
    }

    /// Decodes a group from the byte payload of its resource object. A
    /// malformed payload is a decode error carrying the cause and the raw
    /// payload text.
    pub fn new(bytes: &[u8]) -> (r: Result<Group, GroupError>)
        ensures
            match r {
                Ok(g) => spec_decode_group(bytes@) == Ok::<GroupV, ()>(g@),
                Err(GroupError::SerdeError(_, raw)) => spec_decode_group(bytes@) is Err && raw@
                    == crate::device::lossy_of(bytes@),
                Err(_) => false,
            },
    {
        let j = match crate::json_text::parse_json(bytes) {
            Some(j) => j,
            None => {
                return Err(
                    GroupError::SerdeError(
                        String::from_str("group payload is not a resource object"),
                        crate::device::lossy_text(bytes),
                    ),
                );
            },
        };
        match GroupParsed::parse(&j) {
            Ok(parsed) => Ok(
                Group {
                    on: parsed.on,
                    brightness: parsed.brightness,
                    name: parsed.name,
                    creation_date: parsed.creation_date,
                    id: parsed.id,
                    items: Items {  },
                },
            ),
            Err(_) => Err(
                GroupError::SerdeError(
                    String::from_str("group payload does not fit the group schema"),
                    crate::device::lossy_text(bytes),
                ),
            ),
        }
    }

    /// The sparse update that switches the whole group: only the on/off
    /// member is set, so nothing else of the gateway's state is touched.
    pub fn set_on_update(&self, on: bool) -> (r: GroupUpdate)
        ensures
            r@ == (GroupUpdateV {
                transition_time: None,
                on: Some(on),
                brightness: None,
                name: None,
                creation_date: None,
                id: None,
                scene_id: None,
            }),
    {
        GroupUpdate {
            transition_time: None,
            on: Some(on),
            brightness: None,
            name: None,
            creation_date: None,
            id: None,
            scene_id: None,
        }
    }

    /// The update that turns the group on.
    pub fn on_update(&self) -> (r: GroupUpdate)
        ensures
            r@ == (GroupUpdateV {
                transition_time: None,
                on: Some(true),
                brightness: None,
                name: None,
                creation_date: None,
                id: None,
                scene_id: None,
            }),
    {
        self.set_on_update(true)
    }

    /// The update that turns the group off.
    pub fn off_update(&self) -> (r: GroupUpdate)
        ensures
            r@ == (GroupUpdateV {
                transition_time: None,
                on: Some(false),
                brightness: None,
                name: None,
                creation_date: None,
                id: None,
                scene_id: None,
            }),
    {
        self.set_on_update(false)
    }

    /// Replaces every field with those of a freshly fetched group, as a
    /// refresh after a mutation does.
    pub fn absorb(&mut self, g: Group)
        ensures
            *final(self) == g,
    {
        *self = g;
    }

    /// Applies a group update to the in-memory state: a set member takes
    /// its new value, an unset member leaves the state as it was.
    pub fn apply_update(&mut self, u: &GroupUpdate)
        ensures
            final(self)@ == u@.spec_apply(old(self)@),
            final(self).items == old(self).items,
    {
        if let Some(b) = u.on {
            self.on = b;
        }
        if let Some(b) = u.brightness {
            self.brightness = b;
        }
        if let Some(n) = &u.name {
            self.name = n.clone();
        }
        if let Some(c) = u.creation_date {
            self.creation_date = c;
        }
        if let Some(d) = u.id {
            self.id = d;
        }
    }

    /// The creation timestamp as a UTC calendar time.
    pub fn creation_time(&self) -> (r: CivilTime)
        ensures
            r == civil_of(self.creation_date),
    {
        epoch_to_civil(self.creation_date)
    }
}

} // verus!
