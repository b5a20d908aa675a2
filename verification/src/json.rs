use vstd::prelude::*;

use crate::serialization::spec_bool_from_int;

verus! {

broadcast use vstd::seq::axiom_seq_index_decreases, vstd::std_specs::vec::axiom_vec_decreases_to_view;

/// A JSON value restricted to the shapes the gateway protocol uses:
/// unsigned integers, strings, arrays and objects.
#[derive(PartialEq, Eq, Debug)]
pub enum Json {
    Num(u64),
    Str(String),
    Arr(Vec<Json>),
    Obj(Vec<(String, Json)>),
}

/// The mathematical model of a `Json` value.
pub enum JsonV {
    Num(u64),
    Str(Seq<char>),
    Arr(Seq<JsonV>),
    Obj(Seq<(Seq<char>, JsonV)>),
}

impl Json {
    pub open spec fn view(&self) -> JsonV
        decreases self,
    {
        match self {
            Json::Num(n) => JsonV::Num(*n),
            Json::Str(s) => JsonV::Str(s@),
            Json::Arr(items) => JsonV::Arr(view_items(items@, items@.len() as int)),
            Json::Obj(fields) => JsonV::Obj(view_fields(fields@, fields@.len() as int)),
        }
    }
}

/// The views of the first `n` elements of a sequence of JSON values.
pub open spec fn view_items(items: Seq<Json>, n: int) -> Seq<JsonV>
    decreases items, n,
    via view_items_decreases
{
    if n <= 0 || items.len() < n {
        Seq::empty()
    } else {
        view_items(items, n - 1).push(items[n - 1].view())
    }
}

#[via_fn]
proof fn view_items_decreases(items: Seq<Json>, n: int) {
    if 0 < n <= items.len() {
        vstd::seq::axiom_seq_index_decreases(items, n - 1);
    }
}

/// The views of the first `n` members of an object's field list.
pub open spec fn view_fields(fields: Seq<(String, Json)>, n: int) -> Seq<(Seq<char>, JsonV)>
    decreases fields, n,
    via view_fields_decreases
{
    if n <= 0 || fields.len() < n {
        Seq::empty()
    } else {
        view_fields(fields, n - 1).push((fields[n - 1].0@, fields[n - 1].1.view()))
    }
}

#[via_fn]
proof fn view_fields_decreases(fields: Seq<(String, Json)>, n: int) {
    if 0 < n <= fields.len() {
        vstd::seq::axiom_seq_index_decreases(fields, n - 1);
    }
}

pub proof fn lemma_view_items(items: Seq<Json>, n: int)
    requires
        0 <= n <= items.len(),
    ensures
        view_items(items, n).len() == n,
        forall|i: int| 0 <= i < n ==> view_items(items, n)[i] == items[i].view(),
    decreases n,
{
    if n > 0 {
        lemma_view_items(items, n - 1);
    }
}

pub proof fn lemma_view_fields(fields: Seq<(String, Json)>, n: int)
    requires
        0 <= n <= fields.len(),
    ensures
        view_fields(fields, n).len() == n,
        forall|i: int| 0 <= i < n ==> view_fields(fields, n)[i] == (
        fields[i].0@,
        fields[i].1.view(),
        ),
    decreases n,
{
    if n > 0 {
        lemma_view_fields(fields, n - 1);
    }
}

/// The value of the first member named `key` in an object's field list,
/// if any member has that name.
pub open spec fn obj_lookup(fields: Seq<(Seq<char>, JsonV)>, key: Seq<char>) -> Option<JsonV>
    decreases fields.len(),
{
    if fields.len() == 0 {
        None
    } else if fields[0].0 == key {
        Some(fields[0].1)
    } else {
        obj_lookup(fields.drop_first(), key)
    }
}

impl JsonV {
    /// Looks a member up by name; `None` unless this is an object with
    /// such a member.
    pub open spec fn get(self, key: Seq<char>) -> Option<JsonV> {
        match self {
            JsonV::Obj(fields) => obj_lookup(fields, key),
            _ => None,
        }
    }

    /// Whether an object member of that name is present at all.
    pub open spec fn has(self, key: Seq<char>) -> bool {
        self.get(key) is Some
    }

    /// A required integer member: present and a number, else a decode failure.
    pub open spec fn req_num(self, key: Seq<char>) -> Result<u64, ()> {
        match self.get(key) {
            Some(JsonV::Num(n)) => Ok(n),
            _ => Err(()),
        }
    }

    /// A required member that must fit the 32-bit range of the resource ids,
    /// timestamps and colour coordinates.
    pub open spec fn req_u32(self, key: Seq<char>) -> Result<u32, ()> {
        match self.req_num(key) {
            Ok(n) => if n <= u32::MAX {
                Ok(n as u32)
            } else {
                Err(())
            },
            Err(e) => Err(e),
        }
    }

    /// A required member that must fit a byte, as brightness levels do.
    pub open spec fn req_u8(self, key: Seq<char>) -> Result<u8, ()> {
        match self.req_num(key) {
            Ok(n) => if n <= u8::MAX {
                Ok(n as u8)
            } else {
                Err(())
            },
            Err(e) => Err(e),
        }
    }

    /// A required on/off member, decoded by the boolean wire law.
    pub open spec fn req_bool(self, key: Seq<char>) -> Result<bool, ()> {
        match self.req_num(key) {
            Ok(n) => match spec_bool_from_int(n) {
                Some(b) => Ok(b),
                None => Err(()),
            },
            Err(e) => Err(e),
        }
    }

    /// An optional 32-bit member: absent stays `None`, present must be a
    /// number in range.
    pub open spec fn opt_u32(self, key: Seq<char>) -> Result<Option<u32>, ()> {
        match self.get(key) {
            None => Ok(None),
            Some(JsonV::Num(n)) => if n <= u32::MAX {
                Ok(Some(n as u32))
            } else {
                Err(())
            },
            Some(_) => Err(()),
        }
    }

    /// An optional byte-sized member.
    pub open spec fn opt_u8(self, key: Seq<char>) -> Result<Option<u8>, ()> {
        match self.get(key) {
            None => Ok(None),
            Some(JsonV::Num(n)) => if n <= u8::MAX {
                Ok(Some(n as u8))
            } else {
                Err(())
            },
            Some(_) => Err(()),
        }
    }

    /// An optional on/off member, decoded by the boolean wire law when
    /// present.
    pub open spec fn opt_bool(self, key: Seq<char>) -> Result<Option<bool>, ()> {
        match self.get(key) {
            None => Ok(None),
            Some(JsonV::Num(n)) => match spec_bool_from_int(n) {
                Some(b) => Ok(Some(b)),
                None => Err(()),
            },
            Some(_) => Err(()),
        }
    }

    /// An optional string member.
    pub open spec fn opt_str(self, key: Seq<char>) -> Result<Option<Seq<char>>, ()> {
        match self.get(key) {
            None => Ok(None),
            Some(JsonV::Str(s)) => Ok(Some(s)),
            Some(_) => Err(()),
        }
    }

    /// A required string member.
    pub open spec fn req_str(self, key: Seq<char>) -> Result<Seq<char>, ()> {
        match self.get(key) {
            Some(JsonV::Str(s)) => Ok(s),
            _ => Err(()),
        }
    }

    /// A required array member.
    pub open spec fn req_arr(self, key: Seq<char>) -> Result<Seq<JsonV>, ()> {
        match self.get(key) {
            Some(JsonV::Arr(items)) => Ok(items),
            _ => Err(()),
        }
    }

    /// A required object member.
    pub open spec fn req_obj(self, key: Seq<char>) -> Result<JsonV, ()> {
        match self.get(key) {
            Some(JsonV::Obj(fields)) => Ok(JsonV::Obj(fields)),
            _ => Err(()),
        }
    }
}

proof fn lemma_obj_lookup_skip(fields: Seq<(Seq<char>, JsonV)>, key: Seq<char>, i: int)
    requires
        0 <= i <= fields.len(),
        forall|k: int| 0 <= k < i ==> fields[k].0 != key,
    ensures
        obj_lookup(fields, key) == obj_lookup(fields.skip(i), key),
    decreases i,
{
    if i > 0 {
        assert(fields.drop_first().skip(i - 1) =~= fields.skip(i));
        lemma_obj_lookup_skip(fields.drop_first(), key, i - 1);
    } else {
        assert(fields.skip(0) =~= fields);
    }
}

impl Json {
    /// Looks a member of a JSON object up by name; `None` when this value
    /// is not an object or has no member of that name.
    pub fn get<'a>(&'a self, key: &str) -> (r: Option<&'a Json>)
        ensures
            match r {
                Some(v) => self@.get(key@) == Some(v@),
                None => self@.get(key@) is None,
            },
    {
        match self {
            Json::Obj(fields) => {
                proof {
                    lemma_view_fields(fields@, fields@.len() as int);
                }
                let ghost fv = view_fields(fields@, fields@.len() as int);
                let k = String::from_str(key);
                let n = fields.len();
                let mut i: usize = 0;
                while i < n
                    invariant
                        n == fields@.len(),
                        0 <= i <= n,
                        k@ == key@,
                        self@ == JsonV::Obj(fv),
                        fv == view_fields(fields@, fields@.len() as int),
                        fv.len() == n,
                        forall|q: int| 0 <= q < n ==> fv[q] == (fields@[q].0@, fields@[q].1.view()),
                        forall|q: int| 0 <= q < i ==> fv[q].0 != key@,
                    decreases n - i,
                {
                    if fields[i].0 == k {
                        proof {
                            lemma_obj_lookup_skip(fv, key@, i as int);
                            assert(fv.skip(i as int).len() == n - i);
                            assert(fv.skip(i as int)[0] == fv[i as int]);
                            assert(fv.skip(i as int)[0].0 == key@);
                            assert(obj_lookup(fv.skip(i as int), key@) == Some(fv[i as int].1));
                        }
                        return Some(&fields[i].1);
                    }
                    i = i + 1;
                }
                proof {
                    lemma_obj_lookup_skip(fv, key@, n as int);
                    assert(fv.skip(n as int) =~= Seq::empty());
                }
                None
            },
            _ => None,
        }
    }

    /// Whether an object member of that name is present.
    pub fn has(&self, key: &str) -> (r: bool)
        ensures
            r == self@.has(key@),
    {
        self.get(key).is_some()
    }

    /// A required integer member.
    pub fn req_num(&self, key: &str) -> (r: Result<u64, ()>)
        ensures
            r == self@.req_num(key@),
    {
        match self.get(key) {
            Some(Json::Num(n)) => Ok(*n),
            _ => Err(()),
        }
    }

    /// A required member in 32-bit range.
    pub fn req_u32(&self, key: &str) -> (r: Result<u32, ()>)
        ensures
            r == self@.req_u32(key@),
    {
        match self.req_num(key) {
            Ok(n) => if n <= u32::MAX as u64 {
                Ok(n as u32)
            } else {
                Err(())
            },
            Err(e) => Err(e),
        }
    }

    /// A required member in byte range.
    pub fn req_u8(&self, key: &str) -> (r: Result<u8, ()>)
        ensures
            r == self@.req_u8(key@),
    {
        match self.req_num(key) {
            Ok(n) => if n <= u8::MAX as u64 {
                Ok(n as u8)
            } else {
                Err(())
            },
            Err(e) => Err(e),
        }
    }

    /// A required on/off member, decoded by the boolean wire law.
    pub fn req_bool(&self, key: &str) -> (r: Result<bool, ()>)
        ensures
            r == self@.req_bool(key@),
    {
        match self.req_num(key) {
            Ok(n) => match crate::serialization::bool_from_int(n) {
                Some(b) => Ok(b),
                None => Err(()),
            },
            Err(e) => Err(e),
        }
    }

    /// An optional 32-bit member.
    pub fn opt_u32(&self, key: &str) -> (r: Result<Option<u32>, ()>)
        ensures
            r == self@.opt_u32(key@),
    {
        match self.get(key) {
            None => Ok(None),
            Some(Json::Num(n)) => if *n <= u32::MAX as u64 {
                Ok(Some(*n as u32))
            } else {
                Err(())
            },
            Some(_) => Err(()),
        }
    }

    /// An optional byte-sized member.
    pub fn opt_u8(&self, key: &str) -> (r: Result<Option<u8>, ()>)
        ensures
            r == self@.opt_u8(key@),
    {
        match self.get(key) {
            None => Ok(None),
            Some(Json::Num(n)) => if *n <= u8::MAX as u64 {
                Ok(Some(*n as u8))
            } else {
                Err(())
            },
            Some(_) => Err(()),
        }
    }

    /// An optional on/off member, decoded by the boolean wire law when
    /// present.
    pub fn opt_bool(&self, key: &str) -> (r: Result<Option<bool>, ()>)
        ensures
            r == self@.opt_bool(key@),
    {
        match self.get(key) {
            None => Ok(None),
            Some(Json::Num(n)) => match crate::serialization::bool_from_int(*n) {
                Some(b) => Ok(Some(b)),
                None => Err(()),
            },
            Some(_) => Err(()),
        }
    }

    /// An optional string member.
    pub fn opt_str<'a>(&'a self, key: &str) -> (r: Result<Option<&'a String>, ()>)
        ensures
            match r {
                Ok(Some(s)) => self@.opt_str(key@) == Ok::<Option<Seq<char>>, ()>(Some(s@)),
                Ok(None) => self@.opt_str(key@) == Ok::<Option<Seq<char>>, ()>(None),
                Err(_) => self@.opt_str(key@) is Err,
            },
    {
        match self.get(key) {
            None => Ok(None),
            Some(Json::Str(s)) => Ok(Some(s)),
            Some(_) => Err(()),
        }
    }

    /// A required string member.
    pub fn req_str<'a>(&'a self, key: &str) -> (r: Result<&'a String, ()>)
        ensures
            match r {
                Ok(s) => self@.req_str(key@) == Ok::<Seq<char>, ()>(s@),
                Err(_) => self@.req_str(key@) is Err,
            },
    {
        match self.get(key) {
            Some(Json::Str(s)) => Ok(s),
            _ => Err(()),
        }
    }

    /// A required array member.
    pub fn req_arr<'a>(&'a self, key: &str) -> (r: Result<&'a Vec<Json>, ()>)
        ensures
            match r {
                Ok(items) => self@.req_arr(key@) == Ok::<Seq<JsonV>, ()>(
                    view_items(items@, items@.len() as int),
                ),
                Err(_) => self@.req_arr(key@) is Err,
            },
    {
        match self.get(key) {
            Some(Json::Arr(items)) => Ok(items),
            _ => Err(()),
        }
    }

    /// A required object member.
    pub fn req_obj<'a>(&'a self, key: &str) -> (r: Result<&'a Json, ()>)
        ensures
            match r {
                Ok(o) => self@.req_obj(key@) == Ok::<JsonV, ()>(o@) && o@ is Obj,
                Err(_) => self@.req_obj(key@) is Err,
            },
    {
        match self.get(key) {
            Some(o) => match o {
                Json::Obj(_) => Ok(o),
                _ => Err(()),
            },
            _ => Err(()),
        }
    }
}

} // verus!
