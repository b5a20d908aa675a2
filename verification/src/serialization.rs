use vstd::prelude::*;

verus! {

/// The wire value of an on/off flag: `0` and `1` name `false` and `true`;
/// every other integer names nothing.
pub open spec fn spec_bool_from_int(value: u64) -> Option<bool> {
    if value == 0 {
        Some(false)
    } else if value == 1 {
        Some(true)
    } else {
        None
    }
}

/// The integer that carries a boolean on the wire.
pub open spec fn spec_int_from_bool(value: bool) -> u64 {
    if value {
        1
    } else {
        0
    }
}

/// Decodes the wire representation of an on/off flag: the gateway carries
/// booleans as the 8-bit integers `0` and `1`; every other value is a
/// decode failure.
pub fn bool_from_int(value: u64) -> (r: Option<bool>)
    ensures
        r == spec_bool_from_int(value),
{
    if value == 0 {
        Some(false)
    } else if value == 1 {
        Some(true)
    } else {
        None
    }
}

/// Decodes an optional on/off flag: an absent field stays unset, a present
/// field must hold `0` or `1`, and anything else fails the decode
/// (the outer `None`).
pub fn option_bool_from_int(value: Option<u64>) -> (r: Option<Option<bool>>)
    ensures
        r == (match value {
            Option::None => Some(None::<bool>),
            Option::Some(n) => match spec_bool_from_int(n) {
                Some(b) => Some(Some(b)),
                None => None,
            },
        }),
{
    match value {
        None => Some(None),
        Some(n) => match bool_from_int(n) {
            Some(b) => Some(Some(b)),
            None => None,
        },
    }
}

/// Encodes a boolean back to its wire integer.
pub fn int_from_bool(value: bool) -> (r: u64)
    ensures
        r == spec_int_from_bool(value),
{
    if value {
        1
    } else {
        0
    }
}

/// Encodes an optional boolean: a set flag becomes its wire integer, an
/// unset flag is omitted from the payload altogether.
pub fn option_int_from_bool(value: &Option<bool>) -> (r: Option<u64>)
    ensures
        r == (match value {
            Option::Some(b) => Some(spec_int_from_bool(*b)),
            Option::None => None::<u64>,
        }),
{
    match value {
        Some(b) => Some(int_from_bool(*b)),
        None => None,
    }
}

/// The boolean wire law: every boolean survives the trip through its wire
/// integer, and only `0` and `1` decode at all.
pub proof fn lemma_bool_wire_round_trip(b: bool, v: u64)
    ensures
        spec_bool_from_int(spec_int_from_bool(b)) == Some(b),
        spec_bool_from_int(v) is Some <==> v == 0 || v == 1,
{
}

} // verus!
