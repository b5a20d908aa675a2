use vstd::prelude::*;

use crate::json::Json;
use crate::json::JsonV;

verus! {

broadcast use vstd::seq::axiom_seq_index_decreases, vstd::std_specs::vec::axiom_vec_decreases_to_view;

// The byte values the canonical JSON text uses.
pub open spec fn is_digit(b: u8) -> bool {
    48 <= b <= 57
}

/// The decimal digits of `n`, most significant first, with no leading zero.
pub open spec fn dec_digits(n: nat) -> Seq<u8>
    decreases n,
{
    if n < 10 {
        seq![(48 + n) as u8]
    } else {
        dec_digits(n / 10).push((48 + n % 10) as u8)
    }
}

/// The lowercase hexadecimal digit byte of a value below sixteen.
pub open spec fn hex_digit(n: int) -> u8 {
    if n < 10 {
        (48 + n) as u8
    } else {
        (87 + n) as u8
    }
}

/// The wire bytes of one string character: the quote, the backslash and
/// the control characters are escaped; everything else is carried as its
/// UTF-8 encoding.
pub open spec fn char_bytes(c: char) -> Seq<u8> {
    if c == '"' {
        seq![92u8, 34u8]
    } else if c == '\\' {
        seq![92u8, 92u8]
    } else if (c as u32) < 32 {
        seq![
            92u8,
            117u8,
            48u8,
            48u8,
            hex_digit((c as u32) as int / 16),
            hex_digit((c as u32) as int % 16),
        ]
    } else {
        vstd::utf8::encode_scalar(c as u32)
    }
}

/// The wire bytes of a string body, character by character.
pub open spec fn str_body(s: Seq<char>) -> Seq<u8>
    decreases s.len(),
{
    if s.len() == 0 {
        Seq::empty()
    } else {
        char_bytes(s[0]) + str_body(s.drop_first())
    }
}

/// Appending one character appends its wire bytes.
pub proof fn lemma_str_body_snoc(s: Seq<char>, c: char)
    ensures
        str_body(s.push(c)) =~= str_body(s) + char_bytes(c),
    decreases s.len(),
{
    if s.len() == 0 {
        assert(s.push(c)[0] == c);
        assert(s.push(c).drop_first() =~= Seq::<char>::empty());
        assert(s =~= Seq::<char>::empty());
    } else {
        assert(s.push(c).drop_first() =~= s.drop_first().push(c));
        assert(s.push(c)[0] == s[0]);
        lemma_str_body_snoc(s.drop_first(), c);
    }
}

/// The whitespace bytes the text may carry between tokens.
pub open spec fn is_ws(b: u8) -> bool {
    b == 32 || b == 9 || b == 10 || b == 13
}

/// The first position at or after `i` that holds no whitespace.
pub open spec fn skip_ws(b: Seq<u8>, i: int) -> int
    decreases b.len() - i,
{
    if 0 <= i < b.len() && is_ws(b[i]) {
        skip_ws(b, i + 1)
    } else {
        i
    }
}

/// Skipping whitespace at a position that holds none stays put.
pub proof fn lemma_skip_ws_nonws(b: Seq<u8>, i: int)
    requires
        i >= b.len() || i < 0 || !is_ws(b[i]),
    ensures
        skip_ws(b, i) == i,
{
}

/// The canonical serialized text of a JSON value: no whitespace, decimal
/// integers without leading zeros, strings verbatim between quotes.
pub open spec fn ser_json(j: JsonV) -> Seq<u8>
    decreases j,
{
    match j {
        JsonV::Num(n) => dec_digits(n as nat),
        JsonV::Str(s) => seq![34u8] + str_body(s) + seq![34u8],
        JsonV::Arr(items) => seq![91u8] + ser_items(items, items.len() as int) + seq![93u8],
        JsonV::Obj(fields) => seq![123u8] + ser_members(fields, fields.len() as int) + seq![
            125u8,
        ],
    }
}

/// The serialized text of the first `n` array elements, joined by commas.
pub open spec fn ser_items(items: Seq<JsonV>, n: int) -> Seq<u8>
    decreases items, n,
    via ser_items_decreases
{
    if n <= 0 || items.len() < n {
        Seq::empty()
    } else if n == 1 {
        ser_json(items[0])
    } else {
        ser_items(items, n - 1) + seq![44u8] + ser_json(items[n - 1])
    }
}

#[via_fn]
proof fn ser_items_decreases(items: Seq<JsonV>, n: int) {
    if 0 < n <= items.len() {
        vstd::seq::axiom_seq_index_decreases(items, n - 1);
        if n == 1 {
            vstd::seq::axiom_seq_index_decreases(items, 0);
        }
    }
}

/// The serialized text of one object member: the quoted name, a colon, the
/// value.
pub open spec fn ser_member(f: (Seq<char>, JsonV)) -> Seq<u8>
    decreases f,
{
    seq![34u8] + str_body(f.0) + seq![34u8, 58u8] + ser_json(f.1)
}

/// The serialized text of the first `n` object members, joined by commas.
pub open spec fn ser_members(fields: Seq<(Seq<char>, JsonV)>, n: int) -> Seq<u8>
    decreases fields, n,
    via ser_members_decreases
{
    if n <= 0 || fields.len() < n {
        Seq::empty()
    } else if n == 1 {
        ser_member(fields[0])
    } else {
        ser_members(fields, n - 1) + seq![44u8] + ser_member(fields[n - 1])
    }
}

#[via_fn]
proof fn ser_members_decreases(fields: Seq<(Seq<char>, JsonV)>, n: int) {
    if 0 < n <= fields.len() {
        vstd::seq::axiom_seq_index_decreases(fields, n - 1);
        if n == 1 {
            vstd::seq::axiom_seq_index_decreases(fields, 0);
        }
    }
}

/// The value of one hexadecimal digit byte, or a negative number where
/// the byte is no such digit.
pub open spec fn hex_val(b: u8) -> int {
    if 48 <= b <= 57 {
        b - 48
    } else if 97 <= b <= 102 {
        b - 87
    } else if 65 <= b <= 70 {
        b - 55
    } else {
        -1
    }
}

/// The value of the four hexadecimal digits at `i`, or a negative number
/// where any of them is missing or no digit.
pub open spec fn hex4_val(b: Seq<u8>, i: int) -> int {
    if 0 <= i && i + 4 <= b.len() && hex_val(b[i]) >= 0 && hex_val(b[i + 1]) >= 0 && hex_val(
        b[i + 2],
    ) >= 0 && hex_val(b[i + 3]) >= 0 {
        hex_val(b[i]) * 4096 + hex_val(b[i + 1]) * 256 + hex_val(b[i + 2]) * 16 + hex_val(b[i + 3])
    } else {
        -1
    }
}

/// An escape sequence starting at the backslash at `i`: the short escapes,
/// or a four-digit scalar escape, with a surrogate pair carrying one
/// scalar beyond the basic plane.
pub open spec fn scan_escape(b: Seq<u8>, i: int) -> Option<(char, int)> {
    if i < 0 || i + 2 > b.len() {
        None
    } else {
        let e = b[i + 1];
        if e == 34 {
            Some(('"', i + 2))
        } else if e == 92 {
            Some(('\\', i + 2))
        } else if e == 47 {
            Some(('/', i + 2))
        } else if e == 98 {
            Some(('\u{8}', i + 2))
        } else if e == 102 {
            Some(('\u{c}', i + 2))
        } else if e == 110 {
            Some(('\n', i + 2))
        } else if e == 114 {
            Some(('\r', i + 2))
        } else if e == 116 {
            Some(('\t', i + 2))
        } else if e == 117 {
            let v = hex4_val(b, i + 2);
            if v < 0 {
                None
            } else if 0xD800 <= v < 0xDC00 {
                if i + 12 <= b.len() && b[i + 6] == 92 && b[i + 7] == 117 {
                    let w = hex4_val(b, i + 8);
                    if 0xDC00 <= w < 0xE000 {
                        Some(
                            (((0x10000 + (v - 0xD800) * 0x400 + (w - 0xDC00)) as u32) as char, i
                                + 12),
                        )
                    } else {
                        None
                    }
                } else {
                    None
                }
            } else if 0xDC00 <= v < 0xE000 {
                None
            } else {
                Some(((v as u32) as char, i + 6))
            }
        } else {
            None
        }
    }
}

/// One string character starting at `i`: an escape sequence, a raw
/// printable seven-bit byte, or a UTF-8 multi-byte encoding.
pub open spec fn scan_char(b: Seq<u8>, i: int) -> Option<(char, int)> {
    if i < 0 || i >= b.len() {
        None
    } else {
        let c0 = b[i];
        if c0 == 92 {
            scan_escape(b, i)
        } else if 32 <= c0 <= 127 && c0 != 34 {
            Some((c0 as char, i + 1))
        } else if vstd::utf8::is_leading_byte_width_2(c0) {
            if i + 2 <= b.len() && vstd::utf8::is_continuation_byte(b[i + 1]) {
                let v = vstd::utf8::codepoint_width_2(c0, b[i + 1]);
                if vstd::utf8::not_overlong_encoding(v, 2) && vstd::utf8::not_surrogate(v) {
                    Some((v as char, i + 2))
                } else {
                    None
                }
            } else {
                None
            }
        } else if vstd::utf8::is_leading_byte_width_3(c0) {
            if i + 3 <= b.len() && vstd::utf8::is_continuation_byte(b[i + 1])
                && vstd::utf8::is_continuation_byte(b[i + 2]) {
                let v = vstd::utf8::codepoint_width_3(c0, b[i + 1], b[i + 2]);
                if vstd::utf8::not_overlong_encoding(v, 3) && vstd::utf8::not_surrogate(v) {
                    Some((v as char, i + 3))
                } else {
                    None
                }
            } else {
                None
            }
        } else if vstd::utf8::is_leading_byte_width_4(c0) {
            if i + 4 <= b.len() && vstd::utf8::is_continuation_byte(b[i + 1])
                && vstd::utf8::is_continuation_byte(b[i + 2]) && vstd::utf8::is_continuation_byte(
                b[i + 3],
            ) {
                let v = vstd::utf8::codepoint_width_4(c0, b[i + 1], b[i + 2], b[i + 3]);
                if vstd::utf8::not_overlong_encoding(v, 4) && vstd::utf8::not_surrogate(v) {
                    Some((v as char, i + 4))
                } else {
                    None
                }
            } else {
                None
            }
        } else {
            None
        }
    }
}

/// One parsed character always advances the position within the text.
pub proof fn lemma_scan_char_advance(b: Seq<u8>, i: int)
    ensures
        scan_char(b, i) matches Some((c, k)) ==> i < k <= b.len(),
{
}

/// Scans a string body from `i` up to the closing quote.
pub open spec fn scan_string(b: Seq<u8>, i: int) -> Option<(Seq<char>, int)>
    decreases b.len() - i,
    via scan_string_decreases
{
    if i < 0 || i >= b.len() {
        None
    } else if b[i] == 34 {
        Some((Seq::empty(), i + 1))
    } else {
        match scan_char(b, i) {
            Some((c, k)) => match scan_string(b, k) {
                Some((s, e)) => Some((seq![c] + s, e)),
                None => None,
            },
            None => None,
        }
    }
}

#[via_fn]
proof fn scan_string_decreases(b: Seq<u8>, i: int) {
    lemma_scan_char_advance(b, i);
}

/// A quoted string starting at `i`.
pub open spec fn parse_qstring(b: Seq<u8>, i: int) -> Option<(Seq<char>, int)> {
    if 0 <= i < b.len() && b[i] == 34 {
        scan_string(b, i + 1)
    } else {
        None
    }
}

/// The end of the digit run starting at `i`.
pub open spec fn digits_end(b: Seq<u8>, i: int) -> int
    decreases b.len() - i,
{
    if i < 0 || i >= b.len() || !is_digit(b[i]) {
        i
    } else {
        digits_end(b, i + 1)
    }
}

/// The value of the digit run in `b[i..e)`.
pub open spec fn digits_val(b: Seq<u8>, i: int, e: int) -> nat
    decreases e - i,
{
    if i >= e {
        0
    } else {
        digits_val(b, i, e - 1) * 10 + ((b[e - 1] as int - 48) as nat)
    }
}

/// A decimal number starting at `i`: a nonempty digit run, no leading zero,
/// in 64-bit range.
pub open spec fn parse_number(b: Seq<u8>, i: int) -> Option<(JsonV, int)> {
    let e = digits_end(b, i);
    if e == i {
        None
    } else if b[i] == 48 && e > i + 1 {
        None
    } else if digits_val(b, i, e) > u64::MAX {
        None
    } else {
        Some((JsonV::Num(digits_val(b, i, e) as u64), e))
    }
}

/// A JSON value starting at `i`, after any whitespace. The fuel bounds
/// the recursion; `spec_fuel` is always enough for it.
pub open spec fn parse_value(b: Seq<u8>, i0: int, fuel: nat) -> Option<(JsonV, int)>
    decreases fuel,
{
    let i = skip_ws(b, i0);
    if fuel == 0 || i < 0 || i >= b.len() {
        None
    } else if b[i] == 34 {
        match parse_qstring(b, i) {
            Some((s, k)) => Some((JsonV::Str(s), k)),
            None => None,
        }
    } else if is_digit(b[i]) {
        parse_number(b, i)
    } else if b[i] == 91 {
        let k = skip_ws(b, i + 1);
        if 0 <= k < b.len() && b[k] == 93 {
            Some((JsonV::Arr(Seq::empty()), k + 1))
        } else {
            match parse_elems(b, i + 1, (fuel - 1) as nat) {
                Some((items, e)) => Some((JsonV::Arr(items), e)),
                None => None,
            }
        }
    } else if b[i] == 123 {
        let k = skip_ws(b, i + 1);
        if 0 <= k < b.len() && b[k] == 125 {
            Some((JsonV::Obj(Seq::empty()), k + 1))
        } else {
            match parse_members(b, i + 1, (fuel - 1) as nat) {
                Some((fs, e)) => Some((JsonV::Obj(fs), e)),
                None => None,
            }
        }
    } else {
        None
    }
}

/// One or more array elements starting at `i`, through the closing bracket.
pub open spec fn parse_elems(b: Seq<u8>, i: int, fuel: nat) -> Option<(Seq<JsonV>, int)>
    decreases fuel,
{
    if fuel == 0 {
        None
    } else {
        match parse_value(b, i, (fuel - 1) as nat) {
            Some((v, k0)) => {
                let k = skip_ws(b, k0);
                if 0 <= k < b.len() && b[k] == 44 {
                    match parse_elems(b, k + 1, (fuel - 1) as nat) {
                        Some((rest, e)) => Some((seq![v] + rest, e)),
                        None => None,
                    }
                } else if 0 <= k < b.len() && b[k] == 93 {
                    Some((seq![v], k + 1))
                } else {
                    None
                }
            },
            None => None,
        }
    }
}

/// One or more object members starting at `i`, through the closing brace.
pub open spec fn parse_members(b: Seq<u8>, i: int, fuel: nat) -> Option<
    (Seq<(Seq<char>, JsonV)>, int),
>
    decreases fuel,
{
    if fuel == 0 {
        None
    } else {
        match parse_qstring(b, skip_ws(b, i)) {
            Some((key, k0)) => {
                let k = skip_ws(b, k0);
                if 0 <= k < b.len() && b[k] == 58 {
                    match parse_value(b, k + 1, (fuel - 1) as nat) {
                        Some((v, m0)) => {
                            let m = skip_ws(b, m0);
                            if 0 <= m < b.len() && b[m] == 44 {
                                match parse_members(b, m + 1, (fuel - 1) as nat) {
                                    Some((rest, e)) => Some((seq![(key, v)] + rest, e)),
                                    None => None,
                                }
                            } else if 0 <= m < b.len() && b[m] == 125 {
                                Some((seq![(key, v)], m + 1))
                            } else {
                                None
                            }
                        },
                        None => None,
                    }
                } else {
                    None
                }
            },
            None => None,
        }
    }
}

/// Fuel that suffices to parse any value the canonical text of length
/// `b.len()` can hold.
pub open spec fn spec_fuel(b: Seq<u8>) -> nat {
    2 * b.len() + 4
}

/// Appends the decimal digits of `n`, most significant first.
fn write_num(n: u64, out: &mut Vec<u8>)
    ensures
        final(out)@ == old(out)@ + dec_digits(n as nat),
{
    let ghost base = out@;
    let mut tmp: Vec<u8> = Vec::new();
    let mut m: u64 = n;
    loop
        invariant_except_break
            dec_digits(n as nat) =~= dec_digits(m as nat) + tmp@.reverse(),
        ensures
            dec_digits(n as nat) =~= tmp@.reverse(),
        decreases m,
    {
        let d: u8 = 48 + (m % 10) as u8;
        tmp.push(d);
        proof {
            assert(m as nat % 10 == (m % 10) as nat);
            assert(m as nat / 10 == (m / 10) as nat);
            if m >= 10 {
                assert(dec_digits(m as nat) == dec_digits(m as nat / 10).push(
                    (48 + m as nat % 10) as u8,
                ));
                assert(tmp@.reverse() =~= seq![d] + tmp@.drop_last().reverse());
                assert(dec_digits((m / 10) as nat) + tmp@.reverse() =~= dec_digits(
                    m as nat / 10,
                ).push((48 + m as nat % 10) as u8) + tmp@.drop_last().reverse());
            } else {
                assert(dec_digits(m as nat) =~= seq![(48 + m as nat) as u8]);
                assert(tmp@.reverse() =~= seq![d] + tmp@.drop_last().reverse());
            }
        }
        m = m / 10;
        if m == 0 {
            break ;
        }
    }
    let mut k: usize = tmp.len();
    while k > 0
        invariant
            k <= tmp@.len(),
            out@ =~= base + tmp@.skip(k as int).reverse(),
        decreases k,
    {
        k = k - 1;
        out.push(tmp[k]);
        proof {
            assert(tmp@.skip(k as int) =~= seq![tmp@[k as int]] + tmp@.skip(k as int + 1));
            assert(tmp@.skip(k as int).reverse() =~= tmp@.skip(k as int + 1).reverse().push(
                tmp@[k as int],
            ));
        }
    }
    proof {
        assert(tmp@.skip(0) =~= tmp@);
    }
}

/// Appends the bytes of a plain string.
fn hex_digit_x(n: u8) -> (r: u8)
    requires
        n < 16,
    ensures
        r == hex_digit(n as int),
{
    if n < 10 {
        48 + n
    } else {
        87 + n
    }
}

/// Appends the UTF-8 encoding of one character.
fn write_scalar(c: char, out: &mut Vec<u8>)
    ensures
        final(out)@ == old(out)@ + vstd::utf8::encode_scalar(c as u32),
{
    let v = c as u32;
    proof {
        vstd::utf8::char_is_scalar(c);
    }
    if v <= 0x7F {
        out.push((v & 0x7F) as u8);
    } else if v <= 0x7FF {
        out.push(0xC0u8 | (((v >> 6) & 0x1F) as u8));
        out.push(0x80u8 | ((v & 0x3F) as u8));
    } else if v <= 0xFFFF {
        out.push(0xE0u8 | (((v >> 12) & 0x0F) as u8));
        out.push(0x80u8 | (((v >> 6) & 0x3F) as u8));
        out.push(0x80u8 | ((v & 0x3F) as u8));
    } else {
        out.push(0xF0u8 | (((v >> 18) & 0x7) as u8));
        out.push(0x80u8 | (((v >> 12) & 0x3F) as u8));
        out.push(0x80u8 | (((v >> 6) & 0x3F) as u8));
        out.push(0x80u8 | ((v & 0x3F) as u8));
    }
    proof {
        assert(final(out)@ =~= old(out)@ + vstd::utf8::encode_scalar(v));
    }
}

fn write_str_bytes(s: &String, out: &mut Vec<u8>)
    ensures
        final(out)@ == old(out)@ + str_body(s@),
{
    let st = s.as_str();
    let n = st.unicode_len();
    let mut i: usize = 0;
    while i < n
        invariant
            n == s@.len(),
            0 <= i <= n,
            st@ == s@,
            out@ =~= old(out)@ + str_body(s@.take(i as int)),
        decreases n - i,
    {
        let c = st.get_char(i);
        let v = c as u32;
        if c == '"' {
            out.push(92);
            out.push(34);
        } else if c == '\\' {
            out.push(92);
            out.push(92);
        } else if v < 32 {
            out.push(92);
            out.push(117);
            out.push(48);
            out.push(48);
            out.push(hex_digit_x((v / 16) as u8));
            out.push(hex_digit_x((v % 16) as u8));
        } else {
            write_scalar(c, out);
        }
        proof {
            assert(s@.take(i + 1 as int) =~= s@.take(i as int).push(s@[i as int]));
            lemma_str_body_snoc(s@.take(i as int), s@[i as int]);
            assert(out@ =~= old(out)@ + str_body(s@.take(i + 1 as int)));
        }
        i = i + 1;
    }
    proof {
        assert(s@.take(n as int) =~= s@);
    }
}

/// Appends the canonical serialized text of a JSON value.
#[verifier::loop_isolation(false)]
#[verifier::rlimit(80)]
pub fn write_json(j: &Json, out: &mut Vec<u8>)
    ensures
        final(out)@ == old(out)@ + ser_json(j@),
    decreases j,
{
    match j {
        Json::Num(n) => {
            write_num(*n, out);
        },
        Json::Str(s) => {
            out.push(34);
            write_str_bytes(s, out);
            out.push(34);
            proof {
                assert(out@ =~= old(out)@ + ser_json(j@));
            }
        },
        Json::Arr(items) => {
            let ghost itemsv = crate::json::view_items(items@, items@.len() as int);
            proof {
                crate::json::lemma_view_items(items@, items@.len() as int);
            }
            out.push(91);
            let n = items.len();
            let mut i: usize = 0;
            while i < n
                invariant
                    0 <= i <= n,
                    n == items@.len(),
                    itemsv.len() == n,
                    forall|q: int| 0 <= q < n ==> itemsv[q] == items@[q]@,
                    out@ =~= old(out)@ + seq![91u8] + ser_items(itemsv, i as int) + (
                    if 0 < i < n {
                        seq![44u8]
                    } else {
                        Seq::<u8>::empty()
                    }),
                decreases n - i,
            {
                write_json(&items[i], out);
                if i + 1 < n {
                    out.push(44);
                }
                proof {
                    assert(ser_items(itemsv, i as int + 1) == if i == 0 {
                        ser_json(itemsv[0])
                    } else {
                        ser_items(itemsv, i as int) + seq![44u8] + ser_json(itemsv[i as int])
                    });
                    assert(out@ =~= old(out)@ + seq![91u8] + ser_items(itemsv, i as int + 1) + (
                    if 0 < i + 1 < n {
                        seq![44u8]
                    } else {
                        Seq::<u8>::empty()
                    }));
                }
                i = i + 1;
            }
            out.push(93);
            proof {
                assert(out@ =~= old(out)@ + ser_json(j@));
            }
        },
        Json::Obj(fields) => {
            let ghost fieldsv = crate::json::view_fields(fields@, fields@.len() as int);
            proof {
                crate::json::lemma_view_fields(fields@, fields@.len() as int);
            }
            out.push(123);
            let n = fields.len();
            let mut i: usize = 0;
            while i < n
                invariant
                    0 <= i <= n,
                    n == fields@.len(),
                    fieldsv.len() == n,
                    forall|q: int| 0 <= q < n ==> fieldsv[q] == (fields@[q].0@, fields@[q].1@),
                    out@ =~= old(out)@ + seq![123u8] + ser_members(fieldsv, i as int) + (
                    if 0 < i < n {
                        seq![44u8]
                    } else {
                        Seq::<u8>::empty()
                    }),
                decreases n - i,
            {
                out.push(34);
                write_str_bytes(&fields[i].0, out);
                out.push(34);
                out.push(58);
                write_json(&fields[i].1, out);
                if i + 1 < n {
                    out.push(44);
                }
                proof {
                    assert(ser_members(fieldsv, i as int + 1) == if i == 0 {
                        ser_member(fieldsv[0])
                    } else {
                        ser_members(fieldsv, i as int) + seq![44u8] + ser_member(
                            fieldsv[i as int],
                        )
                    });
                    assert(ser_member(fieldsv[i as int]) =~= seq![34u8] + str_body(
                        fields@[i as int].0@,
                    ) + seq![34u8, 58u8] + ser_json(fields@[i as int].1@));
                    assert(out@ =~= old(out)@ + seq![123u8] + ser_members(fieldsv, i as int + 1)
                        + (if 0 < i + 1 < n {
                        seq![44u8]
                    } else {
                        Seq::<u8>::empty()
                    }));
                }
                i = i + 1;
            }
            out.push(125);
            proof {
                assert(out@ =~= old(out)@ + ser_json(j@));
            }
        },
    }
}

/// Serializes a JSON value to its canonical byte text.
pub fn to_bytes(j: &Json) -> (r: Vec<u8>)
    ensures
        r@ == ser_json(j@),
{
    let mut out: Vec<u8> = Vec::new();
    write_json(j, &mut out);
    out
}

/// The longest text the parser accepts; longer payloads are refused so that
/// positions and fuel always fit the machine's integers. The transport's
/// receive buffer is far smaller.
pub open spec fn max_text_len() -> nat {
    0x1000_0000
}

/// The JSON value a byte text names: one value, with whitespace allowed
/// around tokens, no longer than `max_text_len`.
pub open spec fn spec_parse_json(b: Seq<u8>) -> Option<JsonV> {
    if b.len() > max_text_len() {
        None
    } else {
        match parse_value(b, 0, spec_fuel(b)) {
            Some((j, k)) => if skip_ws(b, k) == b.len() {
                Some(j)
            } else {
                None
            },
            None => None,
        }
    }
}


/// Relies on String::from_utf8: bytes in the printable seven-bit range
/// decode to exactly those characters, one character per byte.
#[verifier::external_body]
fn string_from_ascii(bytes: Vec<u8>) -> (r: String)
    requires
        forall|i: int| 0 <= i < bytes@.len() ==> 32 <= #[trigger] bytes@[i] <= 126,
    ensures
        r@ == bytes@.map_values(|b: u8| b as char),
{
    match String::from_utf8(bytes) {
        Ok(s) => s,
        Err(_) => String::new(),
    }
}

/// Relies on the standard library's FromIterator for String: a string
/// collected from characters views as exactly those characters.
#[verifier::external_body]
fn string_from_chars(chars: Vec<char>) -> (r: String)
    ensures
        r@ == chars@,
{
    chars.into_iter().collect()
}

/// Relies on char::from_u32: every Unicode scalar value names exactly the
/// character with that value.
#[verifier::external_body]
fn char_from_scalar(v: u32) -> (r: char)
    requires
        vstd::utf8::is_scalar(v),
    ensures
        r as u32 == v,
{
    match char::from_u32(v) {
        Some(c) => c,
        None => ' ',
    }
}

/// Skips whitespace bytes.
fn skip_ws_x(b: &[u8], i: usize) -> (r: usize)
    requires
        i <= b@.len(),
    ensures
        r as int == skip_ws(b@, i as int),
        i <= r <= b@.len(),
{
    let mut j = i;
    while j < b.len() && (b[j] == 32 || b[j] == 9 || b[j] == 10 || b[j] == 13)
        invariant
            i <= j <= b@.len(),
            skip_ws(b@, i as int) == skip_ws(b@, j as int),
        decreases b@.len() - j,
    {
        j = j + 1;
    }
    j
}

/// Reads one hexadecimal digit.
fn hex_val_x(b: u8) -> (r: Option<u8>)
    ensures
        match r {
            Some(v) => hex_val(b) == v as int && v < 16,
            None => hex_val(b) < 0,
        },
{
    if 48 <= b && b <= 57 {
        Some(b - 48)
    } else if 97 <= b && b <= 102 {
        Some(b - 87)
    } else if 65 <= b && b <= 70 {
        Some(b - 55)
    } else {
        None
    }
}

/// Reads four hexadecimal digits.
fn hex4_x(b: &[u8], i: usize) -> (r: Option<u32>)
    requires
        b@.len() <= max_text_len(),
        i <= b@.len(),
    ensures
        match r {
            Some(v) => hex4_val(b@, i as int) == v as int && v <= 0xFFFF,
            None => hex4_val(b@, i as int) < 0,
        },
{
    if i + 4 > b.len() {
        return None;
    }
    match (hex_val_x(b[i]), hex_val_x(b[i + 1]), hex_val_x(b[i + 2]), hex_val_x(b[i + 3])) {
        (Some(h0), Some(h1), Some(h2), Some(h3)) => Some(
            (h0 as u32) * 4096 + (h1 as u32) * 256 + (h2 as u32) * 16 + (h3 as u32),
        ),
        _ => None,
    }
}

/// Reads one string character, mirroring `scan_char`.
fn scan_char_x(b: &[u8], i: usize) -> (r: Option<(char, usize)>)
    requires
        b@.len() <= max_text_len(),
        i < b@.len(),
    ensures
        match r {
            Some((c, k)) => scan_char(b@, i as int) == Some((c, k as int)) && i < k <= b@.len(),
            None => scan_char(b@, i as int) is None,
        },
{
    let c0 = b[i];
    if c0 == 92 {
        if i + 2 > b.len() {
            return None;
        }
        let e = b[i + 1];
        if e == 34 {
            Some(('"', i + 2))
        } else if e == 92 {
            Some(('\\', i + 2))
        } else if e == 47 {
            Some(('/', i + 2))
        } else if e == 98 {
            Some(('\u{8}', i + 2))
        } else if e == 102 {
            Some(('\u{c}', i + 2))
        } else if e == 110 {
            Some(('\n', i + 2))
        } else if e == 114 {
            Some(('\r', i + 2))
        } else if e == 116 {
            Some(('\t', i + 2))
        } else if e == 117 {
            let v = match hex4_x(b, i + 2) {
                Some(v) => v,
                None => {
                    return None;
                },
            };
            if 0xD800 <= v && v < 0xDC00 {
                if i + 12 <= b.len() && b[i + 6] == 92 && b[i + 7] == 117 {
                    let w = match hex4_x(b, i + 8) {
                        Some(w) => w,
                        None => {
                            return None;
                        },
                    };
                    if 0xDC00 <= w && w < 0xE000 {
                        let scalar = 0x10000 + (v - 0xD800) * 0x400 + (w - 0xDC00);
                        proof {
                            assert(vstd::utf8::is_scalar(scalar));
                        }
                        let c = char_from_scalar(scalar);
                        proof {
                            vstd::utf8::char_u32_cast(c, scalar);
                        }
                        Some((c, i + 12))
                    } else {
                        None
                    }
                } else {
                    None
                }
            } else if 0xDC00 <= v && v < 0xE000 {
                None
            } else {
                proof {
                    assert(vstd::utf8::is_scalar(v));
                }
                let c = char_from_scalar(v);
                proof {
                    vstd::utf8::char_u32_cast(c, v);
                }
                Some((c, i + 6))
            }
        } else {
            None
        }
    } else if 32 <= c0 && c0 <= 127 && c0 != 34 {
        Some((c0 as char, i + 1))
    } else if 0xC0 <= c0 && c0 <= 0xDF {
        if i + 2 <= b.len() && 0x80 <= b[i + 1] && b[i + 1] <= 0xBF {
            let b1 = b[i + 1];
            let v: u32 = (((c0 & 0x1F) as u32) << 6u32) | ((b1 & 0x3F) as u32);
            proof {
                assert(v == vstd::utf8::codepoint_width_2(c0, b@[i + 1]));
                assert(v <= 0x7FF) by (bit_vector)
                    requires
                        v == (((c0 & 0x1F) as u32) << 6u32) | ((b1 & 0x3F) as u32),
                ;
            }
            if 0x80 <= v && !(0xD800 <= v && v <= 0xDFFF) {
                let c = char_from_scalar(v);
                proof {
                    vstd::utf8::char_u32_cast(c, v);
                }
                Some((c, i + 2))
            } else {
                None
            }
        } else {
            None
        }
    } else if 0xE0 <= c0 && c0 <= 0xEF {
        if i + 3 <= b.len() && 0x80 <= b[i + 1] && b[i + 1] <= 0xBF && 0x80 <= b[i + 2] && b[i + 2]
            <= 0xBF {
            let b1 = b[i + 1];
            let b2 = b[i + 2];
            let v: u32 = (((c0 & 0x0F) as u32) << 12u32) | (((b1 & 0x3F) as u32) << 6u32) | ((b2
                & 0x3F) as u32);
            proof {
                assert(v == vstd::utf8::codepoint_width_3(c0, b@[i + 1], b@[i + 2]));
                assert(v <= 0xFFFF) by (bit_vector)
                    requires
                        v == (((c0 & 0x0F) as u32) << 12u32) | (((b1 & 0x3F) as u32) << 6u32) | ((
                        b2 & 0x3F) as u32),
                ;
            }
            if 0x800 <= v && !(0xD800 <= v && v <= 0xDFFF) {
                let c = char_from_scalar(v);
                proof {
                    vstd::utf8::char_u32_cast(c, v);
                }
                Some((c, i + 3))
            } else {
                None
            }
        } else {
            None
        }
    } else if 0xF0 <= c0 && c0 <= 0xF7 {
        if i + 4 <= b.len() && 0x80 <= b[i + 1] && b[i + 1] <= 0xBF && 0x80 <= b[i + 2] && b[i + 2]
            <= 0xBF && 0x80 <= b[i + 3] && b[i + 3] <= 0xBF {
            let b1 = b[i + 1];
            let b2 = b[i + 2];
            let b3 = b[i + 3];
            let v: u32 = (((c0 & 0x7) as u32) << 18u32) | (((b1 & 0x3F) as u32) << 12u32) | (((b2
                & 0x3F) as u32) << 6u32) | ((b3 & 0x3F) as u32);
            proof {
                assert(v == vstd::utf8::codepoint_width_4(c0, b@[i + 1], b@[i + 2], b@[i + 3]));
            }
            if 0x10000 <= v && v <= 0x10FFFF {
                let c = char_from_scalar(v);
                proof {
                    vstd::utf8::char_u32_cast(c, v);
                }
                Some((c, i + 4))
            } else {
                None
            }
        } else {
            None
        }
    } else {
        None
    }
}

/// Reads a quoted string's body starting right after the opening quote.
fn scan_str(b: &[u8], i: usize) -> (r: Option<(String, usize)>)
    requires
        b@.len() <= max_text_len(),
        i <= b@.len(),
    ensures
        match r {
            Some((s, k)) => scan_string(b@, i as int) == Some((s@, k as int)) && i < k <= b@.len(),
            None => scan_string(b@, i as int) is None,
        },
{
    let mut chars: Vec<char> = Vec::new();
    let mut j = i;
    proof {
        match scan_string(b@, i as int) {
            Some((s, k)) => {
                assert(Seq::<char>::empty() + s =~= s);
            },
            None => {},
        }
        assert(chars@ =~= Seq::<char>::empty());
    }
    loop
        invariant
            i <= j <= b@.len(),
            b@.len() <= max_text_len(),
            scan_string(b@, i as int) == (match scan_string(b@, j as int) {
                Some((s, k)) => Some((chars@ + s, k)),
                None => None::<(Seq<char>, int)>,
            }),
        decreases b@.len() - j,
    {
        if j >= b.len() {
            return None;
        }
        if b[j] == 34 {
            proof {
                assert(chars@ + Seq::<char>::empty() =~= chars@);
            }
            let s = string_from_chars(chars);
            return Some((s, j + 1));
        }
        match scan_char_x(b, j) {
            Some((c, k)) => {
                let ghost oc = chars@;
                chars.push(c);
                proof {
                    match scan_string(b@, k as int) {
                        Some((s, e)) => {
                            assert(oc + (seq![c] + s) =~= chars@ + s);
                        },
                        None => {},
                    }
                }
                j = k;
            },
            None => {
                return None;
            },
        }
    }
}

/// A longer digit run never names a smaller value.
proof fn lemma_digits_val_monotone(b: Seq<u8>, i: int, q: int, e: int)
    requires
        i <= q <= e,
    ensures
        digits_val(b, i, e) >= digits_val(b, i, q),
    decreases e - q,
{
    if q < e {
        lemma_digits_val_monotone(b, i, q, e - 1);
        assert(digits_val(b, i, e - 1) * 10 >= digits_val(b, i, e - 1)) by (nonlinear_arith);
    }
}

/// Reads a decimal number starting at `i`.
fn parse_num_x(b: &[u8], i: usize) -> (r: Option<(u64, usize)>)
    requires
        i < b@.len(),
        is_digit(b@[i as int]),
    ensures
        match r {
            Some((n, k)) => parse_number(b@, i as int) == Some((JsonV::Num(n), k as int)) && i < k
                <= b@.len(),
            None => parse_number(b@, i as int) is None,
        },
{
    let mut e = i;
    while e < b.len() && 48 <= b[e] && b[e] <= 57
        invariant
            i <= e <= b@.len(),
            digits_end(b@, i as int) == digits_end(b@, e as int),
            forall|p: int| i <= p < e ==> 0 <= p < b@.len() && is_digit(b@[p]),
        decreases b@.len() - e,
    {
        e = e + 1;
    }
    proof {
        assert(digits_end(b@, i as int) == e as int);
    }
    if b[i] == 48 && e > i + 1 {
        return None;
    }
    let mut val: u64 = 0;
    let mut q = i;
    while q < e
        invariant
            i <= q <= e <= b@.len(),
            digits_end(b@, i as int) == e as int,
            forall|p: int| i <= p < e ==> 0 <= p < b@.len() && is_digit(b@[p]),
            val as nat == digits_val(b@, i as int, q as int),
        decreases e - q,
    {
        let d: u64 = (b[q] - 48) as u64;
        if val > (u64::MAX - d) / 10 {
            proof {
                assert(val as nat * 10 + d as nat > u64::MAX) by (nonlinear_arith)
                    requires
                        val as nat > (u64::MAX - d as nat) / 10,
                        d as nat <= 9,
                ;
                assert(digits_val(b@, i as int, q as int + 1) == digits_val(b@, i as int, q as int)
                    * 10 + ((b@[q as int] as int - 48) as nat));
                lemma_digits_val_monotone(b@, i as int, q as int + 1, e as int);
            }
            return None;
        }
        proof {
            assert(val as nat * 10 + d as nat <= u64::MAX) by (nonlinear_arith)
                requires
                    val as nat <= (u64::MAX - d as nat) / 10,
                    d as nat <= 9,
            ;
        }
        val = val * 10 + d;
        q = q + 1;
    }
    Some((val, e))
}

/// Reads one JSON value of the canonical text, mirroring `parse_value`.
fn parse_value_x(b: &[u8], i: usize, fuel: usize) -> (r: Option<(Json, usize)>)
    requires
        b@.len() <= max_text_len(),
        i <= b@.len(),
    ensures
        match r {
            Some((j, k)) => parse_value(b@, i as int, fuel as nat) == Some((j@, k as int)) && i < k
                <= b@.len(),
            None => parse_value(b@, i as int, fuel as nat) is None,
        },
    decreases fuel,
{
    let i = skip_ws_x(b, i);
    if fuel == 0 || i >= b.len() {
        return None;
    }
    let c = b[i];
    if c == 34 {
        match scan_str(b, i + 1) {
            Some((s, k)) => Some((Json::Str(s), k)),
            None => None,
        }
    } else if 48 <= c && c <= 57 {
        match parse_num_x(b, i) {
            Some((n, k)) => Some((Json::Num(n), k)),
            None => None,
        }
    } else if c == 91 {
        let k = skip_ws_x(b, i + 1);
        if k < b.len() && b[k] == 93 {
            let items: Vec<Json> = Vec::new();
            proof {
                assert(crate::json::view_items(items@, 0) =~= Seq::<JsonV>::empty());
            }
            Some((Json::Arr(items), k + 1))
        } else {
            match parse_elems_x(b, i + 1, fuel - 1) {
                Some((items, k)) => Some((Json::Arr(items), k)),
                None => None,
            }
        }
    } else if c == 123 {
        let k = skip_ws_x(b, i + 1);
        if k < b.len() && b[k] == 125 {
            let fields: Vec<(String, Json)> = Vec::new();
            proof {
                assert(crate::json::view_fields(fields@, 0) =~= Seq::<(Seq<char>, JsonV)>::empty());
            }
            Some((Json::Obj(fields), k + 1))
        } else {
            match parse_members_x(b, i + 1, fuel - 1) {
                Some((fields, k)) => Some((Json::Obj(fields), k)),
                None => None,
            }
        }
    } else {
        None
    }
}

/// Reads array elements through the closing bracket, mirroring
/// `parse_elems`.
fn parse_elems_x(b: &[u8], i: usize, fuel: usize) -> (r: Option<(Vec<Json>, usize)>)
    requires
        b@.len() <= max_text_len(),
        i <= b@.len(),
    ensures
        match r {
            Some((items, k)) => parse_elems(b@, i as int, fuel as nat) == Some(
                (crate::json::view_items(items@, items@.len() as int), k as int),
            ) && i < k <= b@.len(),
            None => parse_elems(b@, i as int, fuel as nat) is None,
        },
    decreases fuel,
{
    if fuel == 0 {
        return None;
    }
    match parse_value_x(b, i, fuel - 1) {
        Some((v, k)) => {
            let k = skip_ws_x(b, k);
            if k < b.len() && b[k] == 44 {
                match parse_elems_x(b, k + 1, fuel - 1) {
                    Some((rest, e)) => {
                        let ghost restv = crate::json::view_items(rest@, rest@.len() as int);
                        let ghost oldrest = rest@;
                        proof {
                            crate::json::lemma_view_items(oldrest, oldrest.len() as int);
                        }
                        let mut items = rest;
                        items.insert(0, v);
                        proof {
                            assert(items@ =~= seq![v] + oldrest);
                            crate::json::lemma_view_items(items@, items@.len() as int);
                            assert(crate::json::view_items(items@, items@.len() as int) =~= seq![
                                v@,
                            ] + restv);
                        }
                        Some((items, e))
                    },
                    None => None,
                }
            } else if k < b.len() && b[k] == 93 {
                let mut items: Vec<Json> = Vec::new();
                items.push(v);
                proof {
                    crate::json::lemma_view_items(items@, 1);
                    assert(crate::json::view_items(items@, 1) =~= seq![v@]);
                }
                Some((items, k + 1))
            } else {
                None
            }
        },
        None => None,
    }
}

/// Reads object members through the closing brace, mirroring
/// `parse_members`.
fn parse_members_x(b: &[u8], i: usize, fuel: usize) -> (r: Option<(Vec<(String, Json)>, usize)>)
    requires
        b@.len() <= max_text_len(),
        i <= b@.len(),
    ensures
        match r {
            Some((fields, k)) => parse_members(b@, i as int, fuel as nat) == Some(
                (crate::json::view_fields(fields@, fields@.len() as int), k as int),
            ) && i < k <= b@.len(),
            None => parse_members(b@, i as int, fuel as nat) is None,
        },
    decreases fuel,
{
    if fuel == 0 {
        return None;
    }
    let i = skip_ws_x(b, i);
    if i >= b.len() || b[i] != 34 {
        return None;
    }
    match scan_str(b, i + 1) {
        Some((key, k)) => {
            let k = skip_ws_x(b, k);
            if k < b.len() && b[k] == 58 {
                match parse_value_x(b, k + 1, fuel - 1) {
                    Some((v, m)) => {
                        let m = skip_ws_x(b, m);
                        if m < b.len() && b[m] == 44 {
                            match parse_members_x(b, m + 1, fuel - 1) {
                                Some((rest, e)) => {
                                    let ghost restv = crate::json::view_fields(
                                        rest@,
                                        rest@.len() as int,
                                    );
                                    let ghost oldrest = rest@;
                                    proof {
                                        crate::json::lemma_view_fields(oldrest, oldrest.len() as int);
                                    }
                                    let mut fields = rest;
                                    fields.insert(0, (key, v));
                                    proof {
                                        assert(fields@ =~= seq![(key, v)] + oldrest);
                                        crate::json::lemma_view_fields(fields@, fields@.len() as int);
                                        assert(crate::json::view_fields(
                                            fields@,
                                            fields@.len() as int,
                                        ) =~= seq![(key@, v@)] + restv);
                                    }
                                    Some((fields, e))
                                },
                                None => None,
                            }
                        } else if m < b.len() && b[m] == 125 {
                            let mut fields: Vec<(String, Json)> = Vec::new();
                            fields.push((key, v));
                            proof {
                                crate::json::lemma_view_fields(fields@, 1);
                                assert(crate::json::view_fields(fields@, 1) =~= seq![(key@, v@)]);
                            }
                            Some((fields, m + 1))
                        } else {
                            None
                        }
                    },
                    None => None,
                }
            } else {
                None
            }
        },
        None => None,
    }
}

/// Parses a whole byte text as one JSON value.
pub fn parse_json(b: &[u8]) -> (r: Option<Json>)
    ensures
        match r {
            Some(j) => spec_parse_json(b@) == Some(j@),
            None => spec_parse_json(b@) is None,
        },
{
    if b.len() > 0x1000_0000 {
        return None;
    }
    let fuel: usize = 2 * b.len() + 4;
    match parse_value_x(b, 0, fuel) {
        Some((j, k)) => if skip_ws_x(b, k) == b.len() {
            Some(j)
        } else {
            None
        },
        None => None,
    }
}


/// The byte-count cost of parsing a value: fuel of this much always
/// suffices.
pub open spec fn jsize(j: JsonV) -> nat
    decreases j,
{
    match j {
        JsonV::Num(_) => 1,
        JsonV::Str(_) => 1,
        JsonV::Arr(items) => 2 + jsizes(items, items.len() as int),
        JsonV::Obj(fields) => 2 + msizes(fields, fields.len() as int),
    }
}

pub open spec fn jsizes(items: Seq<JsonV>, n: int) -> nat
    decreases items, n,
    via jsizes_decreases
{
    if n <= 0 || items.len() < n {
        0
    } else {
        jsizes(items, n - 1) + 1 + jsize(items[n - 1])
    }
}

#[via_fn]
proof fn jsizes_decreases(items: Seq<JsonV>, n: int) {
    if 0 < n <= items.len() {
        vstd::seq::axiom_seq_index_decreases(items, n - 1);
    }
}

pub open spec fn msizes(fields: Seq<(Seq<char>, JsonV)>, n: int) -> nat
    decreases fields, n,
    via msizes_decreases
{
    if n <= 0 || fields.len() < n {
        0
    } else {
        msizes(fields, n - 1) + 1 + jsize(fields[n - 1].1)
    }
}

#[via_fn]
proof fn msizes_decreases(fields: Seq<(Seq<char>, JsonV)>, n: int) {
    if 0 < n <= fields.len() {
        vstd::seq::axiom_seq_index_decreases(fields, n - 1);
    }
}

/// A split of `x + y` found at position `i` of a text splits into its two
/// parts.
proof fn lemma_bytes_at_split(b: Seq<u8>, i: int, x: Seq<u8>, y: Seq<u8>)
    requires
        0 <= i,
        i + x.len() + y.len() <= b.len(),
        b.subrange(i, i + x.len() + y.len()) =~= x + y,
    ensures
        b.subrange(i, i + x.len()) =~= x,
        b.subrange(i + x.len(), i + x.len() + y.len()) =~= y,
{
    assert forall|q: int| 0 <= q < x.len() implies b.subrange(i, i + x.len())[q] == x[q] by {
        assert(b.subrange(i, i + x.len() + y.len())[q] == (x + y)[q]);
    }
    assert forall|q: int| 0 <= q < y.len() implies b.subrange(
        i + x.len(),
        i + x.len() + y.len(),
    )[q] == y[q] by {
        assert(b.subrange(i, i + x.len() + y.len())[x.len() + q] == (x + y)[x.len() + q]);
    }
}

/// The digits of a number are decimal digit bytes and never start with a
/// zero unless the number is zero itself.
proof fn lemma_dec_digits_shape(n: nat)
    ensures
        dec_digits(n).len() >= 1,
        forall|q: int| 0 <= q < dec_digits(n).len() ==> is_digit(#[trigger] dec_digits(n)[q]),
        dec_digits(n)[0] == 48 ==> n == 0,
        n < 10 ==> dec_digits(n).len() == 1,
    decreases n,
{
    if n >= 10 {
        lemma_dec_digits_shape(n / 10);
        assert(n / 10 >= 1);
    }
}

proof fn lemma_digits_end_run(b: Seq<u8>, i: int, e: int)
    requires
        0 <= i <= e <= b.len(),
        forall|q: int| i <= q < e ==> is_digit(b[q]),
        e == b.len() || !is_digit(b[e]),
    ensures
        digits_end(b, i) == e,
    decreases e - i,
{
    if i < e {
        lemma_digits_end_run(b, i + 1, e);
    }
}

proof fn lemma_digits_val_of_dec(b: Seq<u8>, i: int, n: nat)
    requires
        0 <= i,
        i + dec_digits(n).len() <= b.len(),
        b.subrange(i, i + dec_digits(n).len()) =~= dec_digits(n),
    ensures
        digits_val(b, i, i + dec_digits(n).len()) == n,
    decreases n,
{
    reveal_with_fuel(digits_val, 3);
    lemma_dec_digits_shape(n);
    let d = dec_digits(n);
    let e = i + d.len();
    if n < 10 {
        assert(b[i] == d[0]);
        assert(digits_val(b, i, i + 1) == ((b[i] as int - 48) as nat));
    } else {
        let dd = dec_digits(n / 10);
        lemma_dec_digits_shape(n / 10);
        assert(d =~= dd + seq![(48 + n % 10) as u8]);
        lemma_bytes_at_split(b, i, dd, seq![(48 + n % 10) as u8]);
        lemma_digits_val_of_dec(b, i, n / 10);
        assert(b[e - 1] == (48 + n % 10) as u8) by {
            assert(b.subrange(e - 1, e)[0] == (48 + n % 10) as u8);
        }
        assert(digits_val(b, i, e) == digits_val(b, i, e - 1) * 10 + ((b[e - 1] as int - 48) as nat));
        assert((n / 10) * 10 + n % 10 == n) by (nonlinear_arith);
    }
}

/// A number's canonical digits, followed by anything but a digit, parse
/// back to the number.
proof fn lemma_parse_dec(b: Seq<u8>, i: int, n: u64)
    requires
        0 <= i,
        i + dec_digits(n as nat).len() <= b.len(),
        b.subrange(i, i + dec_digits(n as nat).len()) =~= dec_digits(n as nat),
        i + dec_digits(n as nat).len() == b.len() || !is_digit(b[i + dec_digits(n as nat).len()]),
    ensures
        parse_number(b, i) == Some((JsonV::Num(n), i + dec_digits(n as nat).len())),
{
    lemma_dec_digits_shape(n as nat);
    let d = dec_digits(n as nat);
    let e = i + d.len();
    assert forall|q: int| i <= q < e implies is_digit(b[q]) by {
        assert(b.subrange(i, e)[q - i] == d[q - i]);
    }
    lemma_digits_end_run(b, i, e);
    lemma_digits_val_of_dec(b, i, n as nat);
    assert(b[i] == d[0]);
    if b[i] == 48 {
        assert(n == 0);
        assert(e == i + 1);
    }
}

/// A hexadecimal digit byte names the value it was made from.
proof fn lemma_hex_digit_val(n: int)
    requires
        0 <= n < 16,
    ensures
        hex_val(hex_digit(n)) == n,
{
}

/// Every character has at least one wire byte, and the first is never the
/// closing quote.
proof fn lemma_char_bytes_first(c: char)
    ensures
        char_bytes(c).len() >= 1,
        char_bytes(c)[0] != 34,
{
    vstd::utf8::char_is_scalar(c);
    let v = c as u32;
    if c == '"' || c == '\\' || v < 32 {
    } else {
        let enc = vstd::utf8::encode_scalar(v);
        if v <= 0x7F {
            assert(enc[0] == (v & 0x7F) as u8);
            assert((v & 0x7F) == v) by (bit_vector)
                requires
                    v <= 0x7F,
            ;
            assert(v != 34) by {
                if v == 34 {
                    vstd::utf8::char_u32_cast(c, v);
                    assert(('"' as u32) == 34);
                    vstd::utf8::char_u32_cast('"', 34u32);
                }
            }
        } else if v <= 0x7FF {
            assert(enc[0] == 0xC0u8 | (((v >> 6) & 0x1F) as u8));
            assert(0xC0 <= (0xC0u8 | (((v >> 6) & 0x1F) as u8))) by (bit_vector);
        } else if v <= 0xFFFF {
            assert(enc[0] == 0xE0u8 | (((v >> 12) & 0x0F) as u8));
            assert(0xE0 <= (0xE0u8 | (((v >> 12) & 0x0F) as u8))) by (bit_vector);
        } else {
            assert(enc[0] == 0xF0u8 | (((v >> 18) & 0x7) as u8));
            assert(0xF0 <= (0xF0u8 | (((v >> 18) & 0x7) as u8))) by (bit_vector);
        }
    }
}

/// One character's wire bytes, found in a text, scan back to exactly that
/// character.
proof fn lemma_scan_char_ser(b: Seq<u8>, i: int, c: char)
    requires
        0 <= i,
        i + char_bytes(c).len() <= b.len(),
        b.subrange(i, i + char_bytes(c).len()) =~= char_bytes(c),
    ensures
        scan_char(b, i) == Some((c, i + char_bytes(c).len())),
{
    vstd::utf8::char_is_scalar(c);
    let v = c as u32;
    let cb = char_bytes(c);
    assert forall|q: int| 0 <= q < cb.len() implies b[i + q] == cb[q] by {
        assert(b.subrange(i, i + cb.len())[q] == cb[q]);
    }
    if c == '"' {
        assert(scan_escape(b, i) == Some(('"', i + 2)));
    } else if c == '\\' {
        assert(scan_escape(b, i) == Some(('\\', i + 2)));
    } else if v < 32 {
        let hi = v as int / 16;
        let lo = v as int % 16;
        lemma_hex_digit_val(hi);
        lemma_hex_digit_val(lo);
        assert(hex_val(48u8) == 0);
        assert(hex4_val(b, i + 2) == 0 * 4096 + 0 * 256 + hi * 16 + lo);
        assert(hi * 16 + lo == v) by (nonlinear_arith)
            requires
                hi == v as int / 16,
                lo == v as int % 16,
        ;
        assert(0 <= hex4_val(b, i + 2) < 0xD800);
        vstd::utf8::char_u32_cast(c, v);
        assert(scan_escape(b, i) == Some(((v as u32) as char, i + 6)));
    } else {
        let chars = seq![c];
        vstd::utf8::encode_utf8_first_scalar(chars);
        let encseq = vstd::utf8::encode_utf8(chars);
        assert(chars.drop_first() =~= Seq::<char>::empty());
        assert(chars[0] == c);
        assert(vstd::utf8::encode_utf8(Seq::<char>::empty()) =~= Seq::<u8>::empty());
        assert(encseq == vstd::utf8::encode_scalar(v) + vstd::utf8::encode_utf8(
            Seq::<char>::empty(),
        ));
        assert(encseq =~= vstd::utf8::encode_scalar(v));
        assert(cb =~= vstd::utf8::encode_scalar(v));
        let w = cb.len() as int;
        assert forall|q: int| 0 <= q < w implies encseq[q] == b[i + q] by {
        }
        vstd::utf8::char_u32_cast(c, v);
        if v <= 0x7F {
            assert(b[i] == (v & 0x7F) as u8);
            assert((v & 0x7F) == v) by (bit_vector)
                requires
                    v <= 0x7F,
            ;
            let b0 = b[i];
            assert(b0 as u32 == v) by (bit_vector)
                requires
                    b0 == (v & 0x7F) as u8,
                    v <= 0x7F,
            ;
            assert(32 <= b[i] <= 127);
            assert(v != 34 && v != 92) by {
                vstd::utf8::char_u32_cast(c, v);
                if v == 34 {
                    assert(('"' as u32) == 34);
                    vstd::utf8::char_u32_cast('"', 34u32);
                }
                if v == 92 {
                    assert(('\\' as u32) == 92);
                    vstd::utf8::char_u32_cast('\\', 92u32);
                }
            }
            assert(b[i] != 34 && b[i] != 92);
            assert((b[i] as char) == c) by {
                vstd::utf8::char_u32_cast(c, b[i] as u32);
            }
            assert(scan_char(b, i) == Some((c, i + 1)));
        } else {
            // The multi-byte cases: the vstd facts about the encoding of
            // `c` carry over to the bytes of the text.
            assert(vstd::utf8::valid_first_scalar(encseq));
            assert(vstd::utf8::decode_first_scalar(encseq) == v);
            assert(vstd::utf8::length_of_first_scalar(encseq) == w);
            assert(!vstd::utf8::is_leading_byte_width_1(encseq[0])) by {
                if v <= 0x7FF {
                    assert(encseq[0] == 0xC0u8 | (((v >> 6) & 0x1F) as u8));
                    assert((0xC0u8 | (((v >> 6) & 0x1F) as u8)) > 0x7F) by (bit_vector);
                } else if v <= 0xFFFF {
                    assert(encseq[0] == 0xE0u8 | (((v >> 12) & 0x0F) as u8));
                    assert((0xE0u8 | (((v >> 12) & 0x0F) as u8)) > 0x7F) by (bit_vector);
                } else {
                    assert(encseq[0] == 0xF0u8 | (((v >> 18) & 0x7) as u8));
                    assert((0xF0u8 | (((v >> 18) & 0x7) as u8)) > 0x7F) by (bit_vector);
                }
            }
            assert(b[i] == encseq[0]);
            assert(b[i] != 92 && !(32 <= b[i] <= 127 && b[i] != 34)) by {
                assert(b[i] > 0x7F);
            }
            if vstd::utf8::is_leading_byte_width_2(encseq[0]) {
                assert(w == 2);
                assert(vstd::utf8::is_continuation_byte(b[i + 1]));
                assert(vstd::utf8::codepoint_width_2(b[i], b[i + 1]) == v);
                assert(vstd::utf8::not_overlong_encoding(v, 2));
                assert(vstd::utf8::not_surrogate(v));
                assert(scan_char(b, i) == Some(((v as char), i + 2)));
            } else if vstd::utf8::is_leading_byte_width_3(encseq[0]) {
                assert(w == 3);
                assert(vstd::utf8::is_continuation_byte(b[i + 1]));
                assert(vstd::utf8::is_continuation_byte(b[i + 2]));
                assert(vstd::utf8::codepoint_width_3(b[i], b[i + 1], b[i + 2]) == v);
                assert(vstd::utf8::not_overlong_encoding(v, 3));
                assert(vstd::utf8::not_surrogate(v));
                assert(scan_char(b, i) == Some(((v as char), i + 3)));
            } else {
                assert(vstd::utf8::is_leading_byte_width_4(encseq[0]));
                assert(w == 4);
                assert(vstd::utf8::is_continuation_byte(b[i + 1]));
                assert(vstd::utf8::is_continuation_byte(b[i + 2]));
                assert(vstd::utf8::is_continuation_byte(b[i + 3]));
                assert(vstd::utf8::codepoint_width_4(b[i], b[i + 1], b[i + 2], b[i + 3]) == v);
                assert(vstd::utf8::not_overlong_encoding(v, 4));
                assert(vstd::utf8::not_surrogate(v));
                assert(scan_char(b, i) == Some(((v as char), i + 4)));
            }
        }
    }
}

/// A string body's wire bytes followed by the closing quote scan back to
/// the string.
proof fn lemma_scan_ser(b: Seq<u8>, i: int, s: Seq<char>)
    requires
        0 <= i,
        i + str_body(s).len() + 1 <= b.len(),
        b.subrange(i, i + str_body(s).len()) =~= str_body(s),
        b[i + str_body(s).len()] == 34,
    ensures
        scan_string(b, i) == Some((s, i + str_body(s).len() + 1)),
    decreases s.len(),
{
    if s.len() == 0 {
        assert(b[i] == 34);
        assert(scan_string(b, i) == Some((Seq::<char>::empty(), i + 1)));
        assert(s =~= Seq::<char>::empty());
    } else {
        let cb = char_bytes(s[0]);
        let rest = str_body(s.drop_first());
        assert(str_body(s) =~= cb + rest);
        lemma_bytes_at_split(b, i, cb, rest);
        lemma_scan_char_ser(b, i, s[0]);
        lemma_char_bytes_first(s[0]);
        assert(b[i] == cb[0]) by {
            assert(b.subrange(i, i + cb.len())[0] == cb[0]);
        }
        assert(b[i] != 34);
        lemma_scan_ser(b, i + cb.len(), s.drop_first());
        assert(seq![s[0]] + s.drop_first() =~= s);
    }
}

/// The first byte of a serialized value: a digit for numbers, a quote for
/// strings, a bracket for arrays, a brace for objects.
proof fn lemma_ser_first_byte(j: JsonV)
    ensures
        ser_json(j).len() >= 1,
        match j {
            JsonV::Num(_) => is_digit(ser_json(j)[0]),
            JsonV::Str(_) => ser_json(j)[0] == 34,
            JsonV::Arr(_) => ser_json(j)[0] == 91,
            JsonV::Obj(_) => ser_json(j)[0] == 123,
        },
{
    match j {
        JsonV::Num(n) => {
            lemma_dec_digits_shape(n as nat);
        },
        JsonV::Str(s) => {},
        JsonV::Arr(items) => {},
        JsonV::Obj(fields) => {},
    }
}


proof fn lemma_ser_items_front(items: Seq<JsonV>, n: int)
    requires
        1 <= n <= items.len(),
    ensures
        ser_items(items, n) =~= if n == 1 {
            ser_json(items[0])
        } else {
            ser_json(items[0]) + seq![44u8] + ser_items(items.drop_first(), n - 1)
        },
    decreases n,
{
    reveal_with_fuel(ser_items, 3);
    if n == 2 {
        assert(ser_items(items.drop_first(), 1) == ser_json(items.drop_first()[0]));
        assert(items.drop_first()[0] == items[1]);
    } else if n > 2 {
        lemma_ser_items_front(items, n - 1);
        assert(items.drop_first()[n - 2] == items[n - 1]);
        assert(ser_items(items.drop_first(), n - 1) == ser_items(items.drop_first(), n - 2)
            + seq![44u8] + ser_json(items.drop_first()[n - 2]));
    }
}

proof fn lemma_ser_members_front(fields: Seq<(Seq<char>, JsonV)>, n: int)
    requires
        1 <= n <= fields.len(),
    ensures
        ser_members(fields, n) =~= if n == 1 {
            ser_member(fields[0])
        } else {
            ser_member(fields[0]) + seq![44u8] + ser_members(fields.drop_first(), n - 1)
        },
    decreases n,
{
    reveal_with_fuel(ser_members, 3);
    if n == 2 {
        assert(ser_members(fields.drop_first(), 1) == ser_member(fields.drop_first()[0]));
        assert(fields.drop_first()[0] == fields[1]);
    } else if n > 2 {
        lemma_ser_members_front(fields, n - 1);
        assert(fields.drop_first()[n - 2] == fields[n - 1]);
        assert(ser_members(fields.drop_first(), n - 1) == ser_members(fields.drop_first(), n - 2)
            + seq![44u8] + ser_member(fields.drop_first()[n - 2]));
    }
}

proof fn lemma_jsizes_front(items: Seq<JsonV>, n: int)
    requires
        1 <= n <= items.len(),
    ensures
        jsizes(items, n) == 1 + jsize(items[0]) + jsizes(items.drop_first(), n - 1),
    decreases n,
{
    reveal_with_fuel(jsizes, 3);
    if n > 1 {
        lemma_jsizes_front(items, n - 1);
        assert(items.drop_first()[n - 2] == items[n - 1]);
        assert(jsizes(items.drop_first(), n - 1) == jsizes(items.drop_first(), n - 2) + 1 + jsize(
            items.drop_first()[n - 2],
        ));
    }
}

proof fn lemma_msizes_front(fields: Seq<(Seq<char>, JsonV)>, n: int)
    requires
        1 <= n <= fields.len(),
    ensures
        msizes(fields, n) == 1 + jsize(fields[0].1) + msizes(fields.drop_first(), n - 1),
    decreases n,
{
    reveal_with_fuel(msizes, 3);
    if n > 1 {
        lemma_msizes_front(fields, n - 1);
        assert(fields.drop_first()[n - 2] == fields[n - 1]);
        assert(msizes(fields.drop_first(), n - 1) == msizes(fields.drop_first(), n - 2) + 1 + jsize(
            fields.drop_first()[n - 2].1,
        ));
    }
}

/// The token bytes of the canonical text carry no whitespace.
proof fn lemma_token_nonws(b: Seq<u8>, i: int)
    requires
        0 <= i < b.len(),
        is_digit(b[i]) || b[i] == 34 || b[i] == 91 || b[i] == 93 || b[i] == 123 || b[i] == 125
            || b[i] == 44 || b[i] == 58,
    ensures
        skip_ws(b, i) == i,
{
    lemma_skip_ws_nonws(b, i);
}

/// The canonical text of a value, wherever it stands in a text, parses
/// back to exactly that value.
#[verifier::spinoff_prover]
#[verifier::rlimit(100)]
proof fn lemma_parse_ser_value(b: Seq<u8>, i: int, j: JsonV, fuel: nat)
    requires
        0 <= i,
        i + ser_json(j).len() <= b.len(),
        b.subrange(i, i + ser_json(j).len()) =~= ser_json(j),
        j is Num ==> (i + ser_json(j).len() == b.len() || !is_digit(b[i + ser_json(j).len()])),
        fuel >= jsize(j),
    ensures
        parse_value(b, i, fuel) == Some((j, i + ser_json(j).len())),
    decreases jsize(j),
{
    lemma_ser_first_byte(j);
    let sj = ser_json(j);
    assert(b[i] == sj[0]) by {
        assert(b.subrange(i, i + sj.len())[0] == sj[0]);
    }
    lemma_token_nonws(b, i);
    match j {
        JsonV::Num(n) => {
            lemma_parse_dec(b, i, n);
        },
        JsonV::Str(s) => {
            let sb = str_body(s);
            assert(sj =~= seq![34u8] + (sb + seq![34u8]));
            lemma_bytes_at_split(b, i, seq![34u8], sb + seq![34u8]);
            lemma_bytes_at_split(b, i + 1, sb, seq![34u8]);
            assert(b[i + 1 + sb.len()] == 34) by {
                assert(b.subrange(i + 1 + sb.len(), i + 1 + sb.len() + 1)[0] == 34);
            }
            lemma_scan_ser(b, i + 1, s);
        },
        JsonV::Arr(items) => {
            let n = items.len() as int;
            if n == 0 {
                assert(sj =~= seq![91u8, 93u8]);
                assert(b[i + 1] == sj[1]) by {
                    assert(b.subrange(i, i + 2)[1] == sj[1]);
                }
                lemma_token_nonws(b, i + 1);
                assert(items =~= Seq::<JsonV>::empty());
            } else {
                let si = ser_items(items, n);
                assert(sj =~= seq![91u8] + (si + seq![93u8]));
                lemma_bytes_at_split(b, i, seq![91u8], si + seq![93u8]);
                lemma_bytes_at_split(b, i + 1, si, seq![93u8]);
                assert(b[i + 1 + si.len()] == 93) by {
                    assert(b.subrange(i + 1 + si.len(), i + 1 + si.len() + 1)[0] == 93);
                }
                lemma_ser_items_front(items, n);
                lemma_ser_first_byte(items[0]);
                assert(b[i + 1] == si[0]) by {
                    assert(b.subrange(i + 1, i + 1 + si.len())[0] == si[0]);
                }
                assert(si[0] == ser_json(items[0])[0]);
                assert(b[i + 1] != 93);
                lemma_token_nonws(b, i + 1);
                lemma_jsizes_front(items, n);
                lemma_parse_ser_elems(b, i + 1, items, (fuel - 1) as nat);
            }
        },
        JsonV::Obj(fields) => {
            let n = fields.len() as int;
            if n == 0 {
                assert(sj =~= seq![123u8, 125u8]);
                assert(b[i + 1] == sj[1]) by {
                    assert(b.subrange(i, i + 2)[1] == sj[1]);
                }
                lemma_token_nonws(b, i + 1);
                assert(fields =~= Seq::<(Seq<char>, JsonV)>::empty());
            } else {
                let sm = ser_members(fields, n);
                assert(sj =~= seq![123u8] + (sm + seq![125u8]));
                lemma_bytes_at_split(b, i, seq![123u8], sm + seq![125u8]);
                lemma_bytes_at_split(b, i + 1, sm, seq![125u8]);
                assert(b[i + 1 + sm.len()] == 125) by {
                    assert(b.subrange(i + 1 + sm.len(), i + 1 + sm.len() + 1)[0] == 125);
                }
                lemma_ser_members_front(fields, n);
                assert(b[i + 1] == sm[0]) by {
                    assert(b.subrange(i + 1, i + 1 + sm.len())[0] == sm[0]);
                }
                assert(sm[0] == ser_member(fields[0])[0]);
                assert(ser_member(fields[0])[0] == 34);
                assert(b[i + 1] != 125);
                lemma_token_nonws(b, i + 1);
                lemma_msizes_front(fields, n);
                lemma_parse_ser_members(b, i + 1, fields, (fuel - 1) as nat);
            }
        },
    }
}

/// The serialized elements of a nonempty array, followed by the closing
/// bracket, parse back to the elements.
#[verifier::spinoff_prover]
#[verifier::rlimit(100)]
proof fn lemma_parse_ser_elems(b: Seq<u8>, i: int, items: Seq<JsonV>, fuel: nat)
    requires
        items.len() >= 1,
        0 <= i,
        i + ser_items(items, items.len() as int).len() + 1 <= b.len(),
        b.subrange(i, i + ser_items(items, items.len() as int).len()) =~= ser_items(
            items,
            items.len() as int,
        ),
        b[i + ser_items(items, items.len() as int).len()] == 93,
        fuel >= jsizes(items, items.len() as int) + 1,
    ensures
        parse_elems(b, i, fuel) == Some((items, i + ser_items(items, items.len() as int).len() + 1)),
    decreases jsizes(items, items.len() as int),
{
    let n = items.len() as int;
    let si = ser_items(items, n);
    lemma_ser_items_front(items, n);
    lemma_jsizes_front(items, n);
    let s0 = ser_json(items[0]);
    if n == 1 {
        assert(si =~= s0);
        lemma_parse_ser_value(b, i, items[0], (fuel - 1) as nat);
        assert(b[i + s0.len()] == 93);
        lemma_token_nonws(b, i + s0.len());
        assert(seq![items[0]] =~= items);
    } else {
        let rest = items.drop_first();
        let sr = ser_items(rest, n - 1);
        assert(si =~= s0 + (seq![44u8] + sr));
        lemma_bytes_at_split(b, i, s0, seq![44u8] + sr);
        lemma_bytes_at_split(b, i + s0.len(), seq![44u8], sr);
        assert(b[i + s0.len()] == 44) by {
            assert(b.subrange(i + s0.len(), i + s0.len() + 1)[0] == 44);
        }
        lemma_parse_ser_value(b, i, items[0], (fuel - 1) as nat);
        lemma_token_nonws(b, i + s0.len());
        assert(b[i + si.len()] == 93);
        lemma_parse_ser_elems(b, i + s0.len() + 1, rest, (fuel - 1) as nat);
        assert(seq![items[0]] + rest =~= items);
        assert(i + s0.len() + 1 + sr.len() + 1 == i + si.len() + 1);
    }
}

/// The serialized members of a nonempty object, followed by the closing
/// brace, parse back to the members.
#[verifier::spinoff_prover]
#[verifier::rlimit(100)]
proof fn lemma_parse_ser_members(b: Seq<u8>, i: int, fields: Seq<(Seq<char>, JsonV)>, fuel: nat)
    requires
        fields.len() >= 1,
        0 <= i,
        i + ser_members(fields, fields.len() as int).len() + 1 <= b.len(),
        b.subrange(i, i + ser_members(fields, fields.len() as int).len()) =~= ser_members(
            fields,
            fields.len() as int,
        ),
        b[i + ser_members(fields, fields.len() as int).len()] == 125,
        fuel >= msizes(fields, fields.len() as int) + 1,
    ensures
        parse_members(b, i, fuel) == Some(
            (fields, i + ser_members(fields, fields.len() as int).len() + 1),
        ),
    decreases msizes(fields, fields.len() as int),
{
    let n = fields.len() as int;
    let sm = ser_members(fields, n);
    lemma_ser_members_front(fields, n);
    lemma_msizes_front(fields, n);
    let key = fields[0].0;
    let kb = str_body(key);
    let v = fields[0].1;
    let s0 = ser_member(fields[0]);
    let sv = ser_json(v);
    assert(s0 =~= seq![34u8] + (kb + (seq![34u8, 58u8] + sv)));
    let tail: Seq<u8> = if n == 1 {
        Seq::empty()
    } else {
        seq![44u8] + ser_members(fields.drop_first(), n - 1)
    };
    assert(sm =~= s0 + tail);
    lemma_bytes_at_split(b, i, s0, tail);
    lemma_bytes_at_split(b, i, seq![34u8], kb + (seq![34u8, 58u8] + sv));
    lemma_bytes_at_split(b, i + 1, kb, seq![34u8, 58u8] + sv);
    lemma_bytes_at_split(b, i + 1 + kb.len(), seq![34u8, 58u8], sv);
    assert(b[i + 1 + kb.len()] == 34) by {
        assert(b.subrange(i + 1 + kb.len(), i + 1 + kb.len() + 2)[0] == 34);
    }
    assert(b[i + 1 + kb.len() + 1] == 58) by {
        assert(b.subrange(i + 1 + kb.len(), i + 1 + kb.len() + 2)[1] == 58);
    }
    assert(b[i] == 34) by {
        assert(b.subrange(i, i + 1)[0] == 34);
    }
    lemma_token_nonws(b, i);
    lemma_scan_ser(b, i + 1, key);
    lemma_token_nonws(b, i + 1 + kb.len() + 1);
    let vi = i + 1 + kb.len() + 2;
    if n == 1 {
        lemma_parse_ser_value(b, vi, v, (fuel - 1) as nat);
        assert(b[i + sm.len()] == 125);
        lemma_token_nonws(b, i + sm.len());
        assert(vi + sv.len() == i + sm.len());
        assert(seq![(key, v)] =~= fields);
    } else {
        let rest = fields.drop_first();
        let sr = ser_members(rest, n - 1);
        lemma_bytes_at_split(b, i + s0.len(), seq![44u8], sr);
        assert(b[i + s0.len()] == 44) by {
            assert(b.subrange(i + s0.len(), i + s0.len() + 1)[0] == 44);
        }
        lemma_token_nonws(b, i + s0.len());
        assert(vi + sv.len() == i + s0.len());
        lemma_parse_ser_value(b, vi, v, (fuel - 1) as nat);
        lemma_parse_ser_members(b, i + s0.len() + 1, rest, (fuel - 1) as nat);
        assert(seq![(key, v)] + rest =~= fields);
        assert(i + s0.len() + 1 + sr.len() + 1 == i + sm.len() + 1);
    }
}

proof fn lemma_jsize_le_ser(j: JsonV)
    ensures
        jsize(j) <= 2 * ser_json(j).len(),
    decreases jsize(j),
{
    lemma_ser_first_byte(j);
    match j {
        JsonV::Num(_) => {},
        JsonV::Str(_) => {},
        JsonV::Arr(items) => {
            let n = items.len() as int;
            if n >= 1 {
                lemma_jsizes_le_ser(items, n);
            }
        },
        JsonV::Obj(fields) => {
            let n = fields.len() as int;
            if n >= 1 {
                lemma_msizes_le_ser(fields, n);
            }
        },
    }
}

#[verifier::spinoff_prover]
#[verifier::rlimit(100)]
proof fn lemma_jsizes_le_ser(items: Seq<JsonV>, n: int)
    requires
        1 <= n <= items.len(),
    ensures
        jsizes(items, n) <= 2 * ser_items(items, n).len() + 1,
    decreases jsizes(items, n),
{
    lemma_jsizes_front(items, n);
    if n == 1 {
        lemma_jsize_le_ser(items[0]);
        lemma_ser_items_front(items, 1);
    } else {
        lemma_jsize_le_ser(items[n - 1]);
        assert(jsizes(items, n) == jsizes(items, n - 1) + 1 + jsize(items[n - 1]));
        assert(jsizes(items, n - 1) < jsizes(items, n));
        lemma_jsizes_le_ser(items, n - 1);
    }
}

#[verifier::spinoff_prover]
#[verifier::rlimit(100)]
proof fn lemma_msizes_le_ser(fields: Seq<(Seq<char>, JsonV)>, n: int)
    requires
        1 <= n <= fields.len(),
    ensures
        msizes(fields, n) <= 2 * ser_members(fields, n).len() + 1,
    decreases msizes(fields, n),
{
    reveal_with_fuel(msizes, 3);
    lemma_msizes_front(fields, n);
    if n == 1 {
        lemma_jsize_le_ser(fields[0].1);
        lemma_ser_members_front(fields, 1);
        assert(msizes(fields, 1) == 1 + jsize(fields[0].1));
        assert(ser_members(fields, 1).len() == ser_member(fields[0]).len());
        assert(ser_member(fields[0]).len() == 3 + str_body(fields[0].0).len() + ser_json(fields[0].1).len());
        assert(msizes(fields, n) <= 2 * ser_members(fields, n).len() + 1) by (nonlinear_arith)
            requires
                msizes(fields, n) == 1 + jsize(fields[0].1),
                jsize(fields[0].1) <= 2 * ser_json(fields[0].1).len(),
                ser_members(fields, n).len() == 3 + str_body(fields[0].0).len() + ser_json(
                    fields[0].1,
                ).len(),
        ;
    } else {
        lemma_jsize_le_ser(fields[n - 1].1);
        assert(msizes(fields, n) == msizes(fields, n - 1) + 1 + jsize(fields[n - 1].1));
        assert(msizes(fields, n - 1) < msizes(fields, n));
        lemma_msizes_le_ser(fields, n - 1);
        assert(ser_members(fields, n).len() == ser_members(fields, n - 1).len() + 1 + ser_member(
            fields[n - 1],
        ).len());
        assert(ser_member(fields[n - 1]).len() == 3 + str_body(fields[n - 1].0).len() + ser_json(
            fields[n - 1].1,
        ).len());
        assert(msizes(fields, n) <= 2 * ser_members(fields, n).len() + 1) by (nonlinear_arith)
            requires
                msizes(fields, n) == msizes(fields, n - 1) + 1 + jsize(fields[n - 1].1),
                msizes(fields, n - 1) <= 2 * ser_members(fields, n - 1).len() + 1,
                jsize(fields[n - 1].1) <= 2 * ser_json(fields[n - 1].1).len(),
                ser_members(fields, n).len() == ser_members(fields, n - 1).len() + 1 + ser_member(
                    fields[n - 1],
                ).len(),
                ser_member(fields[n - 1]).len() == 3 + str_body(fields[n - 1].0).len() + ser_json(
                    fields[n - 1].1,
                ).len(),
        ;
    }
}

/// The canonical text of every well-formed JSON value that fits the
/// parser's length bound parses back to exactly that value.
pub proof fn lemma_parse_ser_json(j: JsonV)
    requires
        ser_json(j).len() <= max_text_len(),
    ensures
        spec_parse_json(ser_json(j)) == Some(j),
{
    let b = ser_json(j);
    assert(b.subrange(0, b.len() as int) =~= b);
    lemma_jsize_le_ser(j);
    lemma_parse_ser_value(b, 0, j, spec_fuel(b));
    lemma_skip_ws_nonws(b, b.len() as int);
}

/// The decimal digits of a number, as characters.
pub open spec fn dec_chars(n: nat) -> Seq<char> {
    dec_digits(n).map_values(|b: u8| b as char)
}

/// Renders a number as its decimal digits.
pub fn num_string(n: u64) -> (r: String)
    ensures
        r@ == dec_chars(n as nat),
{
    let mut out: Vec<u8> = Vec::new();
    write_num(n, &mut out);
    proof {
        lemma_dec_digits_shape(n as nat);
        assert(out@ =~= dec_digits(n as nat));
    }
    let s = string_from_ascii(out);
    proof {
        assert(s@ =~= dec_chars(n as nat));
    }
    s
}

} // verus!
