//! Header fields, as the `http` crate keeps them.

use crate::classify::Code;
use crate::numbers::{numbers_are_positional, parse_i32, signed, unsigned};
use http::{HeaderMap, HeaderValue};
use vstd::prelude::*;

verus! {

/// The collection of header fields of the `http` crate.
#[verifier::external_type_specification]
#[verifier::external_body]
#[verifier::reject_recursive_types(T)]
pub struct ExHeaderMap<T>(http::HeaderMap<T>);

/// The value of a header field of the `http` crate.
#[verifier::external_type_specification]
#[verifier::external_body]
pub struct ExHeaderValue(http::HeaderValue);

/// What a `HeaderMap` holds: under each field name, in lower case, the values of that field in the
/// order in which they were added.
pub uninterp spec fn header_fields(map: HeaderMap<HeaderValue>) -> Map<Seq<char>, Seq<Seq<u8>>>;

/// The lower-case form of an ASCII letter.
pub open spec fn lower(c: char) -> char {
    if 'A' <= c && c <= 'Z' {
        ((c as u32 + 32) as u8) as char
    } else {
        c
    }
}

/// The name under which a field is kept.
pub open spec fn header_key(name: Seq<char>) -> Seq<char> {
    name.map_values(|c: char| lower(c))
}

/// The first value of the field called `name`.
pub open spec fn first_value(fields: Map<Seq<char>, Seq<Seq<u8>>>, name: Seq<char>) -> Option<
    Seq<u8>,
> {
    if fields.contains_key(header_key(name)) {
        Some(fields[header_key(name)][0])
    } else {
        None
    }
}

/// The bytes that an optional buffer holds.
pub open spec fn bytes_of(v: Option<Vec<u8>>) -> Option<Seq<u8>> {
    match v {
        Some(v) => Some(v@),
        None => None,
    }
}

/// Calls `HeaderMap::get` and copies the value out. The claim: names are compared without regard
/// to ASCII case, and of several values the first is returned.
#[verifier::external_body]
pub(crate) fn header_get(map: &HeaderMap<HeaderValue>, name: &str) -> (r: Option<Vec<u8>>)
    ensures
        bytes_of(r) == first_value(header_fields(*map), name@),
{
    map.get(name).map(|v| v.as_bytes().to_vec())
}

/// Calls `HeaderMap::remove` and copies the value out. The claim: all values of the field go, the
/// first is returned, and no other field changes.
#[verifier::external_body]
pub(crate) fn header_remove(map: &mut HeaderMap<HeaderValue>, name: &str) -> (r: Option<Vec<u8>>)
    ensures
        bytes_of(r) == first_value(header_fields(*old(map)), name@),
        header_fields(*final(map)) == header_fields(*old(map)).remove(header_key(name@)),
{
    map.remove(name).map(|v| v.as_bytes().to_vec())
}

/// Whether a value is text: visible ASCII, spaces and tabs.
pub open spec fn is_text(bytes: Seq<u8>) -> bool {
    forall|i: int| 0 <= i < bytes.len() ==> text_byte(#[trigger] bytes[i])
}

pub open spec fn text_byte(b: u8) -> bool {
    32 <= b < 127 || b == 9
}

pub fn is_text_value(bytes: &[u8]) -> (r: bool)
    ensures
        r == is_text(bytes@),
{
    let mut i: usize = 0;
    while i < bytes.len()
        invariant
            i <= bytes@.len(),
            forall|j: int| 0 <= j < i ==> text_byte(#[trigger] bytes@[j]),
        decreases bytes@.len() - i,
    {
        let b: u8 = bytes[i];
        if !((32 <= b && b < 127) || b == 9) {
            proof {
                assert(!text_byte(bytes@[i as int]));
            }
            return false;
        }
        i = i + 1;
    }
    true
}

/// The number that the gRPC library keeps for a status number: known numbers stand for
/// themselves, all others for `Unknown`.
pub open spec fn known_code(n: int) -> int {
    if 0 <= n <= 16 {
        n
    } else {
        2
    }
}

/// Calls `tonic::Code::from_i32` and converts the code back to its number. The claim: the numbers
/// 0 to 16 are the known codes, and any other number gives `Unknown`, whose number is 2.
#[verifier::external_body]
fn code_number(n: i32) -> (r: i32)
    ensures
        r == known_code(n as int),
{
    i32::from(tonic::Code::from_i32(n))
}

impl Code {
    /// The number of a code on the wire.
    pub open spec fn number(self) -> int {
        match self {
            Code::Okay => 0,
            Code::Cancelled => 1,
            Code::Unknown => 2,
            Code::InvalidArgument => 3,
            Code::DeadlineExceeded => 4,
            Code::NotFound => 5,
            Code::AlreadyExists => 6,
            Code::PermissionDenied => 7,
            Code::ResourceExhausted => 8,
            Code::FailedPrecondition => 9,
            Code::Aborted => 10,
            Code::OutOfRange => 11,
            Code::Unimplemented => 12,
            Code::Internal => 13,
            Code::Unavailable => 14,
            Code::DataLoss => 15,
            Code::Unauthenticated => 16,
        }
    }

    pub fn to_u16(&self) -> (n: u16)
        ensures
            n == self.number(),
    {
        match self {
            Code::Okay => 0,
            Code::Cancelled => 1,
            Code::Unknown => 2,
            Code::InvalidArgument => 3,
            Code::DeadlineExceeded => 4,
            Code::NotFound => 5,
            Code::AlreadyExists => 6,
            Code::PermissionDenied => 7,
            Code::ResourceExhausted => 8,
            Code::FailedPrecondition => 9,
            Code::Aborted => 10,
            Code::OutOfRange => 11,
            Code::Unimplemented => 12,
            Code::Internal => 13,
            Code::Unavailable => 14,
            Code::DataLoss => 15,
            Code::Unauthenticated => 16,
        }
    }

    /// The code with a given number, `Unknown` when there is none.
    pub fn from_i32(n: i32) -> (c: Code)
        ensures
            c.number() == known_code(n as int),
    {
        let known: i32 = code_number(n);
        match known {
            0 => Code::Okay,
            1 => Code::Cancelled,
            3 => Code::InvalidArgument,
            4 => Code::DeadlineExceeded,
            5 => Code::NotFound,
            6 => Code::AlreadyExists,
            7 => Code::PermissionDenied,
            8 => Code::ResourceExhausted,
            9 => Code::FailedPrecondition,
            10 => Code::Aborted,
            11 => Code::OutOfRange,
            12 => Code::Unimplemented,
            13 => Code::Internal,
            14 => Code::Unavailable,
            15 => Code::DataLoss,
            16 => Code::Unauthenticated,
            _ => Code::Unknown,
        }
    }
}

/// The code that a field value stands for: a signed 32-bit number in decimal.
pub open spec fn code_of_value(value: Option<Seq<u8>>) -> Option<int> {
    match value {
        Some(v) => if is_text(v) && signed(v) is Some && i32::MIN <= signed(v)->0 <= i32::MAX {
            Some(known_code(signed(v)->0))
        } else {
            None
        },
        None => None,
    }
}

/// The number of an optional code.
pub open spec fn number_of(code: Option<Code>) -> Option<int> {
    match code {
        Some(c) => Some(c.number()),
        None => None,
    }
}

/// Reads the gRPC status out of the `grpc-status` field of headers or trailers.
pub fn grpc_code(headers: &HeaderMap<HeaderValue>) -> (code: Option<Code>)
    ensures
        number_of(code) == code_of_value(first_value(header_fields(*headers), "grpc-status"@)),
{
    match header_get(headers, "grpc-status") {
        Some(v) => if is_text_value(&v) {
            match parse_i32(&v) {
                Some(n) => Some(Code::from_i32(n)),
                None => None,
            }
        } else {
            None
        },
        None => None,
    }
}

/// A field is found by its name in any case, and the first of its values is what is found. A field
/// that was taken out is not found, and others are not touched by it.
pub proof fn fields_are_found_in_any_case(
    fields: Map<Seq<char>, Seq<Seq<u8>>>,
    name: Seq<char>,
    other: Seq<char>,
    values: Seq<Seq<u8>>,
)
    requires
        name.len() == other.len(),
        forall|i: int|
            #![trigger name[i]]
            0 <= i < name.len() ==> name[i] == other[i] || 65 <= (name[i] as u32) <= 90 && other[i] as u32
                == name[i] as u32 + 32 || 65 <= (other[i] as u32) <= 90 && name[i] as u32 == other[i] as u32
                + 32,
    ensures
        header_key(name) == header_key(other),
        first_value(fields.insert(header_key(name), values), other) == Some(values[0]),
        first_value(fields.remove(header_key(name)), other) is None,
{
    assert forall|i: int| 0 <= i < name.len() implies header_key(name)[i] == header_key(other)[i] by {
        assert(header_key(name)[i] == lower(name[i]));
        assert(header_key(other)[i] == lower(other[i]));
    }
    assert(header_key(name) =~= header_key(other));
}

/// The name under which a field is kept has no upper-case letters, and is the name itself if that
/// has none.
pub proof fn field_names_are_lower_case(name: Seq<char>, i: int)
    requires
        0 <= i < name.len(),
    ensures
        header_key(name).len() == name.len(),
        65 <= (name[i] as u32) <= 90 ==> header_key(name)[i] as u32 == name[i] as u32 + 32,
        (name[i] as u32) < 65 || (name[i] as u32) > 90 ==> header_key(name)[i] == name[i],
{
}

/// Text is visible ASCII with spaces and tabs: one byte of another kind spoils it.
pub proof fn text_is_visible_ascii(bytes: Seq<u8>)
    ensures
        (forall|i: int|
            #![trigger bytes[i]]
            0 <= i < bytes.len() ==> 32 <= bytes[i] <= 126 || bytes[i] == 9) <==> is_text(bytes),
{
    if is_text(bytes) {
        assert forall|i: int|
            #![trigger bytes[i]]
            0 <= i < bytes.len() implies 32 <= bytes[i] <= 126 || bytes[i] == 9 by {
            assert(text_byte(bytes[i]));
        }
    }
}

/// A status number in decimal gives the code of that number. One that is no code stands for the
/// code of an unknown error, which is 2, as long as it fits in 32 bits.
pub proof fn status_numbers_give_codes(s: Seq<u8>, code: Code)
    requires
        s.len() > 0,
        forall|i: int| 0 <= i < s.len() ==> 48 <= #[trigger] s[i] <= 57,
    ensures
        unsigned(s) is Some,
        unsigned(s)->0 <= 16 ==> code_of_value(Some(s)) == Some(unsigned(s)->0 as int),
        16 < unsigned(s)->0 <= 0x7fff_ffff ==> code_of_value(Some(s)) == Some(2int),
        unsigned(s)->0 > 0x7fff_ffff ==> code_of_value(Some(s)) is None,
        0 < unsigned(s)->0 <= 0x8000_0000 ==> code_of_value(Some(seq![45u8] + s)) == Some(2int),
        code_of_value(None) is None,
        code_of_value(Some(Seq::empty())) is None,
        0 <= code.number() <= 16,
{
    numbers_are_positional(s, 48);
    assert(is_text(s)) by {
        assert forall|i: int| 0 <= i < s.len() implies text_byte(#[trigger] s[i]) by {
            assert(48 <= s[i] <= 57);
        }
    }
    let negative = seq![45u8] + s;
    assert forall|i: int| 0 <= i < negative.len() implies text_byte(#[trigger] negative[i]) by {
        if i > 0 {
            assert(negative[i] == s[i - 1]);
        }
    }
    assert(signed(Seq::<u8>::empty()) is None);
}

/// No two codes have the same number, and the numbers are those that gRPC gives them.
pub proof fn codes_are_told_apart(a: Code, b: Code)
    ensures
        a.number() == b.number() <==> a == b,
        a.number() == 0 <==> a is Okay,
        a.number() == 1 <==> a is Cancelled,
        a.number() == 2 <==> a is Unknown,
        a.number() == 3 <==> a is InvalidArgument,
        a.number() == 4 <==> a is DeadlineExceeded,
        a.number() == 5 <==> a is NotFound,
        a.number() == 6 <==> a is AlreadyExists,
        a.number() == 7 <==> a is PermissionDenied,
        a.number() == 8 <==> a is ResourceExhausted,
        a.number() == 9 <==> a is FailedPrecondition,
        a.number() == 10 <==> a is Aborted,
        a.number() == 11 <==> a is OutOfRange,
        a.number() == 12 <==> a is Unimplemented,
        a.number() == 13 <==> a is Internal,
        a.number() == 14 <==> a is Unavailable,
        a.number() == 15 <==> a is DataLoss,
        a.number() == 16 <==> a is Unauthenticated,
{
}

/// A name without upper-case letters is kept as it is.
pub proof fn lower_case_names_are_kept(name: Seq<char>)
    requires
        forall|i: int|
            0 <= i < name.len() ==> ((#[trigger] name[i]) as u32) < 65 || name[i] as u32 > 90,
    ensures
        header_key(name) == name,
{
    assert forall|i: int| 0 <= i < name.len() implies header_key(name)[i] == name[i] by {
        assert(lower(name[i]) == name[i]);
    }
    assert(header_key(name) =~= name);
}

} // verus!
