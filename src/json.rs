//! JSON access: serde_json reads each piece of a document, and the library
//! looks at the pieces as plain strings and numbers.
//!
//! A JSON object is seen as its members: each key together with the JSON
//! text of its value. Nested values stay as text until the logic asks for
//! them, so a value that the library does not know is carried unchanged.
use vstd::prelude::*;

verus! {

#[verifier::external_type_specification]
#[verifier::external_body]
pub struct ExJsonError(serde_json::Error);

/// The members that serde_json reads from a text holding one JSON object
/// (each key with the JSON text of its value), or `None` where the text is
/// not one JSON object.
pub uninterp spec fn object_members_of(text: Seq<char>) -> Option<Seq<(Seq<char>, Seq<char>)>>;

/// The string that serde_json reads from the text of one JSON value, or `None`
/// where that value is not a string.
pub uninterp spec fn string_of(text: Seq<char>) -> Option<Seq<char>>;

/// The `u32` that serde_json reads from the text of one JSON value, or `None`
/// where that value is not an integer in range.
pub uninterp spec fn u32_of(text: Seq<char>) -> Option<u32>;

/// What serde_json reads as an optional `u64` from the text of one JSON value
/// (`null` gives `Some(None)`), or `None` where it reads neither.
pub uninterp spec fn optional_u64_of(text: Seq<char>) -> Option<Option<u64>>;

/// The JSON text that serde_json writes for a string.
pub uninterp spec fn string_literal_of(s: Seq<char>) -> Seq<char>;

/// Members as plain sequences.
pub open spec fn members_view(v: Seq<(String, String)>) -> Seq<(Seq<char>, Seq<char>)> {
    v.map_values(|e: (String, String)| (e.0@, e.1@))
}

/// No two members share a key.
pub open spec fn keys_unique(ms: Seq<(Seq<char>, Seq<char>)>) -> bool {
    forall|i: int, j: int| 0 <= i < j < ms.len() ==> ms[i].0 != ms[j].0
}

/// Members with unique keys, each value the text of one JSON value.
pub open spec fn well_formed_members(ms: Seq<(Seq<char>, Seq<char>)>) -> bool {
    &&& keys_unique(ms)
    &&& forall|i: int| 0 <= i < ms.len() ==> is_json_value(#[trigger] ms[i].1)
}

/// The value text of the first member named `key`.
pub open spec fn member(ms: Seq<(Seq<char>, Seq<char>)>, key: Seq<char>) -> Option<Seq<char>>
    decreases ms.len(),
{
    if ms.len() == 0 {
        None
    } else if ms[0].0 == key {
        Some(ms[0].1)
    } else {
        member(ms.drop_first(), key)
    }
}

/// The string held by the member named `key`; `None` where the member is
/// absent or holds no string.
pub open spec fn string_member(ms: Seq<(Seq<char>, Seq<char>)>, key: Seq<char>) -> Option<Seq<char>> {
    match member(ms, key) {
        Some(raw) => string_of(raw),
        None => None,
    }
}

/// Relies on serde_json::from_str into a map of raw values: it reads one JSON
/// object and hands out each member's key (unique, as map keys are) with the
/// text of its value (one JSON value).
#[verifier::external_body]
pub(crate) fn parse_object(text: &str) -> (r: Result<Vec<(String, String)>, serde_json::Error>)
    ensures
        match r {
            Ok(m) => object_members_of(text@) == Some(members_view(m@)) && well_formed_members(
                members_view(m@),
            ),
            Err(_) => object_members_of(text@) is None,
        },
{
    serde_json::from_str::<std::collections::BTreeMap<String, Box<serde_json::value::RawValue>>>(
        text,
    ).map(|m| m.into_iter().map(|(k, v)| (k, v.get().to_string())).collect())
}

/// Relies on serde_json::from_str into a `String`: it reads a JSON string.
#[verifier::external_body]
pub(crate) fn parse_string(text: &str) -> (r: Result<String, serde_json::Error>)
    ensures
        match r {
            Ok(s) => string_of(text@) == Some(s@),
            Err(_) => string_of(text@) is None,
        },
{
    serde_json::from_str::<String>(text)
}

/// Relies on serde_json::from_str into a `u32`: it reads a JSON integer that fits.
#[verifier::external_body]
pub(crate) fn parse_u32(text: &str) -> (r: Option<u32>)
    ensures
        r == u32_of(text@),
{
    serde_json::from_str::<u32>(text).ok()
}

/// Relies on serde_json::from_str into an `Option<u64>`: it reads `null` or a
/// JSON integer that fits.
#[verifier::external_body]
pub(crate) fn parse_optional_u64(text: &str) -> (r: Option<Option<u64>>)
    ensures
        r == optional_u64_of(text@),
{
    serde_json::from_str::<Option<u64>>(text).ok()
}

/// Relies on serde_json::to_string on a `str`: it writes the string as a JSON
/// string literal (one JSON value), and writing into memory does not fail.
#[verifier::external_body]
pub(crate) fn write_string(s: &str) -> (r: Result<String, serde_json::Error>)
    ensures
        r is Ok,
        r matches Ok(t) ==> t@ == string_literal_of(s@) && is_json_value(t@),
{
    serde_json::to_string(s)
}

/// Relies on serde's `de::Error::missing_field` as serde_json implements it:
/// the error that a decode reports for an absent member.
#[verifier::external_body]
pub(crate) fn missing_member_error(name: &'static str) -> (r: serde_json::Error) {
    <serde_json::Error as serde::de::Error>::missing_field(name)
}

/// Whether `s` holds exactly the characters of `lit`.
pub fn text_is(s: &String, lit: &str) -> (r: bool)
    ensures
        r == (s@ == lit@),
{
    let t = String::from_str(lit);
    *s == t
}

/// Index of the first member named `key`.
pub fn find_member(ms: &Vec<(String, String)>, key: &str) -> (r: Option<usize>)
    ensures
        match r {
            Some(i) => {
                &&& i < ms@.len()
                &&& ms@[i as int].0@ == key@
                &&& forall|j: int| 0 <= j < i ==> ms@[j].0@ != key@
                &&& member(members_view(ms@), key@) == Some(ms@[i as int].1@)
            },
            None => {
                &&& forall|j: int| 0 <= j < ms@.len() ==> ms@[j].0@ != key@
                &&& member(members_view(ms@), key@) is None
            },
        },
{
    let ghost mv = members_view(ms@);
    let mut i: usize = 0;
    assert(mv.skip(0) =~= mv);
    while i < ms.len()
        invariant
            i <= ms@.len(),
            mv == members_view(ms@),
            forall|j: int| 0 <= j < i ==> ms@[j].0@ != key@,
            member(mv, key@) == member(mv.skip(i as int), key@),
        decreases ms@.len() - i,
    {
        let ghost rest = mv.skip(i as int);
        assert(rest[0] == mv[i as int]);
        if text_is(&ms[i].0, key) {
            return Some(i);
        }
        assert(rest.drop_first() =~= mv.skip(i + 1));
        i = i + 1;
    }
    assert(mv.skip(i as int).len() == 0);
    None
}

/// The string held by the member named `key`.
pub fn find_string(ms: &Vec<(String, String)>, key: &str) -> (r: Option<String>)
    ensures
        match r {
            Some(s) => string_member(members_view(ms@), key@) == Some(s@),
            None => string_member(members_view(ms@), key@) is None,
        },
{
    match find_member(ms, key) {
        Some(i) => match parse_string(ms[i].1.as_str()) {
            Ok(s) => Some(s),
            Err(_) => None,
        },
        None => None,
    }
}

/// The character of a decimal digit.
pub open spec fn digit_char(d: nat) -> char {
    seq!['0', '1', '2', '3', '4', '5', '6', '7', '8', '9'][d as int]
}

/// The decimal digits of `n`, without leading zeros.
pub open spec fn decimal(n: nat) -> Seq<char>
    decreases n,
{
    if n < 10 {
        seq![digit_char(n)]
    } else {
        decimal(n / 10) + seq![digit_char(n % 10)]
    }
}

/// The one-character text of a decimal digit.
fn digit_text(d: u64) -> (r: &'static str)
    requires
        d < 10,
    ensures
        r@ == seq![digit_char(d as nat)],
{
    match d {
        0 => {
            proof {
                reveal_strlit("0");
            }
            "0"
        },
        1 => {
            proof {
                reveal_strlit("1");
            }
            "1"
        },
        2 => {
            proof {
                reveal_strlit("2");
            }
            "2"
        },
        3 => {
            proof {
                reveal_strlit("3");
            }
            "3"
        },
        4 => {
            proof {
                reveal_strlit("4");
            }
            "4"
        },
        5 => {
            proof {
                reveal_strlit("5");
            }
            "5"
        },
        6 => {
            proof {
                reveal_strlit("6");
            }
            "6"
        },
        7 => {
            proof {
                reveal_strlit("7");
            }
            "7"
        },
        8 => {
            proof {
                reveal_strlit("8");
            }
            "8"
        },
        _ => {
            proof {
                reveal_strlit("9");
            }
            "9"
        },
    }
}

/// The decimal digits of `n`, as serde_json writes a number.
pub fn decimal_text(n: u64) -> (r: String)
    ensures
        r@ == decimal(n as nat),
    decreases n,
{
    if n < 10 {
        String::from_str(digit_text(n))
    } else {
        let mut s = decimal_text(n / 10);
        s.append(digit_text(n % 10));
        s
    }
}

/// Whether a text is exactly one JSON value.
pub uninterp spec fn is_json_value(text: Seq<char>) -> bool;

/// Relies on serde_json::from_str into a `RawValue`: it accepts exactly the
/// texts that hold one JSON value, and reports the error otherwise.
#[verifier::external_body]
pub(crate) fn check_json_value(text: &str) -> (r: Result<(), serde_json::Error>)
    ensures
        r is Ok <==> is_json_value(text@),
{
    serde_json::from_str::<&serde_json::value::RawValue>(text).map(|_| ())
}

} // verus!
