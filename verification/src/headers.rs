//! HTTP response headers as the subscription logic reads them.

use reqwest::header::{HeaderMap, HeaderValue};
use vstd::prelude::*;

verus! {

#[verifier::external_type_specification]
#[verifier::external_body]
#[verifier::reject_recursive_types(T)]
pub struct ExHeaderMap<T>(HeaderMap<T>);

#[verifier::external_type_specification]
#[verifier::external_body]
pub struct ExHeaderValue(HeaderValue);

/// One header field: its name (lower case, as `HeaderName::as_str` gives it), the raw
/// bytes of its value, and whether the value is marked sensitive.
pub struct HeaderField {
    pub name: String,
    pub value: Vec<u8>,
    pub sensitive: bool,
}

impl View for HeaderField {
    type V = (Seq<char>, Seq<u8>, bool);

    open spec fn view(&self) -> (Seq<char>, Seq<u8>, bool) {
        (self.name@, self.value@, self.sensitive)
    }
}

/// The fields a header map holds, in the order in which `HeaderMap::iter` visits them:
/// each name once per value, the values of one name one after the other, the first of
/// them being the one `HeaderMap::get` returns.
pub uninterp spec fn header_map_fields(m: HeaderMap<HeaderValue>) -> Seq<(Seq<char>, Seq<u8>, bool)>;

/// The first field of `fields` named `name`.
pub open spec fn first_field_named(
    fields: Seq<(Seq<char>, Seq<u8>, bool)>,
    name: Seq<char>,
) -> Option<(Seq<char>, Seq<u8>, bool)>
    decreases fields.len(),
{
    if fields.len() == 0 {
        None
    } else if fields[0].0 == name {
        Some(fields[0])
    } else {
        first_field_named(fields.drop_first(), name)
    }
}

/// A header name already in the canonical form: lower-case ASCII letters, digits and
/// hyphens.
pub open spec fn is_canonical_header_name(name: Seq<char>) -> bool {
    &&& 0 < name.len() < 256
    &&& forall|i: int|
        0 <= i < name.len() ==> ('a' <= #[trigger] name[i] <= 'z' || '0' <= name[i] <= '9'
            || name[i] == '-')
}

/// All fields of `m`, in its iteration order (`HeaderMap::iter`), each converted to plain
/// values.
#[verifier::external_body]
pub(crate) fn header_fields(m: &HeaderMap) -> (res: Vec<HeaderField>)
    ensures
        res@.map_values(|f: HeaderField| f@) == header_map_fields(*m),
{
    let mut res = Vec::new();
    for (name, value) in m.iter() {
        res.push(HeaderField { name: name.as_str().to_string(), value: value.as_bytes().to_vec(), sensitive: value.is_sensitive() });
    }
    res
}

/// `HeaderMap::get` with a name in canonical form: the first value stored under that
/// name, converted to plain values.
#[verifier::external_body]
pub(crate) fn header_get(m: &HeaderMap, name: &str) -> (res: Option<HeaderField>)
    requires
        is_canonical_header_name(name@),
    ensures
        match res {
            Some(f) => first_field_named(header_map_fields(*m), name@) == Some(f@),
            None => first_field_named(header_map_fields(*m), name@) is None,
        },
{
    match m.get(name) {
        Some(value) => Some(HeaderField { name: name.to_string(), value: value.as_bytes().to_vec(), sensitive: value.is_sensitive() }),
        None => None,
    }
}

/// Bytes that `HeaderValue::to_str` lets through: visible ASCII and tab.
pub open spec fn is_visible_ascii(b: u8) -> bool {
    32 <= b < 127 || b == 9
}

/// The text of a header value as `HeaderValue::to_str(..).unwrap_or("")` gives it: the
/// bytes as characters where all are visible ASCII, else the empty text.
pub open spec fn header_value_text(value: Seq<u8>) -> Seq<char> {
    if forall|i: int| 0 <= i < value.len() ==> is_visible_ascii(#[trigger] value[i]) {
        value.map_values(|b: u8| b as char)
    } else {
        Seq::empty()
    }
}

/// The characters of `header_value_text(value)`.
pub fn header_value_chars(value: &[u8]) -> (res: Vec<char>)
    ensures
        res@ == header_value_text(value@),
{
    let mut res: Vec<char> = Vec::new();
    let mut i: usize = 0;
    while i < value.len()
        invariant
            i <= value@.len(),
            res@ == value@.take(i as int).map_values(|b: u8| b as char),
            forall|k: int| 0 <= k < i ==> is_visible_ascii(#[trigger] value@[k]),
        decreases value.len() - i,
    {
        let b = value[i];
        if !((32 <= b && b < 127) || b == 9) {
            return Vec::new();
        }
        res.push(b as char);
        proof {
            assert(value@.take(i + 1).map_values(|b: u8| b as char) =~= value@.take(
                i as int,
            ).map_values(|b: u8| b as char).push(b as char));
        }
        i = i + 1;
    }
    proof {
        assert(value@.take(value@.len() as int) =~= value@);
    }
    res
}

/// The lower-case hexadecimal digit for `d < 16`.
pub open spec fn hex_digit(d: nat) -> char {
    if d < 10 {
        crate::text::digit_char(d)
    } else if d == 10 {
        'a'
    } else if d == 11 {
        'b'
    } else if d == 12 {
        'c'
    } else if d == 13 {
        'd'
    } else if d == 14 {
        'e'
    } else {
        'f'
    }
}

/// `b` in lower-case hexadecimal without leading zeros (`{:x}`).
pub open spec fn lower_hex(b: u8) -> Seq<char> {
    if b < 16 {
        seq![hex_digit(b as nat)]
    } else {
        seq![hex_digit((b / 16) as nat), hex_digit((b % 16) as nat)]
    }
}

/// How the debug form of a header value shows one byte: `"` as `\"`, other bytes that
/// are not visible ASCII as `\x` and hexadecimal, the rest as they are.
pub open spec fn escaped_byte(b: u8) -> Seq<char> {
    if b == 34 {
        seq!['\\', '"']
    } else if !is_visible_ascii(b) {
        seq!['\\', 'x'] + lower_hex(b)
    } else {
        seq![b as char]
    }
}

pub open spec fn escaped_bytes(v: Seq<u8>) -> Seq<char>
    decreases v.len(),
{
    if v.len() == 0 {
        Seq::empty()
    } else {
        escaped_bytes(v.drop_last()) + escaped_byte(v.last())
    }
}

/// The debug form (`{:?}`) of a header value: `Sensitive` for a sensitive value, else
/// its escaped bytes in double quotes.
pub open spec fn header_value_debug(value: Seq<u8>, sensitive: bool) -> Seq<char> {
    if sensitive {
        "Sensitive"@
    } else {
        seq!['"'] + escaped_bytes(value) + seq!['"']
    }
}

/// `HeaderMap::get` with a name in canonical form, the value shown in its debug form
/// (`format!("{:?}", value)`), which `header_value_debug` states.
#[verifier::external_body]
pub(crate) fn header_get_debug(m: &HeaderMap, name: &str) -> (res: Option<String>)
    requires
        is_canonical_header_name(name@),
    ensures
        match first_field_named(header_map_fields(*m), name@) {
            Some(f) => res matches Some(s) && s@ == header_value_debug(f.1, f.2),
            None => res is None,
        },
{
    match m.get(name) {
        Some(value) => Some(format!("{:?}", value)),
        None => None,
    }
}

/// Whether the response says that its content is encrypted: the first `X-Encrypted`
/// header reads `1`.
pub open spec fn says_encrypted(fields: Seq<(Seq<char>, Seq<u8>, bool)>) -> bool {
    match first_field_named(fields, "x-encrypted"@) {
        Some(f) => header_value_text(f.1) == seq!['1'],
        None => false,
    }
}

/// Checks whether an HTTP response announces encrypted content (`X-Encrypted: 1`).
pub fn is_encrypted_response(headers: &HeaderMap) -> (res: bool)
    ensures
        res == says_encrypted(header_map_fields(*headers)),
{
    let name = "x-encrypted";
    proof {
        reveal_strlit("x-encrypted");
    }
    match header_get(headers, name) {
        Some(f) => {
            let text = header_value_chars(f.value.as_slice());
            let res = text.len() == 1 && text[0] == '1';
            proof {
                if res {
                    assert(text@ =~= seq!['1']);
                }
            }
            res
        },
        None => false,
    }
}

/// A response announces encrypted content exactly when its first `X-Encrypted` value
/// is the single byte `1`.
pub proof fn lemma_encrypted_means_value_one(fields: Seq<(Seq<char>, Seq<u8>, bool)>)
    ensures
        says_encrypted(fields) <==> (first_field_named(fields, "x-encrypted"@) matches Some(f)
            && f.1 == seq![0x31u8]),
{
    if let Some(f) = first_field_named(fields, "x-encrypted"@) {
        let v = f.1;
        if v == seq![0x31u8] {
            assert(is_visible_ascii(v[0]));
            assert(header_value_text(v) =~= seq!['1']);
        }
        if header_value_text(v) == seq!['1'] {
            assert(forall|i: int| 0 <= i < v.len() ==> is_visible_ascii(#[trigger] v[i]));
            assert(v.len() == 1);
            assert(header_value_text(v)[0] == (v[0] as char));
            assert((v[0] as char) == '1');
            assert(((v[0] as char) as u32) == v[0] as u32);
            assert(('1' as u32) == 0x31);
            assert(v =~= seq![0x31u8]);
        }
    }
}

} // verus!
