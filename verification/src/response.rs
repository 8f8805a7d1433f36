//! What a subscription server's response headers say about a profile: traffic figures,
//! file name, update interval and home page.

use reqwest::header::HeaderMap;
use vstd::prelude::*;
use crate::headers::{
    first_field_named, header_fields, header_get, header_get_debug, header_map_fields,
    header_value_chars, header_value_debug, header_value_text, HeaderField,
};
use crate::kv::{
    next_index, next_index_exec, parse_str_text, parse_str_text_exec,
    parse_str_u64, parse_str_u64_exec, parse_u64, parse_u64_exec, slice_chars,
};
use crate::prfitem::PrfExtra;
use crate::text::{chars_of, string_of};

verus! {

/// The value of an ASCII hexadecimal digit (either case), as `char::to_digit(16)` reads
/// it.
pub open spec fn hex_value(b: u8) -> Option<u8> {
    if 48 <= b <= 57 {
        Some((b - 48) as u8)
    } else if 97 <= b <= 102 {
        Some((b - 87) as u8)
    } else if 65 <= b <= 70 {
        Some((b - 55) as u8)
    } else {
        None
    }
}

/// `bytes` percent-decoded: each `%` followed by two hexadecimal digits stands for the
/// byte they spell; every other byte, a lone `%` included, stands for itself.
pub open spec fn percent_decoded(bytes: Seq<u8>) -> Seq<u8>
    decreases bytes.len(),
{
    if bytes.len() == 0 {
        Seq::empty()
    } else if bytes[0] == 37 && bytes.len() >= 3 && hex_value(bytes[1]) is Some && hex_value(
        bytes[2],
    ) is Some {
        seq![((hex_value(bytes[1])->0 as int) * 16 + (hex_value(bytes[2])->0 as int)) as u8]
            + percent_decoded(bytes.skip(3))
    } else {
        seq![bytes[0]] + percent_decoded(bytes.drop_first())
    }
}

/// The text that percent-decoding `bytes` gives, where the decoded bytes are UTF-8.
pub open spec fn percent_decode_utf8(bytes: Seq<u8>) -> Option<Seq<char>> {
    if vstd::utf8::valid_utf8(percent_decoded(bytes)) {
        Some(vstd::utf8::decode_utf8(percent_decoded(bytes)))
    } else {
        None
    }
}

/// `percent_encoding::percent_decode(bytes).decode_utf8()`: the percent-decoded bytes
/// read as UTF-8, or none where they are not UTF-8.
#[verifier::external_body]
fn percent_decode_text(bytes: &[u8]) -> (res: Option<String>)
    ensures
        match res {
            Some(s) => percent_decode_utf8(bytes@) == Some(s@),
            None => percent_decode_utf8(bytes@) is None,
        },
{
    match percent_encoding::percent_decode(bytes).decode_utf8() {
        Ok(text) => Some(text.into_owned()),
        Err(_) => None,
    }
}

/// `s` without leading copies of `c`.
pub open spec fn strip_start_char(s: Seq<char>, c: char) -> Seq<char>
    decreases s.len(),
{
    if s.len() > 0 && s[0] == c {
        strip_start_char(s.drop_first(), c)
    } else {
        s
    }
}

/// `s` without trailing copies of `c`.
pub open spec fn strip_end_char(s: Seq<char>, c: char) -> Seq<char>
    decreases s.len(),
{
    if s.len() > 0 && s.last() == c {
        strip_end_char(s.drop_last(), c)
    } else {
        s
    }
}

/// `s.trim_matches(c)`: `s` without leading and trailing copies of `c`.
pub open spec fn strip_char(s: Seq<char>, c: char) -> Seq<char> {
    strip_end_char(strip_start_char(s, c), c)
}

/// `strip_start_char(s, c)`.
pub fn strip_start_char_exec(s: &[char], c: char) -> (res: Vec<char>)
    ensures
        res@ == strip_start_char(s@, c),
{
    let mut i: usize = 0;
    assert(s@.skip(0) =~= s@);
    while i < s.len() && s[i] == c
        invariant
            i <= s@.len(),
            strip_start_char(s@, c) == strip_start_char(s@.skip(i as int), c),
        decreases s.len() - i,
    {
        assert(s@.skip(i as int).drop_first() =~= s@.skip(i + 1));
        i = i + 1;
    }
    let res = slice_chars(s, i, s.len());
    assert(res@ =~= s@.skip(i as int));
    res
}

/// `strip_char(s, c)`.
pub fn strip_char_exec(s: &[char], c: char) -> (res: Vec<char>)
    ensures
        res@ == strip_char(s@, c),
{
    let t = strip_start_char_exec(s, c);
    let mut j = t.len();
    assert(t@.take(j as int) =~= t@);
    while j > 0 && t[j - 1] == c
        invariant
            j <= t@.len(),
            strip_end_char(t@, c) == strip_end_char(t@.take(j as int), c),
        decreases j,
    {
        assert(t@.take(j as int).drop_last() =~= t@.take(j - 1));
        j = j - 1;
    }
    let res = slice_chars(t.as_slice(), 0, j);
    assert(res@ =~= t@.take(j as int));
    res
}

/// The last piece of `s.split("''")`, scanning from `k` with the current piece
/// starting at `start`.
pub open spec fn last_split_piece(s: Seq<char>, start: int, k: int) -> Seq<char>
    decreases s.len() - k,
{
    if k + 1 < s.len() {
        if s[k] == '\'' && s[k + 1] == '\'' {
            last_split_piece(s, k + 2, k + 2)
        } else {
            last_split_piece(s, start, k + 1)
        }
    } else {
        s.skip(start)
    }
}

/// `s.split("''").last()`: the text after the last of the non-overlapping `''` found
/// from the left.
pub open spec fn after_last_quote_pair(s: Seq<char>) -> Seq<char> {
    last_split_piece(s, 0, 0)
}

/// `after_last_quote_pair(s)`.
pub fn after_last_quote_pair_exec(s: &[char]) -> (res: Vec<char>)
    ensures
        res@ == after_last_quote_pair(s@),
{
    let mut start: usize = 0;
    let mut k: usize = 0;
    while k < s.len() && k + 1 < s.len()
        invariant
            start <= k <= s@.len(),
            after_last_quote_pair(s@) == last_split_piece(s@, start as int, k as int),
        decreases s.len() - k,
    {
        if s[k] == '\'' && s[k + 1] == '\'' {
            k = k + 2;
            start = k;
        } else {
            k = k + 1;
        }
    }
    slice_chars(s, start, s.len())
}

/// The index just after the last `c` in `s`, or 0 where there is none.
pub open spec fn after_last(s: Seq<char>, c: char) -> int
    decreases s.len(),
{
    if s.len() == 0 {
        0
    } else if s.last() == c {
        s.len() as int
    } else {
        after_last(s.drop_last(), c)
    }
}

proof fn lemma_after_last_bounds(s: Seq<char>, c: char)
    ensures
        0 <= after_last(s, c) <= s.len(),
    decreases s.len(),
{
    if s.len() > 0 && s.last() != c {
        lemma_after_last_bounds(s.drop_last(), c);
    }
}

/// The last `/`-separated segment of the part of `url` before its first `?`.
pub open spec fn url_last_segment(url: Seq<char>) -> Seq<char> {
    let path = url.take(next_index(url, '?', 0));
    path.skip(after_last(path, '/'))
}

/// The file name that a URL suggests: its last path segment, percent-decoded, where
/// that is UTF-8.
pub open spec fn url_file_name(url: Seq<char>) -> Option<Seq<char>> {
    percent_decode_utf8(vstd::utf8::encode_utf8(url_last_segment(url)))
}

/// Gets the last part of a URL's path and percent-decodes it.
pub fn get_last_part_and_decode(url: &str) -> (res: Option<String>)
    ensures
        match res {
            Some(s) => url_file_name(url@) == Some(s@),
            None => url_file_name(url@) is None,
        },
{
    let cs = crate::text::chars_of(url);
    let q = next_index_exec(cs.as_slice(), '?', 0);
    let path = slice_chars(cs.as_slice(), 0, q);
    assert(path@ =~= cs@.take(q as int));
    let mut j = path.len();
    assert(path@.take(j as int) =~= path@);
    proof {
        lemma_after_last_bounds(path@, '/');
    }
    while j > 0 && path[j - 1] != '/'
        invariant
            j <= path@.len(),
            after_last(path@, '/') == after_last(path@.take(j as int), '/'),
        decreases j,
    {
        assert(path@.take(j as int).drop_last() =~= path@.take(j - 1));
        j = j - 1;
    }
    proof {
        if j > 0 {
            assert(path@.take(j as int).last() == '/');
        } else {
            assert(path@.take(0) =~= Seq::<char>::empty());
        }
    }
    let segment = string_of(slice_chars(path.as_slice(), j, path.len()).as_slice());
    assert(segment@ =~= url_last_segment(url@));
    percent_decode_text(segment.as_str().as_bytes())
}

/// `s.to_ascii_lowercase()`.
pub open spec fn ascii_lowercase(s: Seq<char>) -> Seq<char> {
    s.map_values(|c: char| if 'A' <= c <= 'Z' { ((c as u8) + 32) as char } else { c })
}

/// A header that carries subscription figures: its lower-cased name ends in
/// `subscription-userinfo`, alone or after a prefix ending in `-` (as custom metadata
/// headers such as `x-amz-meta-subscription-userinfo` are named).
pub open spec fn is_userinfo_name(name: Seq<char>) -> bool {
    let lower = ascii_lowercase(name);
    let suffix = "subscription-userinfo"@;
    &&& lower.len() >= suffix.len()
    &&& lower.skip(lower.len() - suffix.len()) == suffix
    &&& {
        let prefix = lower.take(lower.len() - suffix.len());
        prefix.len() == 0 || prefix.last() == '-'
    }
}

/// The first field, in iteration order, that carries subscription figures.
pub open spec fn first_userinfo_field(fields: Seq<(Seq<char>, Seq<u8>, bool)>) -> Option<
    (Seq<char>, Seq<u8>, bool),
>
    decreases fields.len(),
{
    if fields.len() == 0 {
        None
    } else if is_userinfo_name(fields[0].0) {
        Some(fields[0])
    } else {
        first_userinfo_field(fields.drop_first())
    }
}

pub open spec fn u64_or_zero(o: Option<u64>) -> u64 {
    match o {
        Some(v) => v,
        None => 0,
    }
}

/// The figures that a subscription-userinfo value such as
/// `upload=1; download=2; total=3; expire=4` gives; a missing or unreadable figure is 0.
pub open spec fn extra_from_userinfo(text: Seq<char>) -> PrfExtra {
    PrfExtra {
        upload: u64_or_zero(parse_str_u64(text, "upload"@)),
        download: u64_or_zero(parse_str_u64(text, "download"@)),
        total: u64_or_zero(parse_str_u64(text, "total"@)),
        expire: u64_or_zero(parse_str_u64(text, "expire"@)),
    }
}

/// The subscription figures that the response headers announce.
pub open spec fn subscription_extra(fields: Seq<(Seq<char>, Seq<u8>, bool)>) -> Option<PrfExtra> {
    match first_userinfo_field(fields) {
        Some(f) => Some(extra_from_userinfo(header_value_text(f.1))),
        None => None,
    }
}

fn lowercase_chars(s: &[char]) -> (res: Vec<char>)
    ensures
        res@ == ascii_lowercase(s@),
{
    let mut res: Vec<char> = Vec::new();
    let mut i: usize = 0;
    while i < s.len()
        invariant
            i <= s@.len(),
            res@ == ascii_lowercase(s@.take(i as int)),
        decreases s.len() - i,
    {
        let c = s[i];
        if 'A' <= c && c <= 'Z' {
            res.push(((c as u8) + 32) as char);
        } else {
            res.push(c);
        }
        assert(ascii_lowercase(s@.take(i + 1)) =~= ascii_lowercase(s@.take(i as int)).push(
            if 'A' <= c <= 'Z' { ((c as u8) + 32) as char } else { c },
        ));
        i = i + 1;
    }
    assert(s@.take(s@.len() as int) =~= s@);
    res
}

fn is_userinfo_name_exec(name: &str) -> (res: bool)
    ensures
        res == is_userinfo_name(name@),
{
    let suffix = "subscription-userinfo";
    proof {
        reveal_strlit("subscription-userinfo");
    }
    let suffix_chars = crate::text::chars_of(suffix);
    let lower = lowercase_chars(crate::text::chars_of(name).as_slice());
    if lower.len() < suffix_chars.len() {
        return false;
    }
    let cut = lower.len() - suffix_chars.len();
    let tail = slice_chars(lower.as_slice(), cut, lower.len());
    assert(tail@ =~= lower@.skip(cut as int));
    if !crate::kv::chars_eq(tail.as_slice(), suffix_chars.as_slice()) {
        return false;
    }
    assert(lower@.take(cut as int).len() == cut);
    cut == 0 || lower[cut - 1] == '-'
}

/// The subscription figures of the response headers `headers`.
pub fn userinfo_extra(headers: &HeaderMap) -> (res: Option<PrfExtra>)
    ensures
        res == subscription_extra(header_map_fields(*headers)),
{
    let fields = header_fields(headers);
    let ghost all = fields@.map_values(|f: HeaderField| f@);
    let mut i: usize = 0;
    assert(all.skip(0) =~= all);
    while i < fields.len()
        invariant
            i <= fields@.len(),
            all == fields@.map_values(|f: HeaderField| f@),
            all == header_map_fields(*headers),
            first_userinfo_field(all) == first_userinfo_field(all.skip(i as int)),
        decreases fields.len() - i,
    {
        let f = &fields[i];
        assert(all.skip(i as int)[0] == f@);
        if is_userinfo_name_exec(f.name.as_str()) {
            let text = header_value_chars(f.value.as_slice());
            let upload = parse_str_u64_exec(text.as_slice(), crate::text::chars_of("upload").as_slice());
            let download = parse_str_u64_exec(text.as_slice(), crate::text::chars_of("download").as_slice());
            let total = parse_str_u64_exec(text.as_slice(), crate::text::chars_of("total").as_slice());
            let expire = parse_str_u64_exec(text.as_slice(), crate::text::chars_of("expire").as_slice());
            return Some(
                PrfExtra {
                    upload: upload.unwrap_or(0),
                    download: download.unwrap_or(0),
                    total: total.unwrap_or(0),
                    expire: expire.unwrap_or(0),
                },
            );
        }
        assert(all.skip(i as int).drop_first() =~= all.skip(i + 1));
        i = i + 1;
    }
    None
}

/// The file name that the response gives the profile. With a `Content-Disposition`
/// header, its debug form without surrounding quotes is read as a `key=value` list: a
/// `filename*` value is percent-decoded (empty where that is not UTF-8) and cut after
/// its last `''`; else a `filename` value loses its surrounding quotes; else there is
/// none. Without the header, the URL's last path segment, or `Remote File`.
pub open spec fn disposition_file_name(
    field: Option<(Seq<char>, Seq<u8>, bool)>,
    url: Seq<char>,
) -> Option<Seq<char>> {
    match field {
        Some(f) => {
            let shown = strip_char(header_value_debug(f.1, f.2), '"');
            match parse_str_text(shown, "filename*"@) {
                Some(v) => Some(
                    after_last_quote_pair(
                        match percent_decode_utf8(vstd::utf8::encode_utf8(v)) {
                            Some(t) => t,
                            None => Seq::empty(),
                        },
                    ),
                ),
                None => match parse_str_text(shown, "filename"@) {
                    Some(v) => Some(strip_char(v, '"')),
                    None => None,
                },
            }
        },
        None => Some(
            match url_file_name(url) {
                Some(n) => n,
                None => "Remote File"@,
            },
        ),
    }
}

/// The file name that the headers `headers` of the response to `url` give the profile.
pub fn content_disposition_file_name(headers: &HeaderMap, url: &str) -> (res: Option<String>)
    ensures
        match res {
            Some(n) => disposition_file_name(
                first_field_named(header_map_fields(*headers), "content-disposition"@),
                url@,
            ) == Some(n@),
            None => disposition_file_name(
                first_field_named(header_map_fields(*headers), "content-disposition"@),
                url@,
            ) is None,
        },
{
    proof {
        reveal_strlit("content-disposition");
    }
    match header_get_debug(headers, "content-disposition") {
        Some(debug) => {
            let shown = strip_char_exec(chars_of(debug.as_str()).as_slice(), '"');
            match parse_str_text_exec(shown.as_slice(), crate::text::chars_of("filename*").as_slice()) {
                Some(v) => {
                    let encoded = string_of(v.as_slice());
                    let decoded = match percent_decode_text(encoded.as_str().as_bytes()) {
                        Some(t) => t,
                        None => String::new(),
                    };
                    let piece = after_last_quote_pair_exec(crate::text::chars_of(decoded.as_str()).as_slice());
                    Some(string_of(piece.as_slice()))
                },
                None => match parse_str_text_exec(
                    shown.as_slice(),
                    crate::text::chars_of("filename").as_slice(),
                ) {
                    Some(v) => Some(string_of(strip_char_exec(v.as_slice(), '"').as_slice())),
                    None => None,
                },
            }
        },
        None => match get_last_part_and_decode(url) {
            Some(n) => Some(n),
            None => Some(String::from_str("Remote File")),
        },
    }
}

/// The update interval, in minutes, that the response announces in hours with a
/// `profile-update-interval` header (multiplied with wrap-around, as the release
/// build computes it).
pub open spec fn header_update_interval(fields: Seq<(Seq<char>, Seq<u8>, bool)>) -> Option<u64> {
    match first_field_named(fields, "profile-update-interval"@) {
        Some(f) => match parse_u64(header_value_text(f.1)) {
            Some(hours) => Some(hours.wrapping_mul(60)),
            None => None,
        },
        None => None,
    }
}

/// `header_update_interval` of the headers `headers`.
pub fn update_interval_header(headers: &HeaderMap) -> (res: Option<u64>)
    ensures
        res == header_update_interval(header_map_fields(*headers)),
{
    proof {
        reveal_strlit("profile-update-interval");
    }
    match header_get(headers, "profile-update-interval") {
        Some(f) => {
            let text = header_value_chars(f.value.as_slice());
            match parse_u64_exec(text.as_slice()) {
                Some(hours) => Some(hours.wrapping_mul(60)),
                None => None,
            }
        },
        None => None,
    }
}

/// The home page that the response names in a `profile-web-page-url` header.
pub open spec fn header_home(fields: Seq<(Seq<char>, Seq<u8>, bool)>) -> Option<Seq<char>> {
    match first_field_named(fields, "profile-web-page-url"@) {
        Some(f) => Some(header_value_text(f.1)),
        None => None,
    }
}

/// `header_home` of the headers `headers`.
pub fn home_header(headers: &HeaderMap) -> (res: Option<String>)
    ensures
        match res {
            Some(h) => header_home(header_map_fields(*headers)) == Some(h@),
            None => header_home(header_map_fields(*headers)) is None,
        },
{
    proof {
        reveal_strlit("profile-web-page-url");
    }
    match header_get(headers, "profile-web-page-url") {
        Some(f) => Some(string_of(header_value_chars(f.value.as_slice()).as_slice())),
        None => None,
    }
}

} // verus!
