use vstd::prelude::*;
use reqwest::header::{HeaderMap, HeaderName, HeaderValue};
use vstd::utf8::encode_utf8;

verus! {

#[verifier::external_type_specification]
#[verifier::external_body]
#[verifier::reject_recursive_types(T)]
pub struct ExHeaderMap<T>(HeaderMap<T>);

#[verifier::external_type_specification]
#[verifier::external_body]
pub struct ExHeaderName(HeaderName);

#[verifier::external_type_specification]
#[verifier::external_body]
pub struct ExHeaderValue(HeaderValue);

/// What a header map holds: for each header name (lower case), its values in
/// the order they were added.
pub uninterp spec fn header_map_values(m: HeaderMap) -> Map<Seq<char>, Seq<Seq<u8>>>;

/// The characters of a header name, as `HeaderName::as_str` gives them.
pub uninterp spec fn header_name_text(n: HeaderName) -> Seq<char>;

/// The bytes of a header value, as `HeaderValue::as_bytes` gives them.
pub uninterp spec fn header_value_bytes(v: HeaderValue) -> Seq<u8>;

/// A character that `http` accepts in a header name (the token characters).
pub open spec fn is_header_name_char(c: char) -> bool {
    ||| 'a' <= c && c <= 'z'
    ||| 'A' <= c && c <= 'Z'
    ||| '0' <= c && c <= '9'
    ||| c == '!' || c == '"' || c == '#' || c == '$' || c == '%' || c == '&' || c == '\''
    ||| c == '*' || c == '+' || c == '-' || c == '.' || c == '^' || c == '_' || c == '`'
    ||| c == '|' || c == '~'
}

/// Text that `HeaderName::from_str` accepts: 1 to 65535 token characters.
pub open spec fn spec_valid_header_name(s: Seq<char>) -> bool {
    &&& 1 <= s.len() <= 65535
    &&& forall|i: int| 0 <= i < s.len() ==> is_header_name_char(#[trigger] s[i])
}

/// `s` with its ASCII capitals made small.
pub open spec fn ascii_lowercase(s: Seq<char>) -> Seq<char> {
    Seq::new(
        s.len(),
        |i: int| if 'A' <= s[i] && s[i] <= 'Z' { (s[i] as int + 32) as char } else { s[i] },
    )
}

/// Text that `HeaderValue::from_str` accepts: every UTF-8 byte is a tab or at
/// least a space and not DEL; so every character is a tab, or at least a space
/// and not DEL.
pub open spec fn spec_valid_header_value(s: Seq<char>) -> bool {
    forall|i: int| 0 <= i < s.len() ==> (#[trigger] s[i] == '\t' || (' ' <= s[i] && s[i] != '\x7f'))
}

/// Text that `HeaderValue::from_static` accepts: visible ASCII and tabs.
pub open spec fn spec_visible_ascii(s: Seq<char>) -> bool {
    forall|i: int| 0 <= i < s.len() ==> (#[trigger] s[i] == '\t' || (' ' <= s[i] && s[i] < '\x7f'))
}

/// The number of distinct names below which `HeaderMap::insert` cannot
/// panic. Before each insert the map makes room for one more entry; it panics
/// ("size overflows MAX_SIZE") only when that needs a table larger than 32768
/// slots. A full table of 32768 slots holds 24576 names; a table that
/// collisions have put in its yellow state doubles once its names reach a
/// fifth of its slots, which for 32768 slots is 6554 names.
pub const HEADER_MAP_ROOM: usize = 6554;

/// `HEADER_MAP_ROOM` as a number.
pub open spec fn header_map_room() -> nat {
    HEADER_MAP_ROOM as nat
}

/// The contents of a map that holds nothing.
pub open spec fn no_headers() -> Map<Seq<char>, Seq<Seq<u8>>> {
    Map::empty()
}

/// `HeaderMap::new`: a map that holds nothing.
#[verifier::external_body]
pub fn header_map_new() -> (r: HeaderMap)
    ensures
        header_map_values(r) == no_headers(),
{
    HeaderMap::new()
}

/// `HeaderMap::insert`: the name now holds this one value, whatever it held
/// before; other names are untouched.
#[verifier::external_body]
pub fn header_map_insert(m: &mut HeaderMap, name: HeaderName, value: HeaderValue)
    requires
        header_map_values(*old(m)).dom().finite(),
        header_map_values(*old(m)).dom().len() < header_map_room(),
    ensures
        header_map_values(*final(m)) == header_map_values(*old(m)).insert(
            header_name_text(name),
            seq![header_value_bytes(value)],
        ),
{
    m.insert(name, value);
}

/// Whether a map's contents hold exactly `n` names (finitely many).
pub open spec fn holds_names(values: Map<Seq<char>, Seq<Seq<u8>>>, n: nat) -> bool {
    values.dom().finite() && values.dom().len() == n
}

/// `HeaderMap::keys_len`: how many distinct names the map holds.
#[verifier::external_body]
pub fn header_map_keys_len(m: &HeaderMap) -> (r: usize)
    ensures
        holds_names(header_map_values(*m), r as nat),
{
    m.keys_len()
}

/// `HeaderMap::clone`: a map that holds the same values.
#[verifier::external_body]
pub fn header_map_clone(m: &HeaderMap) -> (r: HeaderMap)
    ensures
        header_map_values(r) == header_map_values(*m),
{
    m.clone()
}

/// `HeaderMap::iter`, each pair cloned. The claim, from http's source: every
/// name the map holds comes with at least one value; the pairs with a given
/// name come out in the order its values were added, and no pair has a name
/// the map does not hold.
#[verifier::external_body]
pub fn header_map_pairs(m: &HeaderMap) -> (r: Vec<(HeaderName, HeaderValue)>)
    ensures
        forall|k: Seq<char>| #[trigger] header_map_values(*m).contains_key(k) ==> pairs_under(r@, k).len() > 0,
        forall|k: Seq<char>|
            #[trigger] pairs_under(r@, k) == if header_map_values(*m).contains_key(k) {
                header_map_values(*m)[k]
            } else {
                Seq::empty()
            },
{
    m.iter().map(|(k, v)| (k.clone(), v.clone())).collect()
}

/// The values of the pairs named `k`, in order.
pub open spec fn pairs_under(p: Seq<(HeaderName, HeaderValue)>, k: Seq<char>) -> Seq<Seq<u8>>
    decreases p.len(),
{
    if p.len() == 0 {
        Seq::empty()
    } else {
        let rest = pairs_under(p.drop_last(), k);
        if header_name_text(p.last().0) == k {
            rest.push(header_value_bytes(p.last().1))
        } else {
            rest
        }
    }
}

/// `s.parse::<HeaderName>()`: the name in lower case when the text is a valid
/// header name, nothing otherwise.
#[verifier::external_body]
pub fn header_name_parse(s: &str) -> (r: Option<HeaderName>)
    ensures
        r is Some <==> spec_valid_header_name(s@),
        r matches Some(n) ==> header_name_text(n) == ascii_lowercase(s@),
{
    s.parse::<HeaderName>().ok()
}

/// `reqwest::header::CONTENT_TYPE`.
#[verifier::external_body]
pub fn content_type_name() -> (r: HeaderName)
    ensures
        header_name_text(r) == "content-type"@,
{
    reqwest::header::CONTENT_TYPE
}

/// `reqwest::header::ACCEPT`.
#[verifier::external_body]
pub fn accept_name() -> (r: HeaderName)
    ensures
        header_name_text(r) == "accept"@,
{
    reqwest::header::ACCEPT
}

/// `reqwest::header::AUTHORIZATION`.
#[verifier::external_body]
pub fn authorization_name() -> (r: HeaderName)
    ensures
        header_name_text(r) == "authorization"@,
{
    reqwest::header::AUTHORIZATION
}

/// `HeaderValue::from_str`: the UTF-8 bytes of the text when every byte is
/// allowed in a header value, nothing otherwise.
#[verifier::external_body]
pub fn header_value_parse(s: &str) -> (r: Option<HeaderValue>)
    ensures
        r is Some <==> spec_valid_header_value(s@),
        r matches Some(v) ==> header_value_bytes(v) == encode_utf8(s@),
{
    HeaderValue::from_str(s).ok()
}

/// `HeaderValue::from_static`, which panics unless the text is visible ASCII
/// or tabs.
#[verifier::external_body]
pub fn header_value_static(s: &'static str) -> (r: HeaderValue)
    requires
        spec_visible_ascii(s@),
    ensures
        header_value_bytes(r) == encode_utf8(s@),
{
    HeaderValue::from_static(s)
}

} // verus!
