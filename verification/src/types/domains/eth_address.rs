use vstd::prelude::*;
use ethers::types::H160;

verus! {

/// The value of a hexadecimal digit, in either case.
pub open spec fn hex_digit_value(c: char) -> Option<int> {
    if '0' <= c && c <= '9' {
        Some(c as int - '0' as int)
    } else if 'a' <= c && c <= 'f' {
        Some(c as int - 'a' as int + 10)
    } else if 'A' <= c && c <= 'F' {
        Some(c as int - 'A' as int + 10)
    } else {
        None
    }
}

pub open spec fn is_hex_digit(c: char) -> bool {
    hex_digit_value(c) is Some
}

/// The lower-case hexadecimal digit for a value below 16.
pub open spec fn lower_hex_digit(n: int) -> char {
    if n < 10 {
        ('0' as int + n) as char
    } else {
        ('a' as int + n - 10) as char
    }
}

/// `s` without a leading `0x`, if it has one.
pub open spec fn strip_0x(s: Seq<char>) -> Seq<char> {
    if s.len() >= 2 && s[0] == '0' && s[1] == 'x' {
        s.skip(2)
    } else {
        s
    }
}

/// The characters that a hex decoder skips between digits.
pub open spec fn is_hex_spacing(c: char) -> bool {
    c == ' ' || c == '\r' || c == '\n' || c == '\t'
}

/// `s` without the characters a hex decoder skips.
pub open spec fn without_spacing(s: Seq<char>) -> Seq<char>
    decreases s.len(),
{
    if s.len() == 0 {
        s
    } else if is_hex_spacing(s[0]) {
        without_spacing(s.drop_first())
    } else {
        seq![s[0]] + without_spacing(s.drop_first())
    }
}

/// The bytes that an even-length run of hex digits denotes, two digits a byte.
pub open spec fn hex_bytes(d: Seq<char>) -> Seq<u8> {
    Seq::new(
        d.len() / 2,
        |i: int|
            (hex_digit_value(d[2 * i]).unwrap() * 16 + hex_digit_value(d[2 * i + 1]).unwrap()) as u8,
    )
}

/// The lower-case hex digits of `b`, two per byte, high half first.
pub open spec fn lower_hex_text(b: Seq<u8>) -> Seq<char> {
    Seq::new(
        2 * b.len(),
        |i: int|
            if i % 2 == 0 {
                lower_hex_digit(b[i / 2] as int / 16)
            } else {
                lower_hex_digit(b[i / 2] as int % 16)
            },
    )
}

/// The 20 bytes that `s` denotes as an address: an optional `0x`, then 40 hex
/// digits, between which spaces, tabs and line breaks are skipped.
pub open spec fn spec_parse_address(s: Seq<char>) -> Option<Seq<u8>> {
    let d = without_spacing(strip_0x(s));
    if d.len() == 40 && (forall|i: int| 0 <= i < d.len() ==> is_hex_digit(#[trigger] d[i])) {
        Some(hex_bytes(d))
    } else {
        None
    }
}

/// The full text of an address: `0x` and 40 lower-case hex digits.
pub open spec fn spec_address_text(b: Seq<u8>) -> Seq<char> {
    seq!['0', 'x'] + lower_hex_text(b)
}

/// Parses `s` with `<H160 as FromStr>::from_str` (ethers' `Address`) and hands
/// back its 20 bytes. The claim, from fixed-hash's source: it strips one
/// leading `0x`, decodes the rest with rustc-hex (which skips spaces, tabs and
/// line breaks), and succeeds exactly when 40 hex digits remain.
#[verifier::external_body]
fn parse_h160(s: &str) -> (r: Option<[u8; 20]>)
    ensures
        match spec_parse_address(s@) {
            Some(b) => r matches Some(a) && a@ == b,
            None => r is None,
        },
{
    match <H160 as std::str::FromStr>::from_str(s) {
        Ok(a) => Some(a.0),
        Err(_) => None,
    }
}

/// Formats `H160(b)` with its `Debug` impl. The claim, from fixed-hash's
/// source (`{:#x}`): `0x` then two lower-case hex digits per byte.
#[verifier::external_body]
fn h160_debug_text(b: [u8; 20]) -> (r: String)
    ensures
        r@ == spec_address_text(b@),
{
    format!("{:?}", H160(b))
}

/// An Ethereum address.
#[derive(Debug, PartialEq, Eq)]
pub struct DomainEthAddress(pub [u8; 20]);

impl DomainEthAddress {
    /// Parses an address from its hex text.
    pub fn parse(s: &str) -> (r: Option<DomainEthAddress>)
        ensures
            match spec_parse_address(s@) {
                Some(b) => r matches Some(a) && a.0@ == b,
                None => r is None,
            },
    {
        match parse_h160(s) {
            Some(b) => Some(DomainEthAddress(b)),
            None => None,
        }
    }

    /// The full text of the address: `0x` and 40 lower-case hex digits.
    pub fn to_string_full(&self) -> (r: String)
        ensures
            r@ == spec_address_text(self.0@),
    {
        h160_debug_text(self.0)
    }
}

proof fn lemma_without_spacing_of_digits(s: Seq<char>)
    requires
        forall|i: int| 0 <= i < s.len() ==> is_hex_digit(#[trigger] s[i]),
    ensures
        without_spacing(s) == s,
    decreases s.len(),
{
    if s.len() > 0 {
        assert(is_hex_digit(s[0]));
        lemma_without_spacing_of_digits(s.drop_first());
        assert(seq![s[0]] + s.drop_first() =~= s);
    }
}

/// Reading back the full text of an address gives the same address.
pub proof fn lemma_address_text_roundtrip(b: Seq<u8>)
    requires
        b.len() == 20,
    ensures
        spec_parse_address(spec_address_text(b)) == Some(b),
{
    let t = spec_address_text(b);
    let h = lower_hex_text(b);
    assert(strip_0x(t) =~= h);
    assert forall|i: int| 0 <= i < h.len() implies is_hex_digit(#[trigger] h[i]) by {
        let n = if i % 2 == 0 { b[i / 2] as int / 16 } else { b[i / 2] as int % 16 };
        assert(0 <= n < 16);
        assert(hex_digit_value(lower_hex_digit(n)) == Some(n));
    }
    lemma_without_spacing_of_digits(h);
    assert forall|i: int| 0 <= i < 20 implies #[trigger] hex_bytes(h)[i] == b[i] by {
        let hi = b[i] as int / 16;
        let lo = b[i] as int % 16;
        assert((2 * i) % 2 == 0);
        assert((2 * i + 1) % 2 == 1);
        assert((2 * i) / 2 == i);
        assert((2 * i + 1) / 2 == i);
        assert(hex_digit_value(lower_hex_digit(hi)) == Some(hi));
        assert(hex_digit_value(lower_hex_digit(lo)) == Some(lo));
        assert(hi * 16 + lo == b[i] as int);
    }
    assert(hex_bytes(h) =~= b);
}

} // verus!
