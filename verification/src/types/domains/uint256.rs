use vstd::prelude::*;
use ethers::types::U256;
use ethers::abi::ethereum_types::FromDecStrErr;
use crate::types::domains::decimal::{DomainDecimal, MAGNITUDE_BOUND, decimal_display, zeros, decimal_text_rounded, numeric_decoded, numeric_encoding};
use crate::util::text::concat2;
use crate::types::domains::eth_address::{hex_digit_value, is_hex_digit, strip_0x};
use crate::util::json_extract::{ExtractableFromJson, JsonModel, JsonNumber, JsonValue, NumberModel};

verus! {

/// 2^64.
pub open spec fn word() -> nat {
    0x1_0000_0000_0000_0000
}

/// 2^256, the bound of a 256-bit unsigned integer.
pub open spec fn u256_bound() -> nat {
    word() * word() * word() * word()
}

/// The number that four little-endian 64-bit words denote.
pub open spec fn limbs_value(l: Seq<u64>) -> nat {
    l[0] as nat + word() * (l[1] as nat + word() * (l[2] as nat + word() * l[3] as nat))
}

pub open spec fn is_decimal_digit(c: char) -> bool {
    '0' <= c && c <= '9'
}

/// The number that a run of hex digits denotes (zero for no digits).
pub open spec fn hex_value(s: Seq<char>) -> nat
    decreases s.len(),
{
    if s.len() == 0 {
        0
    } else {
        16 * hex_value(s.drop_last()) + hex_digit_value(s.last()).unwrap() as nat
    }
}

/// The decimal text of `n`, without leading zeros (`0` for zero).
pub open spec fn decimal_text(n: nat) -> Seq<char>
    decreases n,
{
    if n < 10 {
        seq![('0' as int + n) as char]
    } else {
        decimal_text(n / 10).push(('0' as int + n % 10) as char)
    }
}

/// What `U256::from_dec_str` gives, reading `s` from the front: the first
/// character that is not a decimal digit is an invalid character, unless
/// the digits before it already reached 2^256, which is an invalid length.
pub open spec fn dec_str_outcome(s: Seq<char>) -> Result<nat, Uint256Error>
    decreases s.len(),
{
    if s.len() == 0 {
        Ok(0)
    } else {
        match dec_str_outcome(s.drop_last()) {
            Err(e) => Err(e),
            Ok(v) => if !is_decimal_digit(s.last()) {
                Err(Uint256Error::InvalidCharacter)
            } else if 10 * v + (s.last() as int - '0' as int) >= u256_bound() {
                Err(Uint256Error::InvalidLength)
            } else {
                Ok((10 * v + (s.last() as int - '0' as int)) as nat)
            },
        }
    }
}

/// The number `U256::from_dec_str` reads from `s`, if it reads one.
pub open spec fn spec_from_dec_str(s: Seq<char>) -> Option<nat> {
    match dec_str_outcome(s) {
        Ok(n) => Some(n),
        Err(_) => None,
    }
}

/// What `<U256 as FromStr>::from_str` gives: after one optional `0x`, at most
/// 64 hex digits (possibly none), read as a number.
pub open spec fn spec_from_hex_str(s: Seq<char>) -> Option<nat> {
    let d = strip_0x(s);
    if d.len() <= 64 && (forall|i: int| 0 <= i < d.len() ==> is_hex_digit(#[trigger] d[i])) {
        Some(hex_value(d))
    } else {
        None
    }
}

/// Calls `U256::from_dec_str` and hands back the words of the result, or
/// which error it gave. The claim, from uint's source: it reads the bytes in
/// order, refuses a byte that is not a decimal digit as an invalid
/// character, and refuses a digit that takes the number to 2^256 or more as
/// an invalid length.
#[verifier::external_body]
fn u256_from_dec_str(s: &str) -> (r: Result<[u64; 4], Uint256Error>)
    ensures
        match dec_str_outcome(s@) {
            Ok(n) => r matches Ok(l) && limbs_value(l@) == n,
            Err(e) => r == Err::<[u64; 4], Uint256Error>(e),
        },
{
    match U256::from_dec_str(s) {
        Ok(v) => Ok(v.0),
        Err(FromDecStrErr::InvalidCharacter) => Err(Uint256Error::InvalidCharacter),
        Err(FromDecStrErr::InvalidLength) => Err(Uint256Error::InvalidLength),
    }
}

/// Calls `<U256 as FromStr>::from_str` and hands back the words of the result.
/// The claim, from uint's source: it strips one leading `0x`, refuses more
/// than 64 characters, and decodes the rest as hex digits of either case.
#[verifier::external_body]
fn u256_from_hex_str(s: &str) -> (r: Option<[u64; 4]>)
    ensures
        match spec_from_hex_str(s@) {
            Some(n) => r matches Some(l) && limbs_value(l@) == n,
            None => r is None,
        },
{
    match <U256 as std::str::FromStr>::from_str(s) {
        Ok(v) => Some(v.0),
        Err(_) => None,
    }
}

/// Formats `U256(l)` with its `Display` impl. The claim, from uint's source:
/// the decimal digits of the number, without leading zeros, `0` for zero.
#[verifier::external_body]
fn u256_display_text(l: [u64; 4]) -> (r: String)
    ensures
        r@ == decimal_text(limbs_value(l@)),
{
    U256(l).to_string()
}

/// The text that opens the error of `to_numeric_sql`.
pub const NUMERIC_OVERFLOW_PREFIX: &'static str = "Failed to parse U256 as Decimal: ";

/// An unsigned 256-bit integer, as four little-endian 64-bit words.
#[derive(Debug, PartialEq, Eq)]
pub struct DomainUint256(pub [u64; 4]);

/// Why a value could not become a [`DomainUint256`].
#[derive(Debug, PartialEq, Eq)]
pub enum Uint256Error {
    /// The text holds a character that is not a decimal digit.
    InvalidCharacter,
    /// The number does not fit in 256 bits.
    InvalidLength,
    /// A negative integer was given.
    Negative,
    /// The bytes of a NUMERIC column could not be read; the decoder's message.
    InvalidNumeric(String),
}

impl DomainUint256 {
    /// The number this value holds.
    pub open spec fn value(&self) -> nat {
        limbs_value(self.0@)
    }

    pub fn from_u64(v: u64) -> (r: DomainUint256)
        ensures
            r.value() == v,
    {
        DomainUint256([v, 0, 0, 0])
    }

    /// Parses a decimal number.
    pub fn from_dec_str(s: &str) -> (r: Result<DomainUint256, Uint256Error>)
        ensures
            match dec_str_outcome(s@) {
                Ok(n) => r matches Ok(v) && v.value() == n,
                Err(e) => r == Err::<DomainUint256, Uint256Error>(e),
            },
    {
        match u256_from_dec_str(s) {
            Ok(l) => Ok(DomainUint256(l)),
            Err(e) => Err(e),
        }
    }

    /// Reads the bytes of a NUMERIC column: the decimal they hold, written
    /// out as text and parsed as a decimal integer.
    pub fn from_numeric_sql(raw: &[u8]) -> (r: Result<DomainUint256, Uint256Error>)
        ensures
            match numeric_decoded(raw@) {
                Err(e) => r matches Err(Uint256Error::InvalidNumeric(m)) && m@ == e,
                Ok(p) => match dec_str_outcome(decimal_display(p.0, p.1 as nat, p.2 as nat)) {
                    Ok(n) => r matches Ok(v) && v.value() == n,
                    Err(e) => r == Err::<DomainUint256, Uint256Error>(e),
                },
            },
            numeric_decoded(raw@) matches Ok(p) ==> if p.0 || p.2 > 0 {
                r == Err::<DomainUint256, Uint256Error>(Uint256Error::InvalidCharacter)
            } else {
                r matches Ok(v) && v.value() == p.1
            },
    {
        match DomainDecimal::from_numeric_sql(raw) {
            Err(e) => Err(Uint256Error::InvalidNumeric(e)),
            Ok(d) => {
                proof {
                    assert(MAGNITUDE_BOUND < u256_bound());
                    lemma_decimal_display_reads(d.negative, d.magnitude as nat, d.scale as nat);
                }
                let text = d.to_text();
                DomainUint256::from_dec_str(text.as_str())
            },
        }
    }

    /// The bytes of this number as a NUMERIC column: its decimal text read
    /// as a decimal, which fails when the number does not fit one.
    pub fn to_numeric_sql(&self) -> (r: Result<Vec<u8>, String>)
        ensures
            match decimal_text_rounded(decimal_text(self.value())) {
                Ok(p) => r matches Ok(b) && b@ == numeric_encoding(p.0, p.1, p.2),
                Err(e) => r matches Err(m) && m@ == NUMERIC_OVERFLOW_PREFIX@ + e,
            },
    {
        let text = self.to_dec_string();
        match DomainDecimal::from_text(text.as_str()) {
            Ok(d) => Ok(d.to_numeric_sql()),
            Err(e) => Err(concat2(NUMERIC_OVERFLOW_PREFIX, e.as_str())),
        }
    }

    /// Parses a hexadecimal number, with or without `0x`.
    pub fn from_hex_str(s: &str) -> (r: Option<DomainUint256>)
        ensures
            match spec_from_hex_str(s@) {
                Some(n) => r matches Some(v) && v.value() == n,
                None => r is None,
            },
    {
        match u256_from_hex_str(s) {
            Some(l) => Some(DomainUint256(l)),
            None => None,
        }
    }

    /// A signed integer, refused when negative.
    pub fn from_i64(v: i64) -> (r: Result<DomainUint256, Uint256Error>)
        ensures
            v < 0 ==> r == Err::<DomainUint256, _>(Uint256Error::Negative),
            v >= 0 ==> (r matches Ok(u) && u.value() == v),
    {
        if v < 0 {
            Err(Uint256Error::Negative)
        } else {
            Ok(DomainUint256::from_u64(v as u64))
        }
    }

    /// The decimal text of the number.
    pub fn to_dec_string(&self) -> (r: String)
        ensures
            r@ == decimal_text(self.value()),
    {
        u256_display_text(self.0)
    }
}

impl ExtractableFromJson for DomainUint256 {
    /// A number gives the value its decimal text denotes, so only a
    /// non-negative integer does; a string gives the value of its hex digits.
    open spec fn extracts_to(value: JsonModel, r: Option<DomainUint256>) -> bool {
        match value {
            JsonModel::Number(NumberModel::PosInt(n)) => r matches Some(v) && v.value() == n,
            JsonModel::Number(NumberModel::NegInt(_)) => r is None,
            JsonModel::Number(NumberModel::Float(t)) => match spec_from_dec_str(t) {
                Some(n) => r matches Some(v) && v.value() == n,
                None => r is None,
            },
            JsonModel::Text(t) => match spec_from_hex_str(t) {
                Some(n) => r matches Some(v) && v.value() == n,
                None => r is None,
            },
            _ => r is None,
        }
    }

    fn extract(value: &JsonValue) -> (r: Option<DomainUint256>) {
        match value {
            JsonValue::Number(JsonNumber::PosInt(n)) => Some(DomainUint256::from_u64(*n)),
            JsonValue::Number(JsonNumber::NegInt(_)) => None,
            JsonValue::Number(JsonNumber::Float(t)) => match DomainUint256::from_dec_str(t.as_str()) {
                Ok(v) => Some(v),
                Err(_) => None,
            },
            JsonValue::Text(t) => DomainUint256::from_hex_str(t.as_str()),
            _ => None,
        }
    }
}

proof fn lemma_decimal_text_reads_back(n: nat)
    requires
        n < u256_bound(),
    ensures
        dec_str_outcome(decimal_text(n)) == Ok::<nat, Uint256Error>(n),
    decreases n,
{
    let t = decimal_text(n);
    if n >= 10 {
        lemma_decimal_text_reads_back(n / 10);
        assert(t.drop_last() =~= decimal_text(n / 10));
        assert(t.last() as int == '0' as int + n % 10);
        assert(is_decimal_digit(t.last()));
        assert(10 * (n / 10) + n % 10 == n);
        assert(dec_str_outcome(t.drop_last()) == Ok::<nat, Uint256Error>(n / 10));
    } else {
        assert(t.drop_last() =~= Seq::<char>::empty());
        assert(dec_str_outcome(t.drop_last()) == Ok::<nat, Uint256Error>(0));
        assert(t.last() as int == '0' as int + n);
        assert(is_decimal_digit(t.last()));
    }
}

/// Reading back the decimal text of a value gives the same value.
pub proof fn lemma_decimal_text_roundtrip(v: DomainUint256)
    ensures
        spec_from_dec_str(decimal_text(v.value())) == Some(v.value()),
{
    assert(v.value() < u256_bound()) by (nonlinear_arith)
        requires
            v.value() == limbs_value(v.0@),
            v.0@[0] < word(),
            v.0@[1] < word(),
            v.0@[2] < word(),
            v.0@[3] < word(),
    {
    }
    lemma_decimal_text_reads_back(v.value());
}

proof fn lemma_outcome_first_not_digit(s: Seq<char>)
    requires
        s.len() > 0,
        !is_decimal_digit(s[0]),
    ensures
        dec_str_outcome(s) == Err::<nat, Uint256Error>(Uint256Error::InvalidCharacter),
    decreases s.len(),
{
    if s.len() == 1 {
        assert(s.drop_last() =~= Seq::<char>::empty());
        assert(dec_str_outcome(s.drop_last()) == Ok::<nat, Uint256Error>(0));
    } else {
        lemma_outcome_first_not_digit(s.drop_last());
    }
}

proof fn lemma_outcome_error_stays(a: Seq<char>, b: Seq<char>)
    requires
        dec_str_outcome(a) is Err,
    ensures
        dec_str_outcome(a + b) == dec_str_outcome(a),
    decreases b.len(),
{
    if b.len() == 0 {
        assert(a + b =~= a);
    } else {
        lemma_outcome_error_stays(a, b.drop_last());
        assert((a + b).drop_last() =~= a + b.drop_last());
    }
}

proof fn lemma_outcome_prefix_reads(s: Seq<char>, k: int)
    requires
        dec_str_outcome(s) is Ok,
        0 <= k <= s.len(),
    ensures
        dec_str_outcome(s.take(k)) is Ok,
{
    if dec_str_outcome(s.take(k)) is Err {
        lemma_outcome_error_stays(s.take(k), s.skip(k));
        assert(s.take(k) + s.skip(k) =~= s);
    }
}

/// Reading the text of a decimal (as `decimal_display` writes it) as a
/// 256-bit integer succeeds exactly when the decimal is not negative and has
/// no digits after its point; the number read is then the magnitude.
pub proof fn lemma_decimal_display_reads(negative: bool, magnitude: nat, scale: nat)
    requires
        magnitude < u256_bound(),
    ensures
        dec_str_outcome(decimal_display(negative, magnitude, scale)) == if negative || scale > 0 {
            Err::<nat, Uint256Error>(Uint256Error::InvalidCharacter)
        } else {
            Ok::<nat, Uint256Error>(magnitude)
        },
{
    let digits = if magnitude == 0 { Seq::<char>::empty() } else { decimal_text(magnitude) };
    let padded = if digits.len() < scale { zeros((scale - digits.len()) as nat) + digits } else { digits };
    let whole = padded.take(padded.len() - scale);
    let w = if whole.len() == 0 { seq!['0'] } else { whole };
    lemma_decimal_text_reads_back(magnitude);
    lemma_decimal_text_reads_back(0);
    assert(decimal_text(0) =~= seq!['0']);
    let rep = decimal_display(false, magnitude, scale);
    if scale == 0 {
        assert(padded == digits);
        if magnitude == 0 {
            assert(rep == seq!['0']);
        } else {
            assert(rep == decimal_text(magnitude));
        }
    } else {
        assert(rep == w + seq!['.'] + padded.skip(padded.len() - scale));
        assert(dec_str_outcome(w) is Ok) by {
            if whole.len() > 0 {
                assert(digits.len() >= scale);
                assert(magnitude != 0);
                lemma_outcome_prefix_reads(decimal_text(magnitude), padded.len() - scale);
            } else {
                assert(w =~= seq!['0']);
                assert(w.drop_last() =~= Seq::<char>::empty());
                assert(dec_str_outcome(w.drop_last()) == Ok::<nat, Uint256Error>(0));
            }
        }
        assert((w + seq!['.']).drop_last() =~= w);
        assert(dec_str_outcome(w + seq!['.']) is Err);
        lemma_outcome_error_stays(w + seq!['.'], padded.skip(padded.len() - scale));
    }
    if negative {
        let t = decimal_display(negative, magnitude, scale);
        assert(t == seq!['-'] + rep);
        assert(t[0] == '-');
        lemma_outcome_first_not_digit(t);
    }
}

} // verus!
