use vstd::prelude::*;
use bytes::BytesMut;
use rust_decimal::Decimal;
use tokio_postgres::types::{FromSql, ToSql, Type};
use crate::types::domains::uint256::decimal_text;
use vstd::std_specs::cmp::PartialEqSpecImpl;

verus! {

/// 2^96: every magnitude a decimal holds lies below it.
pub const MAGNITUDE_BOUND: u128 = 0x1_0000_0000_0000_0000_0000_0000;

/// The most digits a decimal holds after its point.
pub const MAX_SCALE: u32 = 28;

/// Whether a sign, magnitude and scale are the parts of a `rust_decimal`
/// value.
pub open spec fn parts_fit(p: (bool, u128, u32)) -> bool {
    p.1 < MAGNITUDE_BOUND && p.2 <= MAX_SCALE
}

/// `n` zeros.
pub open spec fn zeros(n: nat) -> Seq<char> {
    Seq::new(n, |i: int| '0')
}

/// The text `rust_decimal` writes for a value: a `-` when the sign is
/// negative, the digits of the magnitude padded with zeros to more than
/// `scale` digits, and a point before the last `scale` of them.
pub open spec fn decimal_display(negative: bool, magnitude: nat, scale: nat) -> Seq<char> {
    let digits = if magnitude == 0 { Seq::<char>::empty() } else { decimal_text(magnitude) };
    let padded = if digits.len() < scale { zeros((scale - digits.len()) as nat) + digits } else { digits };
    let whole = padded.take(padded.len() - scale);
    let rep = if scale == 0 {
        if padded.len() == 0 { seq!['0'] } else { padded }
    } else {
        (if whole.len() == 0 { seq!['0'] } else { whole }) + seq!['.'] + padded.skip(padded.len() - scale)
    };
    if negative { seq!['-'] + rep } else { rep }
}

/// Ten to the power `n`.
pub open spec fn pow10(n: nat) -> nat
    decreases n,
{
    if n == 0 {
        1
    } else {
        10 * pow10((n - 1) as nat)
    }
}

proof fn lemma_pow10_adds(a: nat, b: nat)
    ensures
        pow10(a + b) == pow10(a) * pow10(b),
        pow10(b) >= 1,
    decreases b,
{
    if b > 0 {
        lemma_pow10_adds(a, (b - 1) as nat);
        assert(pow10(a + b) == 10 * pow10((a + b - 1) as nat));
        assert(((a + b - 1) as nat) == a + ((b - 1) as nat));
        let x = pow10(a);
        let y = pow10((b - 1) as nat);
        assert(pow10(b) == 10 * y);
        assert(pow10(a + ((b - 1) as nat)) == x * y);
        assert(pow10(a + b) == 10 * (x * y));
        assert(10 * (x * y) == x * (10 * y)) by (nonlinear_arith);
    } else {
        assert(a + b == a);
        assert(pow10(0) == 1);
    }
}

proof fn lemma_pow10_grows(a: nat, b: nat)
    requires
        a <= b,
    ensures
        pow10(a) <= pow10(b),
    decreases b,
{
    if a < b {
        lemma_pow10_grows(a, (b - 1) as nat);
        lemma_pow10_adds(0, (b - 1) as nat);
    }
}

/// What `Decimal::from_str_exact` gives for a text: the sign, magnitude and
/// scale of the number, or the text of its error.
pub uninterp spec fn decimal_text_exact(text: Seq<char>) -> Result<(bool, u128, u32), Seq<char>>;

/// What `<Decimal as FromStr>::from_str` gives for a text: the sign,
/// magnitude and scale of the number (digits past the 28th after the point
/// rounded away), or the text of its error.
pub uninterp spec fn decimal_text_rounded(text: Seq<char>) -> Result<(bool, u128, u32), Seq<char>>;

/// What `<Decimal as FromSql>::from_sql` gives for the bytes of a NUMERIC
/// value: the sign, magnitude and scale of the number, or the text of its
/// error.
pub uninterp spec fn numeric_decoded(raw: Seq<u8>) -> Result<(bool, u128, u32), Seq<char>>;

/// The bytes `<Decimal as ToSql>::to_sql` writes for a decimal.
pub uninterp spec fn numeric_encoding(negative: bool, magnitude: u128, scale: u32) -> Seq<u8>;

/// Calls `Decimal::from_str_exact` and hands back the parts of the result,
/// or the text of the error. Any `Decimal` has a magnitude below 2^96 and a
/// scale of at most 28.
#[verifier::external_body]
fn decimal_parse_exact(text: &str) -> (r: Result<(bool, u128, u32), String>)
    ensures
        match r {
            Ok(p) => decimal_text_exact(text@) == Ok::<(bool, u128, u32), Seq<char>>(p) && parts_fit(p),
            Err(e) => decimal_text_exact(text@) == Err::<(bool, u128, u32), Seq<char>>(e@),
        },
{
    match Decimal::from_str_exact(text) {
        Ok(d) => Ok((d.is_sign_negative(), d.mantissa().unsigned_abs(), d.scale())),
        Err(e) => Err(e.to_string()),
    }
}

/// Calls `<Decimal as FromStr>::from_str` and hands back the parts of the
/// result, or the text of the error. Any `Decimal` has a magnitude below
/// 2^96 and a scale of at most 28.
#[verifier::external_body]
fn decimal_parse(text: &str) -> (r: Result<(bool, u128, u32), String>)
    ensures
        match r {
            Ok(p) => decimal_text_rounded(text@) == Ok::<(bool, u128, u32), Seq<char>>(p) && parts_fit(p),
            Err(e) => decimal_text_rounded(text@) == Err::<(bool, u128, u32), Seq<char>>(e@),
        },
{
    match <Decimal as std::str::FromStr>::from_str(text) {
        Ok(d) => Ok((d.is_sign_negative(), d.mantissa().unsigned_abs(), d.scale())),
        Err(e) => Err(e.to_string()),
    }
}

/// Calls `<Decimal as FromSql>::from_sql` (which reads no type) and hands
/// back the parts of the result, or the text of the error. Any `Decimal` has
/// a magnitude below 2^96 and a scale of at most 28.
#[verifier::external_body]
fn numeric_decode(raw: &[u8]) -> (r: Result<(bool, u128, u32), String>)
    ensures
        match r {
            Ok(p) => numeric_decoded(raw@) == Ok::<(bool, u128, u32), Seq<char>>(p) && parts_fit(p),
            Err(e) => numeric_decoded(raw@) == Err::<(bool, u128, u32), Seq<char>>(e@),
        },
{
    match <Decimal as FromSql>::from_sql(&Type::NUMERIC, raw) {
        Ok(d) => Ok((d.is_sign_negative(), d.mantissa().unsigned_abs(), d.scale())),
        Err(e) => Err(e.to_string()),
    }
}

/// Builds the `Decimal` with these parts and calls `<Decimal as
/// ToSql>::to_sql` on it, which always succeeds. `from_i128_with_scale`
/// panics outside the bounds that `requires` states.
#[verifier::external_body]
fn numeric_encode(negative: bool, magnitude: u128, scale: u32) -> (r: Vec<u8>)
    requires
        parts_fit((negative, magnitude, scale)),
    ensures
        r@ == numeric_encoding(negative, magnitude, scale),
{
    let mut d = Decimal::from_i128_with_scale(magnitude as i128, scale);
    d.set_sign_negative(negative);
    let mut out = BytesMut::new();
    let _ = <Decimal as ToSql>::to_sql(&d, &Type::NUMERIC, &mut out);
    out.to_vec()
}

/// Builds the `Decimal` with these parts and formats it with its `Display`
/// impl. The claim, from rust_decimal's `to_str_internal` and
/// `pad_integral`: the text is `decimal_display` of the parts.
#[verifier::external_body]
fn decimal_display_text(negative: bool, magnitude: u128, scale: u32) -> (r: String)
    requires
        parts_fit((negative, magnitude, scale)),
    ensures
        r@ == decimal_display(negative, magnitude as nat, scale as nat),
{
    let mut d = Decimal::from_i128_with_scale(magnitude as i128, scale);
    d.set_sign_negative(negative);
    d.to_string()
}

proof fn lemma_same_sign_scaled(x: int, y: int, mx: int, my: int, q: int, p: int, negative: bool)
    requires
        q >= 1,
        p >= 1,
        x == (if negative { -mx } else { mx }),
        y == (if negative { -my } else { my }),
    ensures
        (x * q == y * (q * p)) <==> (mx == my * p),
{
    assert((x * q == y * (q * p)) <==> (x == y * p)) by (nonlinear_arith)
        requires
            q >= 1,
    ;
    assert((x == y * p) <==> (mx == my * p)) by (nonlinear_arith)
        requires
            x == (if negative { -mx } else { mx }),
            y == (if negative { -my } else { my }),
    ;
}

/// `10^d` for `d` up to 38, the largest power of ten below 2^128.
fn ten_to(d: u32) -> (r: u128)
    requires
        d <= 38,
    ensures
        r == pow10(d as nat),
{
    proof {
        reveal_with_fuel(pow10, 39);
        lemma_pow10_grows(d as nat, 38);
    }
    let mut p: u128 = 1;
    let mut i: u32 = 0;
    while i < d
        invariant
            i <= d <= 38,
            p == pow10(i as nat),
            pow10(d as nat) <= pow10(38),
            pow10(38) == 100_000_000_000_000_000_000_000_000_000_000_000_000nat,
        decreases d - i,
    {
        proof {
            lemma_pow10_grows((i + 1) as nat, d as nat);
            assert(pow10((i + 1) as nat) == 10 * pow10(i as nat));
        }
        p = p * 10;
        i = i + 1;
    }
    p
}

/// Whether `hi == lo * 10^d`.
fn magnitude_scaled_eq(hi: u128, lo: u128, d: u32) -> (r: bool)
    ensures
        r == (hi == lo * pow10(d as nat)),
{
    if d > 38 {
        proof {
            reveal_with_fuel(pow10, 40);
            lemma_pow10_grows(39, d as nat);
            assert(pow10(39) == 1_000_000_000_000_000_000_000_000_000_000_000_000_000nat);
            let p = pow10(d as nat) as int;
            assert(lo >= 1 ==> lo * p >= p) by (nonlinear_arith)
                requires
                    p >= 1,
            ;
        }
        return hi == 0 && lo == 0;
    }
    let p = ten_to(d);
    proof {
        lemma_pow10_adds(0, d as nat);
        vstd::arithmetic::div_mod::lemma_fundamental_div_mod(hi as int, p as int);
        vstd::arithmetic::div_mod::lemma_div_by_multiple(lo as int, p as int);
        vstd::arithmetic::div_mod::lemma_mod_multiples_basic(lo as int, p as int);
        let (h, l, q) = (hi as int, lo as int, p as int);
        assert(l * q == q * l) by (nonlinear_arith);
        if h % q == 0 && h / q == l {
            assert(h == l * q);
        }
        if h == l * q {
            assert(h / q == l && h % q == 0);
        }
    }
    hi % p == 0 && hi / p == lo
}

/// A decimal number: a sign, a magnitude below 2^96 and a scale of at most
/// 28; its value is the magnitude divided by ten to the scale, negated when
/// the sign is negative.
#[derive(Debug, Clone, Copy)]
pub struct DomainDecimal {
    pub negative: bool,
    pub magnitude: u128,
    pub scale: u32,
}

impl DomainDecimal {
    /// The parts of this value.
    pub open spec fn parts(self) -> (bool, u128, u32) {
        (self.negative, self.magnitude, self.scale)
    }

    /// Whether the parts are those of a decimal.
    pub open spec fn wf(self) -> bool {
        parts_fit(self.parts())
    }

    /// The magnitude with the sign applied.
    pub open spec fn signed_magnitude(self) -> int {
        if self.negative {
            -(self.magnitude as int)
        } else {
            self.magnitude as int
        }
    }

    /// Whether two decimals stand for the same number, whatever their scales
    /// and whatever the sign of a zero: `a / 10^s == b / 10^t` with the
    /// signs applied.
    pub open spec fn same_value(self, other: DomainDecimal) -> bool {
        self.signed_magnitude() * pow10(other.scale as nat) == other.signed_magnitude() * pow10(self.scale as nat)
    }

    /// Whether the two decimals stand for the same number.
    pub fn same_value_as(&self, other: &DomainDecimal) -> (r: bool)
        ensures
            r == self.same_value(*other),
    {
        let pa = Ghost(pow10(self.scale as nat));
        let pb = Ghost(pow10(other.scale as nat));
        proof {
            lemma_pow10_adds(0, self.scale as nat);
            lemma_pow10_adds(0, other.scale as nat);
        }
        if self.magnitude == 0 && other.magnitude == 0 {
            return true;
        }
        if self.negative != other.negative {
            proof {
                let x = self.signed_magnitude();
                let y = other.signed_magnitude();
                let pa = pa@ as int;
                let pb = pb@ as int;
                assert(x * pb != y * pa) by (nonlinear_arith)
                    requires
                        pa >= 1,
                        pb >= 1,
                        (x <= 0 && y >= 0) || (x >= 0 && y <= 0),
                        x != 0 || y != 0,
                ;
            }
            return false;
        }
        if self.scale >= other.scale {
            let d = self.scale - other.scale;
            proof {
                lemma_pow10_adds(other.scale as nat, d as nat);
                assert(self.scale as nat == other.scale as nat + d as nat);
                lemma_same_sign_scaled(self.signed_magnitude(), other.signed_magnitude(), self.magnitude as int,
                    other.magnitude as int, pb@ as int, pow10(d as nat) as int, self.negative);
            }
            magnitude_scaled_eq(self.magnitude, other.magnitude, d)
        } else {
            let d = other.scale - self.scale;
            proof {
                lemma_pow10_adds(self.scale as nat, d as nat);
                assert(other.scale as nat == self.scale as nat + d as nat);
                lemma_same_sign_scaled(other.signed_magnitude(), self.signed_magnitude(), other.magnitude as int,
                    self.magnitude as int, pa@ as int, pow10(d as nat) as int, self.negative);
            }
            magnitude_scaled_eq(other.magnitude, self.magnitude, d)
        }
    }

    /// The decimal with these parts, if they are those of a decimal.
    pub fn from_parts(negative: bool, magnitude: u128, scale: u32) -> (r: Option<DomainDecimal>)
        ensures
            r is Some <==> parts_fit((negative, magnitude, scale)),
            r matches Some(d) ==> d.parts() == (negative, magnitude, scale),
    {
        if magnitude < MAGNITUDE_BOUND && scale <= MAX_SCALE {
            Some(DomainDecimal { negative, magnitude, scale })
        } else {
            None
        }
    }

    /// A signed integer, with scale zero.
    pub fn from_i64(v: i64) -> (r: DomainDecimal)
        ensures
            r.wf(),
            r.negative == (v < 0),
            r.magnitude == (if v < 0 { -v } else { v as int }),
            r.scale == 0,
    {
        let magnitude: u128 = if v < 0 { (0i128 - v as i128) as u128 } else { v as u128 };
        DomainDecimal { negative: v < 0, magnitude, scale: 0 }
    }

    /// An unsigned integer, with scale zero.
    pub fn from_u64(v: u64) -> (r: DomainDecimal)
        ensures
            r.wf(),
            r.parts() == (false, v as u128, 0u32),
    {
        DomainDecimal { negative: false, magnitude: v as u128, scale: 0 }
    }

    /// Parses a decimal text exactly (`Decimal::from_str_exact`): a text with
    /// more digits after the point than a decimal holds is refused rather
    /// than rounded. The error is the parser's message.
    pub fn from_text_exact(text: &str) -> (r: Result<DomainDecimal, String>)
        ensures
            match decimal_text_exact(text@) {
                Ok(p) => r matches Ok(d) && d.wf() && d.parts() == p,
                Err(e) => r matches Err(m) && m@ == e,
            },
    {
        match decimal_parse_exact(text) {
            Ok((negative, magnitude, scale)) => Ok(DomainDecimal { negative, magnitude, scale }),
            Err(e) => Err(e),
        }
    }

    /// Parses a decimal text (`<Decimal as FromStr>::from_str`), rounding
    /// away digits past the 28th after the point. The error is the parser's
    /// message.
    pub fn from_text(text: &str) -> (r: Result<DomainDecimal, String>)
        ensures
            match decimal_text_rounded(text@) {
                Ok(p) => r matches Ok(d) && d.wf() && d.parts() == p,
                Err(e) => r matches Err(m) && m@ == e,
            },
    {
        match decimal_parse(text) {
            Ok((negative, magnitude, scale)) => Ok(DomainDecimal { negative, magnitude, scale }),
            Err(e) => Err(e),
        }
    }

    /// Reads the bytes of a NUMERIC column. The error is the decoder's
    /// message.
    pub fn from_numeric_sql(raw: &[u8]) -> (r: Result<DomainDecimal, String>)
        ensures
            match numeric_decoded(raw@) {
                Ok(p) => r matches Ok(d) && d.wf() && d.parts() == p,
                Err(e) => r matches Err(m) && m@ == e,
            },
    {
        match numeric_decode(raw) {
            Ok((negative, magnitude, scale)) => Ok(DomainDecimal { negative, magnitude, scale }),
            Err(e) => Err(e),
        }
    }

    /// The bytes of this value as a NUMERIC column.
    pub fn to_numeric_sql(&self) -> (r: Vec<u8>)
        requires
            self.wf(),
        ensures
            r@ == numeric_encoding(self.negative, self.magnitude, self.scale),
    {
        numeric_encode(self.negative, self.magnitude, self.scale)
    }

    /// The text of this value, as `rust_decimal` writes it.
    pub fn to_text(&self) -> (r: String)
        requires
            self.wf(),
        ensures
            r@ == decimal_display(self.negative, self.magnitude as nat, self.scale as nat),
    {
        decimal_display_text(self.negative, self.magnitude, self.scale)
    }
}

impl PartialEq for DomainDecimal {
    fn eq(&self, other: &DomainDecimal) -> (r: bool) {
        self.same_value_as(other)
    }
}

impl PartialEqSpecImpl for DomainDecimal {
    open spec fn obeys_eq_spec() -> bool {
        true
    }

    open spec fn eq_spec(&self, other: &DomainDecimal) -> bool {
        self.same_value(*other)
    }
}

impl Eq for DomainDecimal {
}

impl Default for DomainDecimal {
    /// Zero.
    fn default() -> (r: DomainDecimal)
        ensures
            r.wf(),
            r.parts() == (false, 0u128, 0u32),
    {
        DomainDecimal { negative: false, magnitude: 0, scale: 0 }
    }
}

} // verus!
