use vstd::prelude::*;
use vstd::string::StringExecFns;

verus! {

/// The largest chain id: `2^53 - 1` is the largest integer that JavaScript
/// holds safely, and `2 * id + 36` has to stay below it.
pub const MAX_L2_CHAIN_ID: u64 = 4503599627370477;

/// The decimal digit character of `d < 10`.
pub open spec fn digit_char(d: nat) -> char {
    if d == 0 { '0' } else if d == 1 { '1' } else if d == 2 { '2' } else if d == 3 { '3' }
    else if d == 4 { '4' } else if d == 5 { '5' } else if d == 6 { '6' } else if d == 7 { '7' }
    else if d == 8 { '8' } else { '9' }
}

/// A number written in decimal, without leading zeros.
pub open spec fn spec_decimal(n: nat) -> Seq<char>
    decreases n,
{
    if n < 10 {
        seq![digit_char(n)]
    } else {
        spec_decimal(n / 10).push(digit_char(n % 10))
    }
}

/// The value of a string of decimal digits in which `_` may stand anywhere and
/// counts for nothing; none for any other character. The empty string is zero.
pub open spec fn spec_decimal_value(s: Seq<char>) -> Option<nat>
    decreases s.len(),
{
    if s.len() == 0 {
        Some(0nat)
    } else {
        let c = s.last();
        match spec_decimal_value(s.drop_last()) {
            None => None,
            Some(v) => if c == '_' {
                Some(v)
            } else if '0' <= c && c <= '9' {
                Some(v * 10 + (c as nat - '0' as nat) as nat)
            } else {
                None
            },
        }
    }
}

/// The decimal value of a string when it fits in 64 bits.
pub open spec fn spec_parse_decimal(s: Seq<char>) -> Option<u64> {
    match spec_decimal_value(s) {
        Some(v) => if v <= u64::MAX { Some(v as u64) } else { None },
        None => None,
    }
}

/// What ruint's `FromStr` for a 64-bit integer gives for a string: the value,
/// or the text of its error. A `0x`, `0o` or `0b` prefix selects the radix.
pub uninterp spec fn prefixed_parse_of(s: Seq<char>) -> Result<u64, Seq<char>>;

/// Relies on `alloy_primitives::U64::from_str_radix` with radix 10: decimal
/// digits and `_`, an error on any other character or on overflow.
#[verifier::external_body]
fn parse_u64_decimal(s: &str) -> (r: Option<u64>)
    ensures
        r == spec_parse_decimal(s@),
{
    alloy_primitives::U64::from_str_radix(s, 10).ok().map(|u| u.to::<u64>())
}

/// Relies on `<alloy_primitives::U64 as FromStr>::from_str`: the value, or the
/// text of the parse error.
#[verifier::external_body]
fn parse_u64_prefixed(s: &str) -> (r: Result<u64, String>)
    ensures
        match r {
            Ok(v) => prefixed_parse_of(s@) == Ok::<u64, Seq<char>>(v),
            Err(text) => prefixed_parse_of(s@) == Err::<u64, Seq<char>>(text@),
        },
{
    s.parse::<alloy_primitives::U64>().map(|u| u.to::<u64>()).map_err(|err| err.to_string())
}

/// Relies on std's `Display` for `u64`: the number in decimal.
#[verifier::external_body]
fn decimal_string(v: u64) -> (r: String)
    ensures
        r@ == spec_decimal(v as nat),
{
    v.to_string()
}

/// The id of an L2 chain, at most `MAX_L2_CHAIN_ID`.
#[derive(Clone, Copy, Debug, PartialEq, Eq, Structural, PartialOrd, Ord, Hash)]
pub struct L2ChainId(u64);

/// The message for a parsed number above the largest id.
pub open spec fn too_big_message() -> Seq<char> {
    "Too big chain ID. MAX: "@ + spec_decimal(MAX_L2_CHAIN_ID as nat)
}

/// The message for a string that is no number.
pub open spec fn parse_failure_message(text: Seq<char>) -> Seq<char> {
    "Failed to parse L2ChainId: Err "@ + text
}

/// The message for a number above the largest id given directly.
pub open spec fn conversion_failure_message(val: u64) -> Seq<char> {
    "Cannot convert given value "@ + spec_decimal(val as nat) + " into L2ChainId. It's greater than MAX: "@
        + spec_decimal(MAX_L2_CHAIN_ID as nat) + ","@
}

/// The outcome of parsing a string as a chain id: decimal first, then with a
/// radix prefix.
pub open spec fn spec_chain_id_parse(s: Seq<char>) -> Result<u64, Seq<char>> {
    match spec_parse_decimal(s) {
        Some(v) => Ok(v),
        None => prefixed_parse_of(s),
    }
}

impl L2ChainId {
    pub closed spec fn view(self) -> u64 {
        self.0
    }

    /// The largest chain id.
    pub fn max() -> (r: Self)
        ensures
            r@ == MAX_L2_CHAIN_ID,
    {
        L2ChainId(MAX_L2_CHAIN_ID)
    }

    /// The id as a number.
    pub fn as_u64(&self) -> (r: u64)
        ensures
            r == self@,
    {
        self.0
    }

    /// The id of a 32-bit number, which is never too big.
    pub fn from(value: u32) -> (r: Self)
        ensures
            r@ == value as u64,
    {
        L2ChainId(value as u64)
    }

    /// The id of a number, or a message when it is above the largest id.
    pub fn try_from(val: u64) -> (r: Result<Self, String>)
        ensures
            val <= MAX_L2_CHAIN_ID ==> r is Ok && r->Ok_0@ == val,
            val > MAX_L2_CHAIN_ID ==> r is Err && r->Err_0@ == conversion_failure_message(val),
    {
        if val > MAX_L2_CHAIN_ID {
            let mut m = String::from_str("Cannot convert given value ");
            m.append(decimal_string(val).as_str());
            m.append(" into L2ChainId. It's greater than MAX: ");
            m.append(decimal_string(MAX_L2_CHAIN_ID).as_str());
            m.append(",");
            return Err(m);
        }
        Ok(L2ChainId(val))
    }

    /// The id of an already parsed number, or the message for the parse error
    /// or for a number above the largest id.
    pub fn from_parsed(parsed: Result<u64, String>) -> (r: Result<Self, String>)
        ensures
            match parsed {
                Ok(v) => if v <= MAX_L2_CHAIN_ID {
                    r is Ok && r->Ok_0@ == v
                } else {
                    r is Err && r->Err_0@ == too_big_message()
                },
                Err(text) => r is Err && r->Err_0@ == parse_failure_message(text@),
            },
    {
        match parsed {
            Ok(v) => {
                if v > MAX_L2_CHAIN_ID {
                    let mut m = String::from_str("Too big chain ID. MAX: ");
                    m.append(decimal_string(MAX_L2_CHAIN_ID).as_str());
                    Err(m)
                } else {
                    Ok(L2ChainId(v))
                }
            },
            Err(text) => {
                let mut m = String::from_str("Failed to parse L2ChainId: Err ");
                m.append(text.as_str());
                Err(m)
            },
        }
    }

    /// Parses a chain id written in decimal, or with a `0x`, `0o` or `0b` prefix.
    pub fn from_str(s: &str) -> (r: Result<Self, String>)
        ensures
            match spec_chain_id_parse(s@) {
                Ok(v) => if v <= MAX_L2_CHAIN_ID {
                    r is Ok && r->Ok_0@ == v
                } else {
                    r is Err && r->Err_0@ == too_big_message()
                },
                Err(text) => r is Err && r->Err_0@ == parse_failure_message(text),
            },
    {
        let parsed = match parse_u64_decimal(s) {
            Some(v) => Ok(v),
            None => parse_u64_prefixed(s),
        };
        Self::from_parsed(parsed)
    }
}

impl Default for L2ChainId {
    fn default() -> (r: Self)
        ensures
            r@ == 270,
    {
        L2ChainId(270)
    }
}

} // verus!
