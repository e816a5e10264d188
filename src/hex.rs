use vstd::prelude::*;
use vstd::string::StringExecFns;

verus! {

/// The lowercase hex digit of `d < 16`.
pub open spec fn hex_digit(d: int) -> char {
    if d == 0 { '0' } else if d == 1 { '1' } else if d == 2 { '2' } else if d == 3 { '3' }
    else if d == 4 { '4' } else if d == 5 { '5' } else if d == 6 { '6' } else if d == 7 { '7' }
    else if d == 8 { '8' } else if d == 9 { '9' } else if d == 10 { 'a' } else if d == 11 { 'b' }
    else if d == 12 { 'c' } else if d == 13 { 'd' } else if d == 14 { 'e' } else { 'f' }
}

/// The value of a hex digit of either case.
pub open spec fn hex_value(c: char) -> Option<int> {
    if '0' <= c && c <= '9' {
        Some(c as int - '0' as int)
    } else if 'a' <= c && c <= 'f' {
        Some(c as int - 'a' as int + 10)
    } else if 'A' <= c && c <= 'F' {
        Some(c as int - 'A' as int + 10)
    } else {
        None
    }
}

/// A string without its `0x` or `0X` prefix, if it has one.
pub open spec fn strip_hex_prefix(s: Seq<char>) -> Seq<char> {
    if s.len() >= 2 && s[0] == '0' && (s[1] == 'x' || s[1] == 'X') { s.subrange(2, s.len() as int) } else { s }
}

/// The bytes of a hex string: an optional `0x` or `0X`, then pairs of hex
/// digits of either case; none for an odd length or any other character.
pub open spec fn spec_hex_decode(s: Seq<char>) -> Option<Seq<u8>> {
    let t = strip_hex_prefix(s);
    if s.len() % 2 == 0 && forall|i: int| 0 <= i < t.len() ==> #[trigger] hex_value(t[i]) is Some {
        Some(Seq::new((t.len() / 2) as nat, |k: int| (hex_value(t[2 * k])->Some_0 * 16 + hex_value(t[2 * k + 1])->Some_0) as u8))
    } else {
        None
    }
}

/// Bytes in lowercase hex, two digits each, most significant digit first.
pub open spec fn spec_hex(b: Seq<u8>) -> Seq<char> {
    Seq::new(2 * b.len(), |i: int| if i % 2 == 0 { hex_digit(b[i / 2] as int / 16) } else { hex_digit(b[i / 2] as int % 16) })
}

/// The text of the error that const-hex's `decode` gives for a string.
pub uninterp spec fn hex_decode_error_of(s: Seq<char>) -> Seq<char>;

/// Relies on `alloy_primitives::hex::encode` (const-hex): two lowercase hex
/// digits per byte.
#[verifier::external_body]
fn hex_encode(value: &[u8]) -> (r: String)
    ensures
        r@ == spec_hex(value@),
{
    alloy_primitives::hex::encode(value)
}

/// Relies on `alloy_primitives::hex::decode` (const-hex): an odd length is an
/// error, a leading `0x` or `0X` is dropped, then each pair of hex digits of
/// either case gives a byte and any other character is an error.
#[verifier::external_body]
fn hex_decode(s: &str) -> (r: Result<Vec<u8>, String>)
    ensures
        match r {
            Ok(v) => spec_hex_decode(s@) == Some(v@),
            Err(text) => spec_hex_decode(s@) is None && text@ == hex_decode_error_of(s@),
        },
{
    alloy_primitives::hex::decode(s).map_err(|e| e.to_string())
}

/// Relies on std's `str::strip_prefix`: the rest of `s` when it starts with `p`.
#[verifier::external_body]
fn strip_prefix<'a>(s: &'a str, p: &str) -> (r: Option<&'a str>)
    ensures
        match r {
            Some(rest) => p@.is_prefix_of(s@) && rest@ == s@.subrange(p@.len() as int, s@.len() as int),
            None => !p@.is_prefix_of(s@),
        },
{
    s.strip_prefix(p)
}

/// The prefix written before hex-encoded bytes.
pub trait Prefix {
    spec fn prefix_spec() -> Seq<char>;

    fn prefix() -> (r: &'static str)
        ensures
            r@ == Self::prefix_spec();
}

/// The `0x` prefix.
pub struct ZeroxPrefix;

impl Prefix for ZeroxPrefix {
    open spec fn prefix_spec() -> Seq<char> {
        "0x"@
    }

    fn prefix() -> (r: &'static str) {
        "0x"
    }
}

/// The message for a string without the prefix.
pub open spec fn missing_prefix_message(prefix: Seq<char>) -> Seq<char> {
    "string value missing prefix: \""@ + prefix + "\""@
}

/// Bytes written as a prefixed hex string.
pub struct BytesToHexSerde<P> {
    _marker: core::marker::PhantomData<P>,
}

impl<P: Prefix> BytesToHexSerde<P> {
    /// The prefix followed by the bytes in lowercase hex.
    pub fn encode(value: &[u8]) -> (r: String)
        ensures
            r@ == P::prefix_spec() + spec_hex(value@),
    {
        let mut s = String::from_str(P::prefix());
        s.append(hex_encode(value).as_str());
        s
    }

    /// The bytes of a prefixed hex string; without the prefix, a message that
    /// names it.
    pub fn decode(s: &str) -> (r: Result<Vec<u8>, String>)
        ensures
            !P::prefix_spec().is_prefix_of(s@) ==> r is Err && r->Err_0@ == missing_prefix_message(P::prefix_spec()),
            P::prefix_spec().is_prefix_of(s@) ==> ({
                let rest = s@.subrange(P::prefix_spec().len() as int, s@.len() as int);
                match spec_hex_decode(rest) {
                    Some(v) => r is Ok && r->Ok_0@ == v,
                    None => r is Err && r->Err_0@ == hex_decode_error_of(rest),
                }
            }),
    {
        match strip_prefix(s, P::prefix()) {
            Some(rest) => hex_decode(rest),
            None => {
                let mut m = String::from_str("string value missing prefix: \"");
                m.append(P::prefix());
                m.append("\"");
                Err(m)
            },
        }
    }
}

proof fn lemma_hex_value_of_digit(d: int)
    requires
        0 <= d < 16,
    ensures
        hex_value(hex_digit(d)) == Some(d),
{
}

/// Decoding hex that was encoded gives the bytes back.
pub proof fn lemma_hex_round_trip(b: Seq<u8>)
    ensures
        spec_hex_decode(spec_hex(b)) == Some(b),
{
    let t = spec_hex(b);
    assert forall|i: int| 0 <= i < t.len() implies #[trigger] hex_value(t[i]) is Some by {
        lemma_hex_value_of_digit(b[i / 2] as int / 16);
        lemma_hex_value_of_digit(b[i / 2] as int % 16);
    }
    if t.len() >= 2 {
        lemma_hex_value_of_digit(b[0] as int % 16);
        assert(t[1] != 'x' && t[1] != 'X');
    }
    assert(strip_hex_prefix(t) == t);
    let d = spec_hex_decode(t)->Some_0;
    assert forall|k: int| 0 <= k < b.len() implies #[trigger] d[k] == b[k] by {
        assert((2 * k) / 2 == k);
        assert((2 * k + 1) / 2 == k);
        lemma_hex_value_of_digit(b[k] as int / 16);
        lemma_hex_value_of_digit(b[k] as int % 16);
        assert(b[k] as int / 16 * 16 + b[k] as int % 16 == b[k] as int);
    }
    assert(d =~= b);
}

/// What `BytesToHexSerde::<P>::encode` writes, `decode` reads back: the
/// prefix is found, and the rest decodes to the bytes.
pub proof fn lemma_prefixed_hex_round_trip<P: Prefix>(b: Seq<u8>)
    ensures
        P::prefix_spec().is_prefix_of(P::prefix_spec() + spec_hex(b)),
        spec_hex_decode((P::prefix_spec() + spec_hex(b)).subrange(
            P::prefix_spec().len() as int,
            (P::prefix_spec() + spec_hex(b)).len() as int,
        )) == Some(b),
{
    let s = P::prefix_spec() + spec_hex(b);
    assert(s.subrange(0, P::prefix_spec().len() as int) =~= P::prefix_spec());
    assert(s.subrange(P::prefix_spec().len() as int, s.len() as int) =~= spec_hex(b));
    lemma_hex_round_trip(b);
}

} // verus!
