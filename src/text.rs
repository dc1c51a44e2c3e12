//! The text that the pipeline produces: wallet names, the JSON envelope
//! that carries a signed transaction, and the submission URL of a host.

use vstd::prelude::*;
use vstd::string::StringExecFns;

verus! {

/// The lowercase hex digit of `d` (below 16).
pub open spec fn hex_digit(d: int) -> char {
    seq!['0', '1', '2', '3', '4', '5', '6', '7', '8', '9', 'a', 'b', 'c', 'd', 'e', 'f'][d]
}

/// Two lowercase hex digits per byte, the high half first.
pub open spec fn hex_of(b: Seq<u8>) -> Seq<char> {
    Seq::new(
        2 * b.len(),
        |i: int|
            if i % 2 == 0 {
                hex_digit(b[i / 2] as int / 16)
            } else {
                hex_digit(b[i / 2] as int % 16)
            },
    )
}

/// Relies on hex's `encode`: each byte becomes two lowercase hex digits,
/// the high half first.
#[verifier::external_body]
fn encode_hex(bytes: &[u8]) -> (r: String)
    ensures
        r@ == hex_of(bytes@),
{
    hex::encode(bytes)
}

/// The decimal digit of `d` (below 10).
pub open spec fn decimal_digit(d: nat) -> char {
    seq!['0', '1', '2', '3', '4', '5', '6', '7', '8', '9'][d as int]
}

/// The decimal notation of `n`, without leading zeros.
pub open spec fn decimal(n: nat) -> Seq<char>
    decreases n,
{
    if n < 10 {
        seq![decimal_digit(n)]
    } else {
        decimal(n / 10) + seq![decimal_digit(n % 10)]
    }
}

fn digit_text(d: u128) -> (r: &'static str)
    requires
        d < 10,
    ensures
        r@ == seq![decimal_digit(d as nat)],
{
    proof {
        reveal_strlit("0");
        reveal_strlit("1");
        reveal_strlit("2");
        reveal_strlit("3");
        reveal_strlit("4");
        reveal_strlit("5");
        reveal_strlit("6");
        reveal_strlit("7");
        reveal_strlit("8");
        reveal_strlit("9");
    }
    if d == 0 {
        "0"
    } else if d == 1 {
        "1"
    } else if d == 2 {
        "2"
    } else if d == 3 {
        "3"
    } else if d == 4 {
        "4"
    } else if d == 5 {
        "5"
    } else if d == 6 {
        "6"
    } else if d == 7 {
        "7"
    } else if d == 8 {
        "8"
    } else {
        "9"
    }
}

/// The decimal notation of `n`.
pub fn decimal_string(n: u128) -> (r: String)
    ensures
        r@ == decimal(n as nat),
    decreases n,
{
    if n < 10 {
        String::from_str(digit_text(n))
    } else {
        let mut s = decimal_string(n / 10);
        s.append(digit_text(n % 10));
        s
    }
}

/// The name of a new wallet: the text of its public key, an underscore and
/// a nanosecond reading that keeps names apart across runs on equal seeds.
pub fn wallet_name(public_key: &str, nanos: u128) -> (r: String)
    ensures
        r@ == public_key@ + seq!['_'] + decimal(nanos as nat),
{
    proof {
        reveal_strlit("_");
    }
    let mut s = String::from_str(public_key);
    s.append("_");
    let digits = decimal_string(nanos);
    s.append(digits.as_str());
    s
}

/// The JSON document that carries the serialized transaction `b` to a host:
/// `{"tx_body":"<hex of b>"}`.
pub open spec fn envelope_text(b: Seq<u8>) -> Seq<char> {
    seq!['{', '"', 't', 'x', '_', 'b', 'o', 'd', 'y', '"', ':', '"'] + hex_of(b) + seq!['"', '}']
}

/// Wraps the bytes of a signed transaction into the JSON envelope that is
/// posted to a host.
pub fn envelope(tx_bytes: &[u8]) -> (r: String)
    ensures
        r@ == envelope_text(tx_bytes@),
{
    proof {
        reveal_strlit("{\"tx_body\":\"");
        reveal_strlit("\"}");
    }
    let mut s = String::from_str("{\"tx_body\":\"");
    let body = encode_hex(tx_bytes);
    s.append(body.as_str());
    s.append("\"}");
    s
}

/// The URL that transactions are posted to on `host` (`host:port`).
pub open spec fn submission_url_text(host: Seq<char>) -> Seq<char> {
    seq!['h', 't', 't', 'p', ':', '/', '/'] + host + seq![
        '/', 'a', 'p', 'i', '/', 'e', 'x', 'p', 'l', 'o', 'r', 'e', 'r', '/', 'v', '1', '/',
        't', 'r', 'a', 'n', 's', 'a', 'c', 't', 'i', 'o', 'n', 's',
    ]
}

pub fn submission_url(host: &str) -> (r: String)
    ensures
        r@ == submission_url_text(host@),
{
    proof {
        reveal_strlit("http://");
        reveal_strlit("/api/explorer/v1/transactions");
    }
    let mut s = String::from_str("http://");
    s.append(host);
    s.append("/api/explorer/v1/transactions");
    s
}

} // verus!
