//! The owner record and its text form `address|node_id`.

use vstd::prelude::*;
use vstd::string::StrSliceExecFns;
use vstd::utf8::{decode_utf8, encode_utf8, encode_utf8_decode_utf8, valid_utf8};

verus! {

/// The character that separates the address from the node id.
pub open spec fn separator() -> char {
    '|'
}

/// The character of a decimal digit `d < 10`.
pub open spec fn digit_char(d: nat) -> char {
    ((d + 48) as u32) as char
}

/// The decimal form of `n`, most significant digit first, without leading zeros.
pub open spec fn decimal(n: nat) -> Seq<char>
    decreases n,
{
    if n < 10 {
        seq![digit_char(n)]
    } else {
        decimal(n / 10) + seq![digit_char(n % 10)]
    }
}

/// The address of a node: the host that the transport observed, a colon, and the port.
pub open spec fn address_of(host: Seq<char>, port: u16) -> Seq<char> {
    host + seq![':'] + decimal(port as nat)
}

fn digit_text(d: u16) -> (r: &'static str)
    requires
        d < 10,
    ensures
        r@ == seq![digit_char(d as nat)],
{
    match d {
        0 => {
            proof {
                reveal_strlit("0");
            }
            "0"
        },
        1 => {
            proof {
                reveal_strlit("1");
            }
            "1"
        },
        2 => {
            proof {
                reveal_strlit("2");
            }
            "2"
        },
        3 => {
            proof {
                reveal_strlit("3");
            }
            "3"
        },
        4 => {
            proof {
                reveal_strlit("4");
            }
            "4"
        },
        5 => {
            proof {
                reveal_strlit("5");
            }
            "5"
        },
        6 => {
            proof {
                reveal_strlit("6");
            }
            "6"
        },
        7 => {
            proof {
                reveal_strlit("7");
            }
            "7"
        },
        8 => {
            proof {
                reveal_strlit("8");
            }
            "8"
        },
        _ => {
            proof {
                reveal_strlit("9");
            }
            "9"
        },
    }
}

/// Decimal digits of `n`.
pub fn decimal_text(n: u16) -> (r: String)
    ensures
        r@ == decimal(n as nat),
{
    let mut s = String::new();
    push_decimal(&mut s, n);
    s
}

fn push_decimal(s: &mut String, n: u16)
    ensures
        final(s)@ == old(s)@ + decimal(n as nat),
    decreases n,
{
    if n >= 10 {
        push_decimal(s, n / 10);
    }
    s.append(digit_text(n % 10));
    assert(final(s)@ =~= old(s)@ + decimal(n as nat));
}

/// Formats the address `host:port` under which a registering node is reached.
pub fn format_address(host: &str, port: u16) -> (r: String)
    ensures
        r@ == address_of(host@, port),
{
    let mut s = String::from_str(host);
    proof {
        reveal_strlit(":");
    }
    s.append(":");
    let digits = decimal_text(port);
    s.append(digits.as_str());
    assert(s@ =~= address_of(host@, port));
    s
}

/// An owner record: where the node that owns a topic is reached, and which node it is.
pub struct OwnerRecord {
    pub address: String,
    pub node_id: String,
}

/// The text form of a record.
pub open spec fn record_text(address: Seq<char>, node_id: Seq<char>) -> Seq<char> {
    address + seq![separator()] + node_id
}

/// `s` holds the separator at index `p` and nowhere else.
pub open spec fn sole_separator_at(s: Seq<char>, p: int) -> bool {
    &&& 0 <= p < s.len()
    &&& s[p] == separator()
    &&& forall|i: int| 0 <= i < s.len() && i != p ==> s[i] != separator()
}

/// The address and node id that a record's text holds: the parts before and
/// after its one separator. Text with no separator, or with more than one, holds none.
pub open spec fn parsed(s: Seq<char>) -> Option<(Seq<char>, Seq<char>)> {
    if exists|p: int| sole_separator_at(s, p) {
        let p = choose|p: int| sole_separator_at(s, p);
        Some((s.subrange(0, p), s.subrange(p + 1, s.len() as int)))
    } else {
        None
    }
}

impl OwnerRecord {
    pub open spec fn view_pair(&self) -> (Seq<char>, Seq<char>) {
        (self.address@, self.node_id@)
    }
}

/// Splits a record's text at its one separator.
pub fn parse_record(s: &str) -> (r: Option<OwnerRecord>)
    ensures
        r is Some <==> parsed(s@) is Some,
        r matches Some(rec) ==> parsed(s@) == Some(rec.view_pair()),
{
    let n = s.unicode_len();
    let mut count: usize = 0;
    let mut pos: usize = 0;
    let mut i: usize = 0;
    while i < n
        invariant
            n == s@.len(),
            i <= n,
            count <= 1,
            count == 0 ==> forall|j: int| 0 <= j < i ==> s@[j] != separator(),
            count == 1 ==> pos < i && sole_separator_at(s@.subrange(0, i as int), pos as int),
        decreases n - i,
    {
        let c = s.get_char(i);
        if c == '|' {
            if count == 1 {
                assert(!sole_separator_at(s@, pos as int));
                assert(s@[pos as int] == separator());
                assert forall|p: int| !sole_separator_at(s@, p) by {
                    if p != pos as int {
                        assert(s@.subrange(0, i as int)[pos as int] == separator());
                    }
                }
                return None;
            }
            count = 1;
            pos = i;
        }
        i += 1;
        assert(s@.subrange(0, i as int).subrange(0, i - 1) =~= s@.subrange(0, i - 1));
    }
    if count == 0 {
        assert forall|p: int| !sole_separator_at(s@, p) by {
            if 0 <= p < s@.len() {
                assert(s@[p] != separator());
            }
        }
        return None;
    }
    assert(s@.subrange(0, n as int) =~= s@);
    assert(sole_separator_at(s@, pos as int));
    let address = String::from_str(s.substring_char(0, pos));
    let node_id = String::from_str(s.substring_char(pos + 1, n));
    Some(OwnerRecord { address, node_id })
}

/// The bytes that the store holds for a record: its text in UTF-8.
pub open spec fn record_bytes(address: Seq<char>, node_id: Seq<char>) -> Seq<u8> {
    encode_utf8(record_text(address, node_id))
}

/// The address and node id that stored bytes hold, if they are UTF-8 text
/// with exactly one separator.
pub open spec fn decoded_record(bytes: Seq<u8>) -> Option<(Seq<char>, Seq<char>)> {
    if valid_utf8(bytes) {
        parsed(decode_utf8(bytes))
    } else {
        None
    }
}

/// Encodes a record as the bytes of `address|node_id`.
pub fn encode_record(address: &str, node_id: &str) -> (r: Vec<u8>)
    ensures
        r@ == record_bytes(address@, node_id@),
{
    let mut text = String::from_str(address);
    proof {
        reveal_strlit("|");
    }
    text.append("|");
    text.append(node_id);
    assert(text@ =~= record_text(address@, node_id@));
    text.as_str().as_bytes_vec()
}

/// Relies on `String::from_utf8`: it succeeds exactly when the bytes are valid
/// UTF-8, and the string it gives holds those bytes.
#[verifier::external_body]
fn to_string(bytes: Vec<u8>) -> (r: Option<String>)
    ensures
        r is Some <==> valid_utf8(bytes@),
        r matches Some(s) ==> encode_utf8(s@) == bytes@,
{
    match String::from_utf8(bytes) {
        Ok(s) => Some(s),
        Err(_) => None,
    }
}

/// Reads stored bytes as UTF-8 text, if they are, else `None`.
pub fn utf8_text(bytes: Vec<u8>) -> (r: Option<String>)
    ensures
        r is Some <==> valid_utf8(bytes@),
        r matches Some(s) ==> s@ == decode_utf8(bytes@),
{
    let r = to_string(bytes);
    if let Some(s) = &r {
        proof {
            encode_utf8_decode_utf8(s@);
        }
    }
    r
}

/// Decodes the bytes of a stored record.
pub fn decode_record(bytes: Vec<u8>) -> (r: Option<OwnerRecord>)
    ensures
        r is Some <==> decoded_record(bytes@) is Some,
        r matches Some(rec) ==> decoded_record(bytes@) == Some(rec.view_pair()),
{
    match utf8_text(bytes) {
        Some(text) => parse_record(text.as_str()),
        None => None,
    }
}

} // verus!
