//! Public keys of network participants.
//!
//! A participant (payer, payee or intermediary) is identified by an opaque
//! fixed-length key. Operators write a key as a hexadecimal string; the
//! parser here turns such a string into the binary key and rejects every
//! other input.

use vstd::prelude::*;

verus! {

/// Length in bytes of a participant's public key.
pub const PUBLIC_KEY_LEN: usize = 32;

/// An opaque fixed-length identifier of a network participant.
///
/// Keys are only ever compared for equality; no ordering is attached to
/// them.
#[derive(Clone, Debug, PartialEq, Eq)]
pub struct PublicKey {
    pub bytes: Vec<u8>,
}

impl View for PublicKey {
    type V = Seq<u8>;

    open spec fn view(&self) -> Seq<u8> {
        self.bytes@
    }
}

impl PublicKey {
    /// A key is well formed when it has exactly `PUBLIC_KEY_LEN` bytes.
    pub open spec fn wf(&self) -> bool {
        self@.len() == PUBLIC_KEY_LEN
    }
}

/// Whether `b` is the ASCII code of a hexadecimal digit.
pub open spec fn is_hex_digit(b: u8) -> bool {
    (48u8 <= b && b <= 57u8) || (97u8 <= b && b <= 102u8) || (65u8 <= b && b <= 70u8)
}

/// The numeric value of the hexadecimal digit with ASCII code `b`.
pub open spec fn hex_digit_value(b: u8) -> int {
    if 48u8 <= b && b <= 57u8 {
        b - 48u8
    } else if 97u8 <= b && b <= 102u8 {
        b - 97u8 + 10
    } else {
        b - 65u8 + 10
    }
}

/// The key byte encoded by the pair of hexadecimal digits at positions
/// `2 * j` and `2 * j + 1` of `s`.
pub open spec fn decoded_key_byte(s: Seq<u8>, j: int) -> u8 {
    (hex_digit_value(s[2 * j]) * 16 + hex_digit_value(s[2 * j + 1])) as u8
}

/// Whether `s` is a well-formed textual key: exactly two hexadecimal
/// digits per key byte.
pub open spec fn is_valid_key_literal(s: Seq<u8>) -> bool {
    &&& s.len() == 2 * PUBLIC_KEY_LEN
    &&& forall|i: int| 0 <= i < s.len() ==> is_hex_digit(#[trigger] s[i])
}

/// The key denoted by a well-formed textual key `s`.
pub open spec fn decoded_key(s: Seq<u8>) -> Seq<u8> {
    Seq::new(PUBLIC_KEY_LEN as nat, |j: int| decoded_key_byte(s, j))
}

/// The numeric value of the hexadecimal digit `b`, or `None` when `b` is
/// no such digit.
fn hex_digit(b: u8) -> (r: Option<u8>)
    ensures
        match r {
            Some(v) => is_hex_digit(b) && v == hex_digit_value(b),
            None => !is_hex_digit(b),
        },
{
    if 48u8 <= b && b <= 57u8 {
        Some(b - 48u8)
    } else if 97u8 <= b && b <= 102u8 {
        Some(b - 97u8 + 10)
    } else if 65u8 <= b && b <= 70u8 {
        Some(b - 65u8 + 10)
    } else {
        None
    }
}

/// Parse a hexadecimal string into a `PublicKey`.
///
/// Succeeds exactly on strings of `2 * PUBLIC_KEY_LEN` hexadecimal digits
/// and then returns the key they encode; every other input is rejected.
pub fn string_to_public_key(s: &Vec<u8>) -> (r: Option<PublicKey>)
    ensures
        match r {
            Some(pk) => is_valid_key_literal(s@) && pk.wf() && pk@ == decoded_key(s@),
            None => !is_valid_key_literal(s@),
        },
{
    if s.len() != 2 * PUBLIC_KEY_LEN {
        return None;
    }
    let mut bytes: Vec<u8> = Vec::new();
    let mut j: usize = 0;
    while j < PUBLIC_KEY_LEN
        invariant
            s@.len() == 2 * PUBLIC_KEY_LEN,
            j <= PUBLIC_KEY_LEN,
            bytes@.len() == j,
            forall|i: int| 0 <= i < 2 * j ==> is_hex_digit(#[trigger] s@[i]),
            forall|k: int| 0 <= k < j ==> bytes@[k] == decoded_key_byte(s@, k),
        decreases PUBLIC_KEY_LEN - j,
    {
        let hi = match hex_digit(s[2 * j]) {
            Some(v) => v,
            None => {
                return None;
            },
        };
        let lo = match hex_digit(s[2 * j + 1]) {
            Some(v) => v,
            None => {
                return None;
            },
        };
        bytes.push(hi * 16 + lo);
        j += 1;
    }
    proof {
        assert(bytes@ =~= decoded_key(s@));
    }
    Some(PublicKey { bytes })
}

} // verus!
