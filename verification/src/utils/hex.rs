//! Lowercase hexadecimal encoding and decoding.
//!
//! Challenges, tags and proof-of-work solutions travel over the wire as
//! lowercase hex strings; this module gives the codec an exact
//! specification so the rest of the crate can reason about it.

use vstd::prelude::*;

verus! {

/// A lowercase hex digit: `'0'..='9'` or `'a'..='f'`.
pub open spec fn is_hex_digit(c: char) -> bool {
    (48 <= c as u32 && c as u32 <= 57) || (97 <= c as u32 && c as u32 <= 102)
}

/// Numeric value of a lowercase hex digit.
pub open spec fn hex_digit_val(c: char) -> u8
    recommends
        is_hex_digit(c),
{
    if 48 <= c as u32 && c as u32 <= 57 {
        (c as u32 - 48) as u8
    } else {
        (c as u32 - 87) as u8
    }
}

/// A well-formed lowercase hex string: even length, hex digits only.
pub open spec fn is_hex_seq(s: Seq<char>) -> bool {
    s.len() % 2 == 0 && (forall|i: int| 0 <= i < s.len() ==> is_hex_digit(#[trigger] s[i]))
}

/// The bytes denoted by a hex string, two digits per byte.
pub open spec fn hex_decode_spec(s: Seq<char>) -> Seq<u8>
    decreases s.len(),
{
    if s.len() < 2 {
        Seq::empty()
    } else {
        seq![(hex_digit_val(s[0]) as int * 16 + hex_digit_val(s[1]) as int) as u8]
            + hex_decode_spec(s.skip(2))
    }
}

/// The lowercase hex digit for a value below 16.
pub open spec fn hex_char(v: u8) -> char
    recommends
        v < 16,
{
    if v == 0 {
        '0'
    } else if v == 1 {
        '1'
    } else if v == 2 {
        '2'
    } else if v == 3 {
        '3'
    } else if v == 4 {
        '4'
    } else if v == 5 {
        '5'
    } else if v == 6 {
        '6'
    } else if v == 7 {
        '7'
    } else if v == 8 {
        '8'
    } else if v == 9 {
        '9'
    } else if v == 10 {
        'a'
    } else if v == 11 {
        'b'
    } else if v == 12 {
        'c'
    } else if v == 13 {
        'd'
    } else if v == 14 {
        'e'
    } else {
        'f'
    }
}

/// The lowercase hex encoding of a byte string, two digits per byte.
pub open spec fn hex_encode_spec(b: Seq<u8>) -> Seq<char>
    decreases b.len(),
{
    if b.len() == 0 {
        Seq::empty()
    } else {
        seq![hex_char(b[0] / 16), hex_char(b[0] % 16)] + hex_encode_spec(b.drop_first())
    }
}

/// Relies on `String::push`: appends exactly one character to the end.
#[verifier::external_body]
fn string_push(s: &mut String, c: char)
    ensures
        final(s)@ == old(s)@.push(c),
{
    s.push(c);
}

/// The numeric value of a character if it is a lowercase hex digit.
fn hex_val(c: char) -> (r: Option<u8>)
    ensures
        r is Some <==> is_hex_digit(c),
        r matches Some(v) ==> v == hex_digit_val(c) && v < 16,
{
    let u = c as u32;
    if 48 <= u && u <= 57 {
        Some((u - 48) as u8)
    } else if 97 <= u && u <= 102 {
        Some((u - 87) as u8)
    } else {
        None
    }
}

/// Decodes a lowercase hex string, or returns `None` when the input is
/// not a well-formed hex string (odd length or a non-hex character).
pub fn hex_decode(s: &str) -> (r: Option<Vec<u8>>)
    ensures
        r is Some <==> is_hex_seq(s@),
        r matches Some(v) ==> v@ == hex_decode_spec(s@),
{
    let n = s.unicode_len();
    if n % 2 != 0 {
        return None;
    }
    let mut out: Vec<u8> = Vec::new();
    let mut i: usize = 0;
    proof {
        assert(s@.skip(0) =~= s@);
        assert(out@ + hex_decode_spec(s@) =~= hex_decode_spec(s@));
    }
    while i < n
        invariant
            i % 2 == 0,
            i <= n,
            n == s@.len(),
            n % 2 == 0,
            forall|j: int| 0 <= j < i ==> is_hex_digit(#[trigger] s@[j]),
            out@ + hex_decode_spec(s@.skip(i as int)) == hex_decode_spec(s@),
            out@.len() * 2 == i,
        decreases n - i,
    {
        let c1 = s.get_char(i);
        let c2 = s.get_char(i + 1);
        let v1 = match hex_val(c1) {
            Some(v) => v,
            None => {
                return None;
            },
        };
        let v2 = match hex_val(c2) {
            Some(v) => v,
            None => {
                return None;
            },
        };
        proof {
            let t = s@.skip(i as int);
            assert(t.len() >= 2);
            assert(t[0] == s@[i as int]);
            assert(t[1] == s@[i as int + 1]);
            assert(t.skip(2) =~= s@.skip(i as int + 2));
        }
        out.push(v1 * 16 + v2);
        i = i + 2;
    }
    proof {
        assert(s@.skip(n as int) =~= Seq::empty());
        assert(out@ =~= hex_decode_spec(s@));
    }
    Some(out)
}

/// The lowercase hex digit for a value below 16, as a character.
fn hex_char_of(v: u8) -> (c: char)
    requires
        v < 16,
    ensures
        c == hex_char(v),
{
    if v == 0 {
        '0'
    } else if v == 1 {
        '1'
    } else if v == 2 {
        '2'
    } else if v == 3 {
        '3'
    } else if v == 4 {
        '4'
    } else if v == 5 {
        '5'
    } else if v == 6 {
        '6'
    } else if v == 7 {
        '7'
    } else if v == 8 {
        '8'
    } else if v == 9 {
        '9'
    } else if v == 10 {
        'a'
    } else if v == 11 {
        'b'
    } else if v == 12 {
        'c'
    } else if v == 13 {
        'd'
    } else if v == 14 {
        'e'
    } else {
        'f'
    }
}

/// Encodes bytes as a lowercase hex string, two digits per byte.
pub fn hex_encode(b: &Vec<u8>) -> (r: String)
    ensures
        r@ == hex_encode_spec(b@),
        r@.len() == 2 * b@.len(),
{
    let mut r = String::new();
    let n = b.len();
    let mut i: usize = 0;
    proof {
        assert(b@.skip(0) =~= b@);
        assert(r@ + hex_encode_spec(b@) =~= hex_encode_spec(b@));
    }
    while i < n
        invariant
            i <= n,
            n == b@.len(),
            r@ + hex_encode_spec(b@.skip(i as int)) == hex_encode_spec(b@),
            r@.len() == 2 * i,
        decreases n - i,
    {
        let byte = b[i];
        let c1 = hex_char_of(byte / 16);
        let c2 = hex_char_of(byte % 16);
        proof {
            let t = b@.skip(i as int);
            assert(t.len() >= 1);
            assert(t[0] == b@[i as int]);
            assert(t.drop_first() =~= b@.skip(i as int + 1));
        }
        string_push(&mut r, c1);
        string_push(&mut r, c2);
        i = i + 1;
    }
    proof {
        assert(b@.skip(n as int) =~= Seq::empty());
        assert(r@ =~= hex_encode_spec(b@));
    }
    r
}

/// A hex digit produced by `hex_char` decodes back to its value.
proof fn lemma_hex_char_val(v: u8)
    requires
        v < 16,
    ensures
        is_hex_digit(hex_char(v)),
        hex_digit_val(hex_char(v)) == v,
{
}

/// Law: hex encoding always yields a well-formed hex string of twice the
/// length, and decoding it gives the same bytes back.
pub proof fn lemma_hex_round_trip(b: Seq<u8>)
    ensures
        is_hex_seq(hex_encode_spec(b)),
        hex_encode_spec(b).len() == 2 * b.len(),
        hex_decode_spec(hex_encode_spec(b)) == b,
    decreases b.len(),
{
    let e = hex_encode_spec(b);
    if b.len() == 0 {
        assert(hex_decode_spec(e) =~= b);
    } else {
        let rest = b.drop_first();
        lemma_hex_round_trip(rest);
        let b0 = b[0];
        lemma_hex_char_val(b0 / 16);
        lemma_hex_char_val(b0 % 16);
        let re = hex_encode_spec(rest);
        assert(e == seq![hex_char(b0 / 16), hex_char(b0 % 16)] + re);
        assert forall|i: int| 0 <= i < e.len() implies is_hex_digit(#[trigger] e[i]) by {
            if i >= 2 {
                assert(e[i] == re[i - 2]);
            }
        }
        assert(e.skip(2) =~= re);
        assert(hex_decode_spec(e) =~= seq![b0] + hex_decode_spec(re));
        assert(seq![b0] + rest =~= b);
    }
}

} // verus!
