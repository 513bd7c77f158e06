//! Standard base64 (RFC 4648 alphabet, `=` padding), the text form the
//! gateway expects for a submitted envelope.

use vstd::prelude::*;

verus! {

/// The alphabet character for a 6-bit value.
pub open spec fn b64_char(v: u8) -> u8
    recommends
        v < 64,
{
    if v < 26 {
        (v + 65) as u8  // 'A'..'Z'

    } else if v < 52 {
        (v + 71) as u8  // 'a'..'z'

    } else if v < 62 {
        (v - 4) as u8  // '0'..'9'

    } else if v == 62 {
        43u8  // '+'

    } else {
        47u8  // '/'

    }
}

/// The base64 text of `s`: four characters per three bytes, with `=`
/// padding closing a final group of one or two bytes.
pub open spec fn base64_of(s: Seq<u8>) -> Seq<u8>
    decreases s.len(),
{
    if s.len() == 0 {
        Seq::<u8>::empty()
    } else if s.len() == 1 {
        let b0 = s[0];
        seq![b64_char(b0 >> 2), b64_char(((b0 & 3) << 4) as u8), 61u8, 61u8]
    } else if s.len() == 2 {
        let b0 = s[0];
        let b1 = s[1];
        seq![
            b64_char(b0 >> 2),
            b64_char((((b0 & 3) << 4) | (b1 >> 4)) as u8),
            b64_char(((b1 & 15) << 2) as u8),
            61u8,
        ]
    } else {
        let b0 = s[0];
        let b1 = s[1];
        let b2 = s[2];
        seq![
            b64_char(b0 >> 2),
            b64_char((((b0 & 3) << 4) | (b1 >> 4)) as u8),
            b64_char((((b1 & 15) << 2) | (b2 >> 6)) as u8),
            b64_char((b2 & 63) as u8),
        ] + base64_of(s.skip(3))
    }
}

/// The alphabet character for a 6-bit value.
fn b64_char_at(v: u8) -> (r: u8)
    requires
        v < 64,
    ensures
        r == b64_char(v),
{
    if v < 26 {
        v + 65
    } else if v < 52 {
        v + 71
    } else if v < 62 {
        v - 4
    } else if v == 62 {
        43
    } else {
        47
    }
}

/// Encodes `data` as base64 text (as ASCII bytes).
#[verifier::loop_isolation(false)]
pub fn base64_encode(data: &Vec<u8>) -> (r: Vec<u8>)
    ensures
        r@ == base64_of(data@),
{
    let n = data.len();
    let mut out: Vec<u8> = Vec::new();
    let mut i: usize = 0;
    assert(data@.skip(0) =~= data@);
    assert(out@ + base64_of(data@.skip(0)) =~= base64_of(data@));
    while n - i >= 3
        invariant
            i <= n,
            i % 3 == 0,
            base64_of(data@) == out@ + base64_of(data@.skip(i as int)),
        decreases n - i,
    {
        let b0 = data[i];
        let b1 = data[i + 1];
        let b2 = data[i + 2];
        proof {
            let rest = data@.skip(i as int);
            assert(rest.len() >= 3);
            assert(rest[0] == b0 && rest[1] == b1 && rest[2] == b2);
            assert(rest.skip(3) =~= data@.skip(i as int + 3));
            assert(((b0 & 3) << 4) < 64 && (b1 >> 4) < 16 && ((b1 & 15) << 2) < 64 && (b2 >> 6) < 4
                && (b0 >> 2) < 64 && (b2 & 63) < 64 && (((b0 & 3) << 4) | (b1 >> 4)) < 64 && (((b1
                & 15) << 2) | (b2 >> 6)) < 64) by (bit_vector);
        }
        out.push(b64_char_at(b0 >> 2));
        out.push(b64_char_at(((b0 & 3) << 4) | (b1 >> 4)));
        out.push(b64_char_at(((b1 & 15) << 2) | (b2 >> 6)));
        out.push(b64_char_at(b2 & 63));
        i = i + 3;
        assert(base64_of(data@) =~= out@ + base64_of(data@.skip(i as int)));
    }
    if i == n {
        assert(data@.skip(i as int) =~= Seq::<u8>::empty());
        assert(out@ =~= base64_of(data@));
    } else if i + 1 == n {
        let b0 = data[i];
        proof {
            let rest = data@.skip(i as int);
            assert(rest.len() == 1);
            assert(rest[0] == b0);
            assert((b0 >> 2) < 64 && ((b0 & 3) << 4) < 64) by (bit_vector);
        }
        out.push(b64_char_at(b0 >> 2));
        out.push(b64_char_at((b0 & 3) << 4));
        out.push(61);
        out.push(61);
        assert(out@ =~= base64_of(data@));
    } else {
        let b0 = data[i];
        let b1 = data[i + 1];
        proof {
            let rest = data@.skip(i as int);
            assert(rest.len() == 2);
            assert(rest[0] == b0 && rest[1] == b1);
            assert((b0 >> 2) < 64 && (((b0 & 3) << 4) | (b1 >> 4)) < 64 && ((b1 & 15) << 2)
                < 64) by (bit_vector);
        }
        out.push(b64_char_at(b0 >> 2));
        out.push(b64_char_at(((b0 & 3) << 4) | (b1 >> 4)));
        out.push(b64_char_at((b1 & 15) << 2));
        out.push(61);
        assert(out@ =~= base64_of(data@));
    }
    out
}

} // verus!
