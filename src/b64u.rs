use vstd::prelude::*;

verus! {

/// The base64url (RFC 4648, section 5) digit of a 6-bit value.
pub open spec fn b64u_digit(v: int) -> u8 {
    if v < 26 {
        (65 + v) as u8
    } else if v < 52 {
        (97 + v - 26) as u8
    } else if v < 62 {
        (48 + v - 52) as u8
    } else if v == 62 {
        45u8
    } else {
        95u8
    }
}

/// The byte at `i`, or 0 past the end.
pub open spec fn byte_or_zero(b: Seq<u8>, i: int) -> int {
    if 0 <= i < b.len() { b[i] as int } else { 0 }
}

/// The `k`-th 6-bit group of the bits of `b`, padded with zero bits.
pub open spec fn sextet(b: Seq<u8>, k: int) -> int {
    let g = k / 4;
    let b0 = byte_or_zero(b, 3 * g);
    let b1 = byte_or_zero(b, 3 * g + 1);
    let b2 = byte_or_zero(b, 3 * g + 2);
    if k % 4 == 0 {
        b0 / 4
    } else if k % 4 == 1 {
        (b0 % 4) * 16 + b1 / 16
    } else if k % 4 == 2 {
        (b1 % 16) * 4 + b2 / 64
    } else {
        b2 % 64
    }
}

/// The length of the unpadded base64url text of `n` bytes.
pub open spec fn b64u_len(n: nat) -> nat {
    let tail: nat = if n % 3 == 0 {
        0
    } else if n % 3 == 1 {
        2
    } else {
        3
    };
    (n / 3) * 4 + tail
}

/// The unpadded base64url text of `b`, as ASCII bytes.
pub open spec fn b64u_of(b: Seq<u8>) -> Seq<u8> {
    Seq::new(b64u_len(b.len()), |k: int| b64u_digit(sextet(b, k)))
}

fn digit(v: u8) -> (r: u8)
    requires
        v < 64,
    ensures
        r == b64u_digit(v as int),
{
    if v < 26 {
        65 + v
    } else if v < 52 {
        97 + v - 26
    } else if v < 62 {
        48 + v - 52
    } else if v == 62 {
        45
    } else {
        95
    }
}

/// Encodes `b` as unpadded base64url text.
pub fn encode(b: &[u8]) -> (r: Vec<u8>)
    ensures
        r@ == b64u_of(b@),
{
    let n = b.len();
    let mut out: Vec<u8> = Vec::new();
    let mut i: usize = 0;
    while n - i >= 3
        invariant
            n == b@.len(),
            i % 3 == 0,
            i <= n,
            out@.len() == (i / 3) * 4,
            forall|k: int| 0 <= k < out@.len() ==> out@[k] == #[trigger] b64u_digit(sextet(b@, k)),
        decreases n - i,
    {
        let b0 = b[i];
        let b1 = b[i + 1];
        let b2 = b[i + 2];
        let base = out.len();
        out.push(digit(b0 / 4));
        out.push(digit((b0 % 4) * 16 + b1 / 16));
        out.push(digit((b1 % 16) * 4 + b2 / 64));
        out.push(digit(b2 % 64));
        proof {
            let g = (i / 3) as int;
            assert(3 * g == i);
            assert forall|k: int| base <= k < base + 4 implies out@[k] == #[trigger] b64u_digit(sextet(b@, k)) by {
                assert(k / 4 == g);
                assert(k % 4 == k - base);
            }
        }
        i = i + 3;
    }
    let rest = n - i;
    let base = out.len();
    if rest == 1 {
        let b0 = b[i];
        out.push(digit(b0 / 4));
        out.push(digit((b0 % 4) * 16));
    } else if rest == 2 {
        let b0 = b[i];
        let b1 = b[i + 1];
        out.push(digit(b0 / 4));
        out.push(digit((b0 % 4) * 16 + b1 / 16));
        out.push(digit((b1 % 16) * 4));
    }
    proof {
        let g = (i / 3) as int;
        assert(3 * g == i);
        assert(n / 3 == g);
        assert(n % 3 == rest);
        assert forall|k: int| base <= k < out@.len() implies out@[k] == #[trigger] b64u_digit(sextet(b@, k)) by {
            assert(k / 4 == g);
            assert(k % 4 == k - base);
        }
        assert(out@ =~= b64u_of(b@));
    }
    out
}

} // verus!
