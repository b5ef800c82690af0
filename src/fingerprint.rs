use vstd::prelude::*;

verus! {

/// The lowercase hexadecimal digit of a value below 16.
pub open spec fn hex_lower(d: int) -> char {
    if d < 10 {
        ((48 + d) as u8) as char
    } else {
        ((87 + d) as u8) as char
    }
}

/// A fingerprint in the usual notation: two lowercase hex digits per byte,
/// the bytes separated by colons.
pub open spec fn fingerprint_text(fp: Seq<u8>) -> Seq<char>
    decreases fp.len(),
{
    if fp.len() == 0 {
        Seq::empty()
    } else {
        let head = fingerprint_text(fp.drop_last());
        let b = fp.last() as int;
        let pair = seq![hex_lower(b / 16), hex_lower(b % 16)];
        if fp.len() == 1 {
            pair
        } else {
            head + seq![':'] + pair
        }
    }
}

fn hex_digit_str(d: u8) -> (r: &'static str)
    requires
        d < 16,
    ensures
        r@ == seq![hex_lower(d as int)],
{
    let digits = "0123456789abcdef";
    proof {
        reveal_strlit("0123456789abcdef");
    }
    digits.substring_char(d as usize, d as usize + 1)
}

/// Formats a certificate fingerprint as colon separated lowercase hex pairs.
pub fn fp_string(fp: &[u8]) -> (r: String)
    ensures
        r@ == fingerprint_text(fp@),
{
    let mut out = String::new();
    let mut i: usize = 0;
    while i < fp.len()
        invariant
            i <= fp@.len(),
            out@ == fingerprint_text(fp@.subrange(0, i as int)),
        decreases fp@.len() - i,
    {
        let b = fp[i];
        proof {
            let next = fp@.subrange(0, i + 1);
            assert(next.drop_last() == fp@.subrange(0, i as int));
            assert(next.last() == b);
        }
        proof {
            reveal_strlit(":");
        }
        if i > 0 {
            out.append(":");
        }
        out.append(hex_digit_str(b / 16));
        out.append(hex_digit_str(b % 16));
        proof {
            assert((b / 16) as int == b as int / 16);
            assert((b % 16) as int == b as int % 16);
            assert(out@ =~= fingerprint_text(fp@.subrange(0, i + 1)));
        }
        i = i + 1;
    }
    assert(fp@.subrange(0, fp@.len() as int) == fp@);
    out
}

} // verus!
