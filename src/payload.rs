use vstd::prelude::*;
use vstd::string::StringSliceAdditionalSpecFns;
use vstd::utf8::encode_utf8;

use crate::b64u::{b64u_of, encode};

verus! {

/// Appends `b` to `out`.
fn append_bytes(out: &mut Vec<u8>, b: &[u8])
    ensures
        final(out)@ == old(out)@ + b@,
{
    let mut i: usize = 0;
    while i < b.len()
        invariant
            i <= b@.len(),
            out@ == old(out)@ + b@.subrange(0, i as int),
        decreases b@.len() - i,
    {
        out.push(b[i]);
        i = i + 1;
        assert(b@.subrange(0, i as int) == b@.subrange(0, i - 1).push(b@[i - 1]));
    }
    assert(b@.subrange(0, b@.len() as int) == b@);
}

/// The lowercase hexadecimal digit of a value below 16, as an ASCII byte.
pub open spec fn hex_byte(d: int) -> u8 {
    if d < 10 { (48 + d) as u8 } else { (87 + d) as u8 }
}

/// A byte of a JSON string's content, escaped: `"` and `\` get a backslash,
/// control bytes become `\u00XX`, any other byte stands as it is.
pub open spec fn escape_byte(x: u8) -> Seq<u8> {
    if x == 34 {
        seq![92u8, 34u8]
    } else if x == 92 {
        seq![92u8, 92u8]
    } else if x < 32 {
        seq![92u8, 117u8, 48u8, 48u8, hex_byte(x as int / 16), hex_byte(x as int % 16)]
    } else {
        seq![x]
    }
}

/// The UTF-8 text `b` escaped as the content of a JSON string.
pub open spec fn json_escaped(b: Seq<u8>) -> Seq<u8>
    decreases b.len(),
{
    if b.len() == 0 {
        Seq::empty()
    } else {
        json_escaped(b.drop_last()) + escape_byte(b.last())
    }
}

/// Appends `s` as a quoted JSON string.
fn append_json_string(out: &mut Vec<u8>, s: &str)
    ensures
        final(out)@ == old(out)@ + seq![34u8] + json_escaped(s.spec_bytes()) + seq![34u8],
{
    out.push(34u8);
    let b = s.as_bytes();
    let ghost start = out@;
    let mut i: usize = 0;
    while i < b.len()
        invariant
            i <= b@.len(),
            start == old(out)@ + seq![34u8],
            out@ == start + json_escaped(b@.subrange(0, i as int)),
        decreases b@.len() - i,
    {
        let x = b[i];
        let ghost before = out@;
        if x == 34 {
            out.push(92u8);
            out.push(34u8);
        } else if x == 92 {
            out.push(92u8);
            out.push(92u8);
        } else if x < 32 {
            out.push(92u8);
            out.push(117u8);
            out.push(48u8);
            out.push(48u8);
            let hi = x / 16;
            let lo = x % 16;
            out.push(if hi < 10 { 48 + hi } else { 87 + hi });
            out.push(if lo < 10 { 48 + lo } else { 87 + lo });
        } else {
            out.push(x);
        }
        proof {
            let next = b@.subrange(0, i + 1);
            assert(next.drop_last() == b@.subrange(0, i as int));
            assert(next.last() == x);
            assert(out@ =~= before + escape_byte(x));
            assert(out@ =~= start + json_escaped(next));
        }
        i = i + 1;
    }
    assert(b@.subrange(0, b@.len() as int) == b@);
    out.push(34u8);
    assert(out@ =~= old(out)@ + seq![34u8] + json_escaped(s.spec_bytes()) + seq![34u8]);
}

/// The finalize payload `{"csr":"<base64url of the DER request>"}`.
pub open spec fn finalize_payload_of(csr: Seq<u8>) -> Seq<u8> {
    encode_utf8("{\"csr\":\""@) + b64u_of(csr) + encode_utf8("\"}"@)
}

/// Builds the finalize payload for a DER encoded certificate signing request.
pub fn finalize_payload(csr: &[u8]) -> (r: Vec<u8>)
    ensures
        r@ == finalize_payload_of(csr@),
{
    let mut out: Vec<u8> = Vec::new();
    append_bytes(&mut out, "{\"csr\":\"".as_bytes());
    let text = encode(csr);
    append_bytes(&mut out, text.as_slice());
    append_bytes(&mut out, "\"}".as_bytes());
    assert(out@ =~= finalize_payload_of(csr@));
    out
}

/// Whether a certificate is PEM text rather than DER: it starts with `-----BEGIN`.
pub open spec fn is_pem_of(cert: Seq<u8>) -> bool {
    let prefix = encode_utf8("-----BEGIN"@);
    cert.len() >= prefix.len() && cert.subrange(0, prefix.len() as int) == prefix
}

/// Tells PEM text from DER.
pub fn is_pem(cert: &[u8]) -> (r: bool)
    ensures
        r == is_pem_of(cert@),
{
    let prefix = "-----BEGIN".as_bytes();
    if cert.len() < prefix.len() {
        return false;
    }
    let mut i: usize = 0;
    while i < prefix.len()
        invariant
            i <= prefix@.len() <= cert@.len(),
            prefix@ == encode_utf8("-----BEGIN"@),
            forall|j: int| 0 <= j < i ==> cert@[j] == prefix@[j],
        decreases prefix@.len() - i,
    {
        if cert[i] != prefix[i] {
            assert(cert@.subrange(0, prefix@.len() as int)[i as int] != prefix@[i as int]);
            return false;
        }
        i = i + 1;
    }
    assert(cert@.subrange(0, prefix@.len() as int) =~= prefix@);
    true
}

/// The revocation payload for a DER certificate and an optional reason code:
/// `{"certificate":"<base64url>"}` or `{"certificate":"<base64url>","reason":<code>}`.
pub open spec fn revocation_payload_of(der: Seq<u8>, reason: Option<u32>) -> Seq<u8> {
    encode_utf8("{\"certificate\":\""@) + b64u_of(der) + match reason {
        Some(code) => encode_utf8("\",\"reason\":"@) + encode_utf8(crate::text::decimal_text(code as nat))
            + encode_utf8("}"@),
        None => encode_utf8("\"}"@),
    }
}

/// Builds the revocation payload for a DER certificate.
pub fn revocation_payload(der: &[u8], reason: Option<u32>) -> (r: Vec<u8>)
    ensures
        r@ == revocation_payload_of(der@, reason),
{
    let mut out: Vec<u8> = Vec::new();
    append_bytes(&mut out, "{\"certificate\":\"".as_bytes());
    let text = encode(der);
    append_bytes(&mut out, text.as_slice());
    match reason {
        Some(code) => {
            append_bytes(&mut out, "\",\"reason\":".as_bytes());
            let digits = crate::text::decimal(code as usize);
            append_bytes(&mut out, digits.as_str().as_bytes());
            append_bytes(&mut out, "}".as_bytes());
        },
        None => {
            append_bytes(&mut out, "\"}".as_bytes());
        },
    }
    assert(out@ =~= revocation_payload_of(der@, reason));
    out
}

/// The identifiers of an order's domains, each `{"type":"dns","value":"<domain>"}`,
/// separated by commas.
pub open spec fn identifiers_of(domains: Seq<Seq<char>>) -> Seq<u8>
    decreases domains.len(),
{
    if domains.len() == 0 {
        Seq::empty()
    } else {
        let last = encode_utf8("{\"type\":\"dns\",\"value\":"@) + seq![34u8] + json_escaped(
            encode_utf8(domains.last()),
        ) + seq![34u8] + encode_utf8("}"@);
        if domains.len() == 1 {
            last
        } else {
            identifiers_of(domains.drop_last()) + encode_utf8(","@) + last
        }
    }
}

/// The new-order payload `{"identifiers":[...]}` for a list of domains.
pub open spec fn order_payload_of(domains: Seq<Seq<char>>) -> Seq<u8> {
    encode_utf8("{\"identifiers\":["@) + identifiers_of(domains) + encode_utf8("]}"@)
}

/// Builds the new-order payload for `domains`.
pub fn order_payload(domains: &Vec<String>) -> (r: Vec<u8>)
    ensures
        r@ == order_payload_of(domains@.map_values(|d: String| d@)),
{
    let ghost names = domains@.map_values(|d: String| d@);
    let mut items: Vec<u8> = Vec::new();
    let mut i: usize = 0;
    while i < domains.len()
        invariant
            i <= domains@.len(),
            names == domains@.map_values(|d: String| d@),
            items@ == identifiers_of(names.subrange(0, i as int)),
        decreases domains@.len() - i,
    {
        let ghost before = items@;
        if i > 0 {
            append_bytes(&mut items, ",".as_bytes());
        }
        append_bytes(&mut items, "{\"type\":\"dns\",\"value\":".as_bytes());
        append_json_string(&mut items, domains[i].as_str());
        append_bytes(&mut items, "}".as_bytes());
        proof {
            let next = names.subrange(0, i + 1);
            assert(next.drop_last() == names.subrange(0, i as int));
            assert(next.last() == domains@[i as int]@);
            if i == 0 {
                assert(before == Seq::<u8>::empty());
            }
            assert(items@ =~= identifiers_of(next));
        }
        i = i + 1;
    }
    assert(names.subrange(0, domains@.len() as int) == names);
    let mut out: Vec<u8> = Vec::new();
    append_bytes(&mut out, "{\"identifiers\":[".as_bytes());
    append_bytes(&mut out, items.as_slice());
    append_bytes(&mut out, "]}".as_bytes());
    assert(out@ =~= order_payload_of(names));
    out
}

} // verus!
