use vstd::prelude::*;

use crate::text::{decimal, decimal_text};

verus! {

/// The message of the error an out-of-range netmask gives.
pub open spec fn netmask_error_text(mask: u8, is_v6: bool) -> Seq<char> {
    (if is_v6 { "IPv6"@ } else { "IPv4"@ }) + " mask '"@ + decimal_text(mask as nat) + "' is out of range (1.."@
        + (if is_v6 { "128"@ } else { "32"@ }) + ")."@
}

/// Checks a netmask length: 1 to 32 for IPv4, 1 to 128 for IPv6.
pub fn check_netmask(mask: u8, is_v6: bool) -> (r: Result<(), String>)
    ensures
        r.is_ok() == (1 <= mask && mask <= (if is_v6 { 128u8 } else { 32u8 })),
        r matches Err(m) ==> m@ == netmask_error_text(mask, is_v6),
{
    let (ver, max, max_text): (&str, u8, &str) = if is_v6 {
        ("IPv6", 128, "128")
    } else {
        ("IPv4", 32, "32")
    };
    if !(mask >= 1 && mask <= max) {
        let mut m = String::from_str(ver);
        m.append(" mask '");
        m.append(decimal(mask as usize).as_str());
        m.append("' is out of range (1..");
        m.append(max_text);
        m.append(").");
        return Err(m);
    }
    Ok(())
}

} // verus!
