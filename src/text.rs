use vstd::prelude::*;

verus! {

/// The character of a decimal digit.
pub open spec fn digit_char(d: nat) -> char {
    if d == 0 { '0' }
    else if d == 1 { '1' }
    else if d == 2 { '2' }
    else if d == 3 { '3' }
    else if d == 4 { '4' }
    else if d == 5 { '5' }
    else if d == 6 { '6' }
    else if d == 7 { '7' }
    else if d == 8 { '8' }
    else { '9' }
}

/// The decimal notation of a natural number, without leading zeros.
pub open spec fn decimal_text(n: nat) -> Seq<char>
    decreases n,
{
    if n < 10 {
        seq![digit_char(n)]
    } else {
        decimal_text(n / 10).push(digit_char(n % 10))
    }
}

/// The decimal notation of an integer, with a leading `-` where it is negative.
pub open spec fn signed_decimal_text(n: int) -> Seq<char> {
    if n < 0 {
        seq!['-'] + decimal_text((-n) as nat)
    } else {
        decimal_text(n as nat)
    }
}

fn digit_str(d: usize) -> (r: &'static str)
    requires
        d < 10,
    ensures
        r@ == seq![digit_char(d as nat)],
{
    let digits = "0123456789";
    proof {
        reveal_strlit("0123456789");
    }
    let r = digits.substring_char(d, d + 1);
    assert(r@ =~= seq![digit_char(d as nat)]);
    r
}

/// Writes a natural number in decimal.
pub fn decimal(n: usize) -> (r: String)
    ensures
        r@ == decimal_text(n as nat),
{
    let mut m = n;
    let mut out = String::new();
    while m >= 10
        invariant
            decimal_text(n as nat) == decimal_text(m as nat) + out@,
        decreases m,
    {
        let mut s = String::from_str(digit_str(m % 10));
        s.append(out.as_str());
        proof {
            assert(decimal_text(m as nat) == decimal_text((m / 10) as nat).push(digit_char((m % 10) as nat)));
            assert(decimal_text(m as nat) + out@ =~= decimal_text((m / 10) as nat) + s@);
        }
        out = s;
        m = m / 10;
    }
    let mut s = String::from_str(digit_str(m));
    s.append(out.as_str());
    assert(decimal_text(m as nat) == seq![digit_char(m as nat)]);
    s
}

/// Writes an integer in decimal, with a leading `-` where it is negative.
pub fn signed_decimal(n: i32) -> (r: String)
    ensures
        r@ == signed_decimal_text(n as int),
{
    if n < 0 {
        let magnitude: i64 = -(n as i64);
        let mut s = String::from_str("-");
        s.append(decimal(magnitude as usize).as_str());
        proof {
            reveal_strlit("-");
        }
        s
    } else {
        decimal(n as usize)
    }
}

/// Writes a pointer-sized integer in decimal, with a leading `-` where it is negative.
pub fn isize_decimal(n: isize) -> (r: String)
    ensures
        r@ == signed_decimal_text(n as int),
{
    if n < 0 {
        let magnitude: i128 = -(n as i128);
        assert(magnitude <= usize::MAX);
        let mut s = String::from_str("-");
        s.append(decimal(magnitude as usize).as_str());
        proof {
            reveal_strlit("-");
        }
        s
    } else {
        decimal(n as usize)
    }
}

/// The bytes of `b` in decimal, separated by `, `.
pub open spec fn byte_items_text(b: Seq<u8>) -> Seq<char>
    decreases b.len(),
{
    if b.len() == 0 {
        Seq::empty()
    } else if b.len() == 1 {
        decimal_text(b[0] as nat)
    } else {
        byte_items_text(b.drop_last()) + ", "@ + decimal_text(b.last() as nat)
    }
}

/// A byte string in list notation, such as `[80, 85, 84]`.
pub open spec fn byte_list_text(b: Seq<u8>) -> Seq<char> {
    "["@ + byte_items_text(b) + "]"@
}

/// Writes a byte string in list notation.
pub fn byte_list(b: &[u8]) -> (r: String)
    ensures
        r@ == byte_list_text(b@),
{
    let mut items = String::new();
    let mut i: usize = 0;
    while i < b.len()
        invariant
            i <= b@.len(),
            items@ == byte_items_text(b@.subrange(0, i as int)),
        decreases b@.len() - i,
    {
        proof {
            let next = b@.subrange(0, i + 1);
            assert(next.drop_last() == b@.subrange(0, i as int));
            assert(next.last() == b@[i as int]);
        }
        if i > 0 {
            items.append(", ");
        }
        let d = decimal(b[i] as usize);
        items.append(d.as_str());
        proof {
            if i == 0 {
                assert(items@ =~= byte_items_text(b@.subrange(0, 1)));
            }
        }
        i = i + 1;
    }
    assert(b@.subrange(0, b@.len() as int) == b@);
    let mut r = String::from_str("[");
    r.append(items.as_str());
    r.append("]");
    r
}

/// Whether `i` is the position of the first `c` in `s`.
pub open spec fn is_first_index(s: Seq<char>, c: char, i: int) -> bool {
    0 <= i < s.len() && s[i] == c && forall|j: int| 0 <= j < i ==> s[j] != c
}

/// The position of the first `c` in `s`, if there is one.
pub open spec fn first_of(s: Seq<char>, c: char) -> Option<int> {
    if exists|i: int| is_first_index(s, c, i) {
        Some(choose|i: int| is_first_index(s, c, i))
    } else {
        None
    }
}

/// The position of the first `c` in `s`, if there is one.
pub fn find_char(s: &str, c: char) -> (r: Option<usize>)
    ensures
        r matches Some(i) ==> is_first_index(s@, c, i as int),
        r is None ==> forall|j: int| 0 <= j < s@.len() ==> s@[j] != c,
        match r {
            Some(i) => first_of(s@, c) == Some(i as int),
            None => first_of(s@, c) is None,
        },
{
    let n = s.unicode_len();
    let mut i: usize = 0;
    while i < n
        invariant
            n == s@.len(),
            i <= n,
            forall|j: int| 0 <= j < i ==> s@[j] != c,
        decreases n - i,
    {
        if s.get_char(i) == c {
            proof {
                assert(is_first_index(s@, c, i as int));
                let k = choose|k: int| is_first_index(s@, c, k);
                if k < i {
                    assert(s@[k] != c);
                }
            }
            return Some(i);
        }
        i = i + 1;
    }
    None
}

/// The value of a hexadecimal digit.
pub open spec fn hex_digit_value(c: char) -> Option<nat> {
    if '0' <= c && c <= '9' {
        Some((c as u32 - '0' as u32) as nat)
    } else if 'a' <= c && c <= 'f' {
        Some((c as u32 - 'a' as u32 + 10) as nat)
    } else if 'A' <= c && c <= 'F' {
        Some((c as u32 - 'A' as u32 + 10) as nat)
    } else {
        None
    }
}

/// Whether every character of `s` is a hexadecimal digit.
pub open spec fn all_hex(s: Seq<char>) -> bool {
    forall|i: int| 0 <= i < s.len() ==> #[trigger] hex_digit_value(s[i]) is Some
}

/// The value of a run of hexadecimal digits.
pub open spec fn hex_value(s: Seq<char>) -> nat
    decreases s.len(),
{
    if s.len() == 0 {
        0
    } else {
        hex_value(s.drop_last()) * 16 + match hex_digit_value(s.last()) {
            Some(d) => d,
            None => 0,
        }
    }
}

/// A signed hexadecimal number as `i64::from_str_radix(_, 16)` reads it: an
/// optional `+` or `-`, then at least one digit, in range.
pub open spec fn hex_i64(s: Seq<char>) -> Option<i64> {
    let neg = s.len() > 0 && s[0] == '-';
    let digits = if s.len() > 0 && (s[0] == '-' || s[0] == '+') { s.drop_first() } else { s };
    if digits.len() == 0 || !all_hex(digits) {
        None
    } else {
        let v: int = if neg { -(hex_value(digits) as int) } else { hex_value(digits) as int };
        if i64::MIN <= v <= i64::MAX { Some(v as i64) } else { None }
    }
}

fn hex_digit(c: char) -> (r: Option<u8>)
    ensures
        r matches Some(d) ==> hex_digit_value(c) == Some(d as nat),
        r is None ==> hex_digit_value(c) is None,
{
    if '0' <= c && c <= '9' {
        Some((c as u32 - '0' as u32) as u8)
    } else if 'a' <= c && c <= 'f' {
        Some((c as u32 - 'a' as u32 + 10) as u8)
    } else if 'A' <= c && c <= 'F' {
        Some((c as u32 - 'A' as u32 + 10) as u8)
    } else {
        None
    }
}

/// Reads a signed hexadecimal `i64`.
pub fn parse_hex_i64(s: &str) -> (r: Option<i64>)
    ensures
        r == hex_i64(s@),
{
    let n = s.unicode_len();
    let mut start: usize = 0;
    let mut neg = false;
    if n > 0 {
        let c0 = s.get_char(0);
        if c0 == '-' {
            neg = true;
            start = 1;
        } else if c0 == '+' {
            start = 1;
        }
    }
    let ghost digits = s@.subrange(start as int, n as int);
    assert(digits == (if s@.len() > 0 && (s@[0] == '-' || s@[0] == '+') { s@.drop_first() } else { s@ }));
    if start >= n {
        return None;
    }
    let cap: u128 = 0x1_0000_0000_0000_0000;
    let mut acc: u128 = 0;
    let mut i: usize = start;
    while i < n
        invariant
            n == s@.len(),
            start <= i <= n,
            digits == s@.subrange(start as int, n as int),
            digits == (if s@.len() > 0 && (s@[0] == '-' || s@[0] == '+') { s@.drop_first() } else { s@ }),
            neg == (s@.len() > 0 && s@[0] == '-'),
            cap == 0x1_0000_0000_0000_0000u128,
            all_hex(digits.subrange(0, i - start)),
            acc as nat == if hex_value(digits.subrange(0, i - start)) < (cap as nat) {
                hex_value(digits.subrange(0, i - start))
            } else {
                cap as nat
            },
        decreases n - i,
    {
        let d = match hex_digit(s.get_char(i)) {
            Some(d) => d,
            None => {
                assert(digits[i - start] == s@[i as int]);
                assert(!all_hex(digits));
                return None;
            },
        };
        let ghost pre = digits.subrange(0, i - start);
        let ghost next = digits.subrange(0, i + 1 - start);
        assert(next.drop_last() == pre);
        assert(next.last() == s@[i as int]);
        let ghost v = hex_value(pre);
        assert(hex_value(next) == v * 16 + d);
        let a2: u128 = acc * 16 + d as u128;
        assert(a2 as nat >= cap as nat ==> v * 16 + d >= cap as nat) by (nonlinear_arith)
            requires
                a2 as nat == acc as nat * 16 + d,
                acc as nat == if v < (cap as nat) { v } else { cap as nat },
        ;
        assert((a2 as nat) < (cap as nat) ==> v * 16 + d == a2 as nat) by (nonlinear_arith)
            requires
                a2 as nat == acc as nat * 16 + d,
                acc as nat == if v < (cap as nat) { v } else { cap as nat },
                cap as nat > 0,
                d < 16,
        ;
        acc = if a2 < cap { a2 } else { cap };
        assert(all_hex(next)) by {
            assert forall|k: int| 0 <= k < next.len() implies #[trigger] hex_digit_value(next[k]) is Some by {
                if k < next.len() - 1 {
                    assert(next[k] == pre[k]);
                }
            }
        }
        i = i + 1;
    }
    assert(digits.subrange(0, n - start) == digits);
    if neg {
        if acc > 0x8000_0000_0000_0000u128 {
            return None;
        }
        let m: i128 = -(acc as i128);
        Some(m as i64)
    } else {
        if acc > 0x7fff_ffff_ffff_ffffu128 {
            return None;
        }
        Some(acc as i64)
    }
}

} // verus!
