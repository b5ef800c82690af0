use vstd::prelude::*;

verus! {

/// Where a suite name splits into base and variant: at the first `-` or `/`.
pub open spec fn variant_split(s: Seq<char>) -> int {
    if exists|i: int| 0 <= i < s.len() && (s[i] == '-' || s[i] == '/') {
        choose|i: int|
            0 <= i < s.len() && (s[i] == '-' || s[i] == '/') && forall|j: int|
                0 <= j < i ==> s[j] != '-' && s[j] != '/'
    } else {
        s.len() as int
    }
}

/// Splits an APT suite such as `bookworm-security` into its base (`bookworm`)
/// and its variant (`-security`); a suite without `-` or `/` has an empty variant.
pub fn suite_variant(suite: &str) -> (r: (&str, &str))
    ensures
        r.0@ == suite@.subrange(0, variant_split(suite@)),
        r.1@ == suite@.subrange(variant_split(suite@), suite@.len() as int),
{
    let n = suite.unicode_len();
    let mut i: usize = 0;
    while i < n
        invariant
            n == suite@.len(),
            i <= n,
            forall|j: int| 0 <= j < i ==> suite@[j] != '-' && suite@[j] != '/',
        decreases n - i,
    {
        let c = suite.get_char(i);
        if c == '-' || c == '/' {
            proof {
                let k = choose|k: int|
                    0 <= k < suite@.len() && (suite@[k] == '-' || suite@[k] == '/') && forall|j: int|
                        0 <= j < k ==> suite@[j] != '-' && suite@[j] != '/';
                if k < i {
                    assert(suite@[k] != '-' && suite@[k] != '/');
                }
                if k > i {
                    assert(suite@[i as int] != '-' && suite@[i as int] != '/');
                }
            }
            return (suite.substring_char(0, i), suite.substring_char(i, n));
        }
        i = i + 1;
    }
    (suite.substring_char(0, n), suite.substring_char(n, n))
}

} // verus!
