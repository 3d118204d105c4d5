//! Matching of source and destination descriptors.
//!
//! A descriptor is an opaque string. Only two questions are ever asked of it:
//! whether it is a given keyword, and whether it begins with a given scheme.

use vstd::prelude::*;
use vstd::string::*;

verus! {

/// The descriptor that names the process's standard output.
pub open spec fn console_keyword() -> Seq<char> {
    "stdout"@
}

/// The descriptor that names the process's standard input.
pub open spec fn line_source_keyword() -> Seq<char> {
    "stdin"@
}

/// The scheme with which the descriptor of a websocket address begins.
pub open spec fn socket_scheme() -> Seq<char> {
    "ws://"@
}

/// Whether `option` is exactly `keyword`.
pub fn is_keyword(option: &String, keyword: &str) -> (b: bool)
    ensures
        b == (option@ == keyword@),
{
    let wanted = String::from_str(keyword);
    *option == wanted
}

/// Whether `option` begins with `prefix`.
pub fn has_prefix(option: &String, prefix: &str) -> (b: bool)
    ensures
        b == prefix@.is_prefix_of(option@),
{
    let text = option.as_str();
    let n: usize = prefix.unicode_len();
    let m: usize = text.unicode_len();
    if m < n {
        return false;
    }
    let mut i: usize = 0;
    while i < n
        invariant
            i <= n <= m,
            n == prefix@.len(),
            m == option@.len(),
            text@ == option@,
            forall|j: int| 0 <= j < i ==> option@[j] == prefix@[j],
        decreases n - i,
    {
        if text.get_char(i) != prefix.get_char(i) {
            assert(option@.subrange(0, n as int)[i as int] != prefix@[i as int]);
            return false;
        }
        i += 1;
    }
    assert(prefix@ =~= option@.subrange(0, n as int));
    true
}

} // verus!
