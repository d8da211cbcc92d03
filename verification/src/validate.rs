//! Syntactic validity of chain-level identifiers.
//!
//! The chain rejects transactions whose identifiers are malformed, so the
//! pipeline checks them before anything is signed. The rules are small
//! closed character sets with length bounds, checked here in full:
//! a chain identifier is one to fifty characters drawn from ASCII letters,
//! digits, `-`, `_` and `.`; a fee denomination is three to one hundred
//! twenty-eight characters drawn from ASCII letters, digits, `/`, `:`,
//! `.`, `_` and `-`; an address prefix is any run of lowercase ASCII
//! letters and digits.

use vstd::prelude::*;

verus! {

/// Characters allowed in a chain identifier.
pub open spec fn chain_id_char_ok(c: char) -> bool {
    ||| 97 <= c as u32 <= 122  // a-z
    ||| 65 <= c as u32 <= 90  // A-Z
    ||| 48 <= c as u32 <= 57  // 0-9
    ||| c as u32 == 45  // -
    ||| c as u32 == 95  // _
    ||| c as u32 == 46  // .
}

/// A usable chain identifier: non-empty, at most fifty characters, all
/// from the allowed set.
pub open spec fn spec_chain_id_valid(s: Seq<char>) -> bool {
    &&& 1 <= s.len() <= 50
    &&& forall|i: int| 0 <= i < s.len() ==> chain_id_char_ok(#[trigger] s[i])
}

/// Characters allowed in a fee denomination.
pub open spec fn denom_char_ok(c: char) -> bool {
    ||| 97 <= c as u32 <= 122  // a-z
    ||| 65 <= c as u32 <= 90  // A-Z
    ||| 48 <= c as u32 <= 57  // 0-9
    ||| c as u32 == 47  // /
    ||| c as u32 == 58  // :
    ||| c as u32 == 46  // .
    ||| c as u32 == 95  // _
    ||| c as u32 == 45  // -
}

/// A usable fee denomination: three to one hundred twenty-eight
/// characters, all from the allowed set.
pub open spec fn spec_denom_valid(s: Seq<char>) -> bool {
    &&& 3 <= s.len() <= 128
    &&& forall|i: int| 0 <= i < s.len() ==> denom_char_ok(#[trigger] s[i])
}

/// Characters allowed in an account address prefix.
pub open spec fn prefix_char_ok(c: char) -> bool {
    ||| 97 <= c as u32 <= 122  // a-z
    ||| 48 <= c as u32 <= 57  // 0-9
}

/// A usable address prefix: lowercase letters and digits only.
pub open spec fn spec_prefix_valid(s: Seq<char>) -> bool {
    forall|i: int| 0 <= i < s.len() ==> prefix_char_ok(#[trigger] s[i])
}

fn chain_id_char_check(c: char) -> (r: bool)
    ensures
        r == chain_id_char_ok(c),
{
    let u = c as u32;
    (97 <= u && u <= 122) || (65 <= u && u <= 90) || (48 <= u && u <= 57) || u == 45
        || u == 95 || u == 46
}

fn denom_char_check(c: char) -> (r: bool)
    ensures
        r == denom_char_ok(c),
{
    let u = c as u32;
    (97 <= u && u <= 122) || (65 <= u && u <= 90) || (48 <= u && u <= 57) || u == 47
        || u == 58 || u == 46 || u == 95 || u == 45
}

fn prefix_char_check(c: char) -> (r: bool)
    ensures
        r == prefix_char_ok(c),
{
    let u = c as u32;
    (97 <= u && u <= 122) || (48 <= u && u <= 57)
}

/// Check a chain identifier.
pub fn chain_id_valid(s: &str) -> (r: bool)
    ensures
        r == spec_chain_id_valid(s@),
{
    let n = s.unicode_len();
    if n < 1 || n > 50 {
        return false;
    }
    let mut i: usize = 0;
    while i < n
        invariant
            n == s@.len(),
            1 <= n <= 50,
            0 <= i <= n,
            forall|j: int| 0 <= j < i ==> chain_id_char_ok(#[trigger] s@[j]),
        decreases n - i,
    {
        if !chain_id_char_check(s.get_char(i)) {
            return false;
        }
        i = i + 1;
    }
    true
}

/// Check a fee denomination.
pub fn denom_valid(s: &str) -> (r: bool)
    ensures
        r == spec_denom_valid(s@),
{
    let n = s.unicode_len();
    if n < 3 || n > 128 {
        return false;
    }
    let mut i: usize = 0;
    while i < n
        invariant
            n == s@.len(),
            3 <= n <= 128,
            0 <= i <= n,
            forall|j: int| 0 <= j < i ==> denom_char_ok(#[trigger] s@[j]),
        decreases n - i,
    {
        if !denom_char_check(s.get_char(i)) {
            return false;
        }
        i = i + 1;
    }
    true
}

/// Check an account address prefix.
pub fn prefix_valid(s: &str) -> (r: bool)
    ensures
        r == spec_prefix_valid(s@),
{
    let n = s.unicode_len();
    let mut i: usize = 0;
    while i < n
        invariant
            n == s@.len(),
            0 <= i <= n,
            forall|j: int| 0 <= j < i ==> prefix_char_ok(#[trigger] s@[j]),
        decreases n - i,
    {
        if !prefix_char_check(s.get_char(i)) {
            return false;
        }
        i = i + 1;
    }
    true
}

} // verus!
