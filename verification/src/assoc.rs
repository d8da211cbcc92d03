//! Association lists keyed by strings.
//!
//! Configuration maps (networks, accounts) are small; the library keeps
//! them as ordered lists of pairs and looks keys up by first match.

use vstd::prelude::*;

verus! {

use crate::json::str_eq;

/// First index bound to `key`.
pub open spec fn key_index<T>(s: Seq<(String, T)>, key: Seq<char>) -> Option<int>
    decreases s.len(),
{
    if s.len() == 0 {
        None
    } else if s[0].0@ == key {
        Some(0)
    } else {
        match key_index(s.drop_first(), key) {
            Some(i) => Some(i + 1),
            None => None,
        }
    }
}

pub proof fn lemma_key_index<T>(s: Seq<(String, T)>, key: Seq<char>)
    ensures
        match key_index(s, key) {
            Some(i) => 0 <= i < s.len() && s[i].0@ == key,
            None => forall|i: int| 0 <= i < s.len() ==> (#[trigger] s[i]).0@ != key,
        },
    decreases s.len(),
{
    if s.len() > 0 && s[0].0@ != key {
        lemma_key_index(s.drop_first(), key);
        assert forall|i: int| 1 <= i < s.len() implies (#[trigger] s[i]) == s.drop_first()[i
            - 1] by {}
    }
}

proof fn lemma_key_index_found<T>(s: Seq<(String, T)>, key: Seq<char>, i: int)
    requires
        0 <= i < s.len(),
        s[i].0@ == key,
        forall|j: int| 0 <= j < i ==> (#[trigger] s[j]).0@ != key,
    ensures
        key_index(s, key) == Some(i),
    decreases i,
{
    if i > 0 {
        assert(forall|j: int| 0 <= j < i - 1 ==> (#[trigger] s.drop_first()[j]).0@ != key);
        assert(s.drop_first()[i - 1] == s[i]);
        lemma_key_index_found(s.drop_first(), key, i - 1);
    }
}

/// Find the first entry bound to `key`.
pub fn assoc_find<T>(v: &Vec<(String, T)>, key: &str) -> (res: Option<usize>)
    ensures
        match res {
            Some(i) => key_index(v@, key@) == Some(i as int),
            None => key_index(v@, key@) is None,
        },
{
    let n = v.len();
    let mut i: usize = 0;
    while i < n
        invariant
            n == v@.len(),
            0 <= i <= n,
            forall|j: int| 0 <= j < i ==> (#[trigger] v@[j]).0@ != key@,
        decreases n - i,
    {
        if str_eq(v[i].0.as_str(), key) {
            proof {
                lemma_key_index_found(v@, key@, i as int);
            }
            return Some(i);
        }
        i = i + 1;
    }
    proof {
        lemma_key_index(v@, key@);
    }
    None
}

} // verus!
