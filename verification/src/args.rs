//! Parsing of the command line's `KEY=value` arguments.
use vstd::prelude::*;

use crate::text::{chars_of, push_str, string_of, string_push};

verus! {

/// The message for an argument without `=`.
pub open spec fn key_val_error(s: Seq<char>) -> Seq<char> {
    "invalid KEY=value: no `=` found in `"@ + s + "`"@
}

/// Splits `s` at its first `=` into the key before it and the value after it;
/// fails with a message when `s` has no `=`.
pub fn parse_key_val(s: &str) -> (r: Result<(String, String), String>)
    ensures
        match r {
            Ok((k, v)) => exists|i: int|
                0 <= i < s@.len() && s@[i] == '=' && (forall|j: int| 0 <= j < i ==> s@[j] != '=')
                    && k@ == s@.subrange(0, i) && v@ == s@.subrange(i + 1, s@.len() as int),
            Err(e) => (forall|j: int| 0 <= j < s@.len() ==> s@[j] != '=') && e@ == key_val_error(
                s@,
            ),
        },
{
    let cs = chars_of(s);
    let mut key = String::new();
    let mut i: usize = 0;
    while i < cs.len()
        invariant
            cs@ == s@,
            i <= cs@.len(),
            key@ == cs@.subrange(0, i as int),
            forall|j: int| 0 <= j < i ==> cs@[j] != '=',
        decreases cs@.len() - i,
    {
        if cs[i] == '=' {
            let mut value = String::new();
            let mut k: usize = i + 1;
            while k < cs.len()
                invariant
                    cs@ == s@,
                    i < k <= cs@.len(),
                    value@ == cs@.subrange(i + 1, k as int),
                decreases cs@.len() - k,
            {
                string_push(&mut value, cs[k]);
                assert(value@ =~= cs@.subrange(i + 1, k + 1));
                k = k + 1;
            }
            return Ok((key, value));
        }
        string_push(&mut key, cs[i]);
        assert(key@ =~= cs@.subrange(0, i + 1));
        i = i + 1;
    }
    let mut e = string_of("invalid KEY=value: no `=` found in `");
    push_str(&mut e, s);
    push_str(&mut e, "`");
    Err(e)
}

} // verus!
