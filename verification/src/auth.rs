//! The shared-secret bearer check that gates the multi-session
//! transport: pure string logic, verified here. The transport hands in
//! the header text it read (a missing header it rejects by itself) and
//! rejects before touching the engine when the check fails.

use vstd::prelude::*;
use crate::text::str_to_chars;

verus! {

/// True exactly when the presented header reads `Bearer ` followed by
/// the configured secret, character for character.
pub fn bearer_ok(auth: &str, key: &str) -> (r: bool)
    ensures
        r == (auth@ == "Bearer "@ + key@),
{
    proof {
        reveal_strlit("Bearer ");
    }
    let ac = str_to_chars(auth);
    let pc = str_to_chars("Bearer ");
    let kc = str_to_chars(key);
    if ac.len() < pc.len() || ac.len() - pc.len() != kc.len() {
        proof {
            assert(auth@.len() != ("Bearer "@ + key@).len());
        }
        return false;
    }
    let n = ac.len();
    let mut i: usize = 0;
    while i < n
        invariant
            n == ac.len(),
            i <= n,
            ac@ == auth@,
            pc@ == "Bearer "@,
            kc@ == key@,
            n == pc@.len() + kc@.len(),
            forall|j: int| 0 <= j < i ==> ac@[j] == ("Bearer "@ + key@)[j],
        decreases n - i,
    {
        let expected: char = if i < pc.len() {
            pc[i]
        } else {
            kc[i - pc.len()]
        };
        if ac[i] != expected {
            proof {
                if i < pc@.len() {
                    assert(("Bearer "@ + key@)[i as int] == "Bearer "@[i as int]);
                } else {
                    assert(("Bearer "@ + key@)[i as int] == key@[i as int - "Bearer "@.len()]);
                }
                assert(auth@[i as int] != ("Bearer "@ + key@)[i as int]);
            }
            return false;
        }
        i = i + 1;
    }
    proof {
        assert(auth@ =~= "Bearer "@ + key@);
    }
    true
}

} // verus!
