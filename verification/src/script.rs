//! The injected script bundle: one string assembled from payload segments.
//!
//! At startup the shell hands its web view a single script that wires the
//! page's event listeners to the window commands. The script text itself is
//! payload owned by the UI layer; the shell only concatenates the segments
//! it is given, in order, into the one string the web-view host accepts.

use vstd::prelude::*;
use vstd::string::StringExecFns;

verus! {

/// The views of the segments, joined in order.
pub open spec fn joined_views(parts: Seq<String>) -> Seq<char>
    decreases parts.len(),
{
    if parts.len() == 0 {
        Seq::empty()
    } else {
        joined_views(parts.drop_last()) + parts.last()@
    }
}

/// Assemble the startup script: the given segments concatenated in order,
/// nothing added and nothing dropped.
pub fn init_script(parts: &Vec<String>) -> (r: String)
    ensures
        r@ == joined_views(parts@),
{
    let mut script = String::new();
    let mut k: usize = 0;
    while k < parts.len()
        invariant
            k <= parts.len(),
            script@ == joined_views(parts@.take(k as int)),
        decreases parts.len() - k,
    {
        script.append(parts[k].as_str());
        proof {
            assert(parts@.take(k + 1 as int).drop_last() =~= parts@.take(k as int));
            assert(parts@.take(k + 1 as int).last() == parts@[k as int]);
        }
        k += 1;
    }
    proof {
        assert(parts@.take(parts@.len() as int) =~= parts@);
    }
    script
}

} // verus!
