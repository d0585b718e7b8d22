//! Joining of text, as the command line of the server wants its lists.

use vstd::prelude::*;
use vstd::string::*;

verus! {

/// The parts of `parts` in order, with `separator` between neighbours.
pub open spec fn spec_join(parts: Seq<Seq<char>>, separator: Seq<char>) -> Seq<char>
    decreases parts.len(),
{
    if parts.len() == 0 {
        Seq::empty()
    } else if parts.len() == 1 {
        parts[0]
    } else {
        spec_join(parts.drop_last(), separator) + separator + parts.last()
    }
}

/// Joins `parts` with `separator`, keeping their order.
pub fn join(parts: &Vec<String>, separator: &str) -> (joined: String)
    ensures
        joined@ == spec_join(parts.deep_view(), separator@),
{
    let mut joined = String::new();
    let mut i: usize = 0;
    while i < parts.len()
        invariant
            i <= parts.len(),
            joined@ == spec_join(parts.deep_view().take(i as int), separator@),
        decreases parts.len() - i,
    {
        if i > 0 {
            joined.append(separator);
        }
        joined.append(parts[i].as_str());
        proof {
            let all = parts.deep_view();
            assert(all.take(i + 1).drop_last() =~= all.take(i as int));
        }
        i += 1;
    }
    proof {
        assert(parts.deep_view().take(parts.len() as int) =~= parts.deep_view());
    }
    joined
}

} // verus!
