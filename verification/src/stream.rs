//! The accumulation step of draining a body stream: envelopes buffer
//! bodies whole, so the chunks a transport hands over are folded into
//! one byte vector.

use vstd::prelude::*;

verus! {

/// Appends one chunk to the body gathered so far.
pub fn fold_chunk(acc: &mut Vec<u8>, chunk: &[u8])
    ensures
        final(acc)@ == old(acc)@ + chunk@,
{
    let n = chunk.len();
    let mut i: usize = 0;
    while i < n
        invariant
            n == chunk@.len(),
            0 <= i <= n,
            acc@ == old(acc)@ + chunk@.subrange(0, i as int),
        decreases n - i,
    {
        let ghost before = acc@;
        acc.push(chunk[i]);
        proof {
            assert(before.push(chunk@[i as int]) =~= old(acc)@ + chunk@.subrange(0, i + 1));
        }
        i += 1;
    }
    proof {
        assert(chunk@.subrange(0, n as int) =~= chunk@);
    }
}

} // verus!
